# codex_muse

A verified library for the tool plumbing of plaintext, non-OpenAI ("Muse
Spark") worker agents:

- `apply_patch`: turns the JSON arguments of an `apply_patch` function call
  (structured `create_file` / `update_file` / `delete_file` fields, or a
  canonical patch in `input`) into the canonical patch text, with path checks
  and model-facing errors.
- `guidance`, `wire_names`, `order`: the developer message that lists the exact
  tool names a worker may call, and its insertion into a conversation.
- `external_agents`, `external_agents_spec`, `send_message`, `tool_spec`: the
  plaintext `external_agents` tools, message checks and the provider allowlist.
- `json`, `text`, `protocol`, `error`: the plain-value models these work on.
- `laws`: properties that span several functions, proved.

`serde_json` parses the arguments and `toml` the role files; `app/` holds the
file reads and the conversion back to `serde_json::Value`.
