use codex_muse::guidance::{MuseToolGuidance, render_muse_tool_guidance, upsert_muse_tool_guidance};
use codex_muse::json::JsonValue;
use codex_muse::order::sort_dedup_truncate;
use codex_muse::protocol::{ContentItem, ResponseItem};
use codex_muse::wire_names::collect_wire_tool_names;

fn s(text: &str) -> JsonValue {
    JsonValue::String(text.to_string())
}

fn obj(members: Vec<(&str, JsonValue)>) -> JsonValue {
    JsonValue::Object(members.into_iter().map(|(k, v)| (k.to_string(), v)).collect())
}

#[test]
fn collect_wire_tool_names_uses_exact_function_and_hosted_names() {
    let tools = JsonValue::Array(vec![
        obj(vec![("type", s("function")), ("name", s("exec_command"))]),
        obj(vec![("type", s("function")), ("name", s("apply_patch"))]),
        obj(vec![("type", s("web_search"))]),
        obj(vec![
            ("type", s("namespace")),
            ("name", s("collaboration")),
            (
                "tools",
                JsonValue::Array(vec![obj(vec![("type", s("function")), ("name", s("spawn_agent"))])]),
            ),
        ]),
    ]);

    assert_eq!(
        collect_wire_tool_names(&tools),
        vec![
            "apply_patch".to_string(),
            "exec_command".to_string(),
            "spawn_agent".to_string(),
            "web_search".to_string()
        ]
    );
}

#[test]
fn upsert_replaces_previous_guidance_in_place() {
    let mut input = Vec::new();
    upsert_muse_tool_guidance(&mut input, &["exec_command".to_string()]);
    upsert_muse_tool_guidance(
        &mut input,
        &["apply_patch".to_string(), "exec_command".to_string()],
    );

    assert_eq!(input.len(), 1);
    let ResponseItem::Message { content, .. } = &input[0] else {
        panic!("expected developer message");
    };
    let ContentItem::InputText { text } = &content[0] else {
        panic!("expected input text");
    };
    assert!(text.contains("<muse_tool_guidance>"));
    assert!(text.contains("- apply_patch"));
    assert!(text.contains("structured create_file"));
    assert!(!text.contains("collaboration.spawn_agent"));
}

#[test]
fn wire_names_are_trimmed_sorted_deduplicated_and_capped() {
    let mut items = vec![
        obj(vec![("type", s("custom")), ("name", s("  zeta  "))]),
        obj(vec![("type", s("function")), ("name", s("   "))]),
        obj(vec![("type", s("function")), ("name", JsonValue::Number("3".to_string()))]),
        obj(vec![("type", s("web_search"))]),
        obj(vec![("type", s("web_search"))]),
        obj(vec![("type", s("namespace")), ("name", s("ns"))]),
        obj(vec![("nested", obj(vec![("type", s("function")), ("name", s("inner"))]))]),
    ];
    assert_eq!(
        collect_wire_tool_names(&JsonValue::Array(items.iter().map(deep_clone).collect())),
        vec!["inner".to_string(), "web_search".to_string(), "zeta".to_string()]
    );
    for i in 0..100 {
        items.push(obj(vec![("type", s("function")), ("name", s(&format!("tool_{i:03}")))]));
    }
    let names = collect_wire_tool_names(&JsonValue::Array(items));
    assert_eq!(names.len(), 64);
    assert_eq!(names[0], "inner");
    assert_eq!(names[1], "tool_000");
    assert_eq!(names[63], "tool_062");
}

fn deep_clone(v: &JsonValue) -> JsonValue {
    match v {
        JsonValue::Null => JsonValue::Null,
        JsonValue::Bool(b) => JsonValue::Bool(*b),
        JsonValue::Number(n) => JsonValue::Number(n.clone()),
        JsonValue::String(t) => JsonValue::String(t.clone()),
        JsonValue::Array(a) => JsonValue::Array(a.iter().map(deep_clone).collect()),
        JsonValue::Object(m) => {
            JsonValue::Object(m.iter().map(|(k, x)| (k.clone(), deep_clone(x))).collect())
        }
    }
}

#[test]
fn guidance_lists_names_or_says_none() {
    assert_eq!(
        render_muse_tool_guidance(&[]),
        "Available tools for this turn (use only these exact names):\n- (none advertised)\nDo not invent dotted, MCP, REPL, or code-mode names unless they appear in this list."
    );
    assert_eq!(
        render_muse_tool_guidance(&["exec_command".to_string()]),
        "Available tools for this turn (use only these exact names):\n- exec_command\nDo not invent dotted, MCP, REPL, or code-mode names unless they appear in this list."
    );
}

#[test]
fn guidance_is_capped_and_lists_at_most_64_names() {
    let names: Vec<String> = (0..200).map(|i| format!("{}_{i}", "x".repeat(80))).collect();
    let body = render_muse_tool_guidance(&names);
    assert_eq!(body.chars().count(), 4000);
    let few: Vec<String> = (0..70).map(|i| format!("t{i}")).collect();
    let body = render_muse_tool_guidance(&few);
    assert!(body.contains("- t63\n"));
    assert!(!body.contains("- t64\n"));
    // apply_patch past the 64th name still earns the note.
    let mut late = few.clone();
    late.push("apply_patch".to_string());
    assert!(render_muse_tool_guidance(&late).contains("structured create_file"));
}

#[test]
fn upsert_appends_when_no_guidance_and_keeps_other_items() {
    let mut input = vec![
        ResponseItem::Other { kind: "function_call".to_string() },
        ResponseItem::Message {
            id: None,
            role: "user".to_string(),
            content: vec![ContentItem::InputText { text: "hello".to_string() }],
        },
    ];
    upsert_muse_tool_guidance(&mut input, &["a".to_string()]);
    assert_eq!(input.len(), 3);
    assert!(MuseToolGuidance::matches_item(&input[2]));
    assert!(!MuseToolGuidance::matches_item(&input[1]));
    upsert_muse_tool_guidance(&mut input, &["b".to_string()]);
    assert_eq!(input.len(), 3);
    let ResponseItem::Message { role, content, .. } = &input[2] else {
        panic!("expected developer message");
    };
    assert_eq!(role, "developer");
    let ContentItem::InputText { text } = &content[0] else {
        panic!("expected input text");
    };
    assert!(text.starts_with("<muse_tool_guidance>\n"));
    assert!(text.ends_with("\n</muse_tool_guidance>"));
    assert!(text.contains("- b\n"));
    assert!(!text.contains("- a\n"));
}

#[test]
fn sorting_keeps_the_smallest_distinct_names() {
    let names: Vec<String> = ["b", "a", "c", "a", "é", "z"].iter().map(|s| s.to_string()).collect();
    assert_eq!(sort_dedup_truncate(&names, 3), vec!["a", "b", "c"]);
    assert_eq!(sort_dedup_truncate(&names, 10), vec!["a", "b", "c", "z", "é"]);
    assert!(sort_dedup_truncate(&names, 0).is_empty());
}
