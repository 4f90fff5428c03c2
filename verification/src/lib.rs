//! Tool plumbing for plaintext, non-OpenAI worker agents: `apply_patch`
//! argument handling, tool-name guidance and the `external_agents` tools, with
//! their contracts proved by Verus.

pub mod text;
pub mod json;
pub mod error;
pub mod apply_patch;
pub mod protocol;
pub mod guidance;
pub mod wire_names;
pub mod order;
pub mod external_agents;
pub mod tool_spec;
pub mod external_agents_spec;
pub mod send_message;
pub mod laws;
