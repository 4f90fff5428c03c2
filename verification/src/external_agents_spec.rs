use vstd::prelude::*;

use crate::tool_spec::{
    JsonSchema,
    ResponsesApiTool,
    ToolSpec,
    is_closed_object,
    is_function_tool,
    is_string_schema,
    string_schema,
};

verus! {

pub const EXTERNAL_AGENTS_NAMESPACE_DESCRIPTION: &'static str =
    "Plaintext tools for spawning and messaging allowlisted non-OpenAI workers such as Muse Spark.";

pub const SPAWN_AGENT_DESCRIPTION: &'static str = "Spawn an allowlisted non-OpenAI worker. Muse Spark is selected when task_name starts with muse_ (for example muse_inventory). Put the complete assignment in plaintext `message`; the child does not inherit parent history and cannot read encrypted collaboration payloads. After you spawn, call one long collaboration.wait_agent, then one collaboration.list_agents. Inspect files and tests yourself; do not treat child prose as verification. Cap `message` at 8192 bytes. Do not use collaboration.spawn_agent for Muse.";

pub const SPAWN_MESSAGE_DESCRIPTION: &'static str = "Full plaintext task for the worker. This is the only assignment the child receives. Cap 8192 bytes. Do not send encrypted collaboration payloads.";

pub const TASK_NAME_DESCRIPTION: &'static str =
    "Task name for the new agent. Muse Spark workers must start with muse_.";

pub const AGENT_TYPE_DESCRIPTION_HEAD: &'static str = "Allowlisted non-OpenAI role. Omit when task_name starts with muse_, which selects muse_spark.\n";

pub const MODEL_DESCRIPTION: &'static str =
    "Optional model override. Do not pass muse-spark-1.3 from a ChatGPT parent.";

pub const REASONING_EFFORT_DESCRIPTION: &'static str =
    "Optional reasoning effort override for the new agent.";

pub const SEND_MESSAGE_DESCRIPTION: &'static str = "Send a plaintext message to an allowlisted non-OpenAI worker such as Muse Spark. The message is delivered immediately as user input. Do not use collaboration.send_message for Muse.";

pub const FOLLOWUP_TASK_DESCRIPTION: &'static str = "Send a plaintext follow-up task to an existing non-root allowlisted non-OpenAI worker and trigger a turn if it is idle. Do not use collaboration.followup_task for Muse.";

pub const TARGET_DESCRIPTION: &'static str =
    "Relative or canonical task name of an allowlisted non-OpenAI worker.";

pub const TARGET_MESSAGE_DESCRIPTION: &'static str =
    "Plaintext user input for the worker. Cap 8192 bytes.";

/// How the spawn tool is offered.
#[derive(Debug)]
pub struct SpawnAgentToolOptions {
    pub agent_type_description: String,
    pub expose_agent_type: bool,
    pub expose_spawn_agent_model_overrides: bool,
}

pub fn external_spawn_agent_description() -> (res: String)
    ensures
        res@ == SPAWN_AGENT_DESCRIPTION@,
{
    SPAWN_AGENT_DESCRIPTION.to_owned()
}

/// The properties of the spawn tool by name order: `agent_type` where it is
/// exposed, `message`, `model` and `reasoning_effort` where overrides are
/// exposed, `task_name`.
pub open spec fn spawn_properties(
    agent_type_description: Seq<char>,
    expose_agent_type: bool,
    expose_overrides: bool,
) -> Seq<(Seq<char>, Seq<char>)> {
    (if expose_agent_type {
        seq![("agent_type"@, AGENT_TYPE_DESCRIPTION_HEAD@ + agent_type_description)]
    } else {
        Seq::empty()
    }) + seq![("message"@, SPAWN_MESSAGE_DESCRIPTION@)] + (if expose_overrides {
        seq![("model"@, MODEL_DESCRIPTION@), ("reasoning_effort"@, REASONING_EFFORT_DESCRIPTION@)]
    } else {
        Seq::empty()
    }) + seq![("task_name"@, TASK_NAME_DESCRIPTION@)]
}

pub fn create_external_spawn_agent_tool(options: SpawnAgentToolOptions) -> (res: ToolSpec)
    ensures
        is_function_tool(
            res,
            "spawn_agent"@,
            SPAWN_AGENT_DESCRIPTION@,
            spawn_properties(
                options.agent_type_description@,
                options.expose_agent_type,
                options.expose_spawn_agent_model_overrides,
            ),
            seq!["task_name"@, "message"@],
        ),
{
    let ghost expected = spawn_properties(
        options.agent_type_description@,
        options.expose_agent_type,
        options.expose_spawn_agent_model_overrides,
    );
    let mut properties: Vec<(String, JsonSchema)> = Vec::new();
    if options.expose_agent_type {
        let mut d = AGENT_TYPE_DESCRIPTION_HEAD.to_owned();
        d.append(options.agent_type_description.as_str());
        properties.push(("agent_type".to_owned(), string_schema(d.as_str())));
    }
    properties.push(("message".to_owned(), string_schema(SPAWN_MESSAGE_DESCRIPTION)));
    if options.expose_spawn_agent_model_overrides {
        properties.push(("model".to_owned(), string_schema(MODEL_DESCRIPTION)));
        properties.push(
            ("reasoning_effort".to_owned(), string_schema(REASONING_EFFORT_DESCRIPTION)),
        );
    }
    properties.push(("task_name".to_owned(), string_schema(TASK_NAME_DESCRIPTION)));
    assert(properties@.len() == expected.len());
    assert forall|i: int| 0 <= i < properties@.len() implies (#[trigger] properties@[i]).0@
        == expected[i].0 && is_string_schema(properties@[i].1, expected[i].1) by {}
    let required = vec!["task_name".to_owned(), "message".to_owned()];
    assert(required@.map_values(|x: String| x@) =~= seq!["task_name"@, "message"@]);
    ToolSpec::Function(ResponsesApiTool {
        name: "spawn_agent".to_owned(),
        description: external_spawn_agent_description(),
        strict: false,
        defer_loading: None,
        parameters: JsonSchema::Object {
            properties,
            required: Some(required),
            additional_properties: Some(false),
        },
        output_schema: None,
    })
}

/// The properties of the messaging tools: `message` and `target`.
pub open spec fn target_properties() -> Seq<(Seq<char>, Seq<char>)> {
    seq![("message"@, TARGET_MESSAGE_DESCRIPTION@), ("target"@, TARGET_DESCRIPTION@)]
}

pub fn plaintext_target_message_parameters() -> (res: JsonSchema)
    ensures
        is_closed_object(res, target_properties(), seq!["target"@, "message"@]),
{
    let mut properties: Vec<(String, JsonSchema)> = Vec::new();
    properties.push(("message".to_owned(), string_schema(TARGET_MESSAGE_DESCRIPTION)));
    properties.push(("target".to_owned(), string_schema(TARGET_DESCRIPTION)));
    let required = vec!["target".to_owned(), "message".to_owned()];
    assert(required@.map_values(|x: String| x@) =~= seq!["target"@, "message"@]);
    JsonSchema::Object { properties, required: Some(required), additional_properties: Some(false) }
}

pub fn create_external_send_message_tool() -> (res: ToolSpec)
    ensures
        is_function_tool(
            res,
            "send_message"@,
            SEND_MESSAGE_DESCRIPTION@,
            target_properties(),
            seq!["target"@, "message"@],
        ),
{
    ToolSpec::Function(ResponsesApiTool {
        name: "send_message".to_owned(),
        description: SEND_MESSAGE_DESCRIPTION.to_owned(),
        strict: false,
        defer_loading: None,
        parameters: plaintext_target_message_parameters(),
        output_schema: None,
    })
}

pub fn create_external_followup_task_tool() -> (res: ToolSpec)
    ensures
        is_function_tool(
            res,
            "followup_task"@,
            FOLLOWUP_TASK_DESCRIPTION@,
            target_properties(),
            seq!["target"@, "message"@],
        ),
{
    ToolSpec::Function(ResponsesApiTool {
        name: "followup_task".to_owned(),
        description: FOLLOWUP_TASK_DESCRIPTION.to_owned(),
        strict: false,
        defer_loading: None,
        parameters: plaintext_target_message_parameters(),
        output_schema: None,
    })
}

} // verus!
