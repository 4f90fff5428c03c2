use codex_muse::error::FunctionCallError;
use codex_muse::external_agents::{
    AgentTransport,
    COLLABORATION_MUSE_ERROR,
    ModelProviderInfo,
    OMITTED_ENCRYPTED_PAYLOAD_STUB,
    ToolName,
    collaboration_muse_error,
    external_role_name,
    is_allowlisted_external_role,
    is_external_agents_mutating_tool,
    is_external_agents_namespace,
    model_provider_from_role_config,
    plaintext_user_input,
    reject_encrypted_external_agents_args,
    role_selects_non_openai_provider,
    validate_plaintext_agent_message,
    UserInput,
};
use codex_muse::external_agents_spec::{
    SpawnAgentToolOptions,
    create_external_followup_task_tool,
    create_external_send_message_tool,
    create_external_spawn_agent_tool,
    external_spawn_agent_description,
};
use codex_muse::send_message::Handler;
use codex_muse::tool_spec::{JsonSchema, ToolSpec};

fn message_of(err: FunctionCallError) -> String {
    match err {
        FunctionCallError::RespondToModel(m) => m,
        other => panic!("unexpected {other:?}"),
    }
}

#[test]
fn namespace_and_mutating_tools() {
    let spawn = ToolName::namespaced("external_agents", "spawn_agent");
    assert!(is_external_agents_namespace(&spawn));
    assert!(is_external_agents_mutating_tool(&spawn));
    let wait = ToolName::namespaced("external_agents", "wait_agent");
    assert!(is_external_agents_namespace(&wait));
    assert!(!is_external_agents_mutating_tool(&wait));
    let collab = ToolName::namespaced("collaboration", "send_message");
    assert!(!is_external_agents_mutating_tool(&collab));
    assert!(!is_external_agents_namespace(&ToolName::plain("followup_task")));
}

#[test]
fn encrypted_arguments_are_refused() {
    assert!(reject_encrypted_external_agents_args(&None).is_ok());
    assert!(reject_encrypted_external_agents_args(&Some(Vec::new())).is_ok());
    let err = reject_encrypted_external_agents_args(&Some(vec!["message".to_string()]))
        .unwrap_err();
    assert_eq!(
        message_of(err),
        "external_agents only accepts plaintext messages; do not encrypt the payload"
    );
    assert_eq!(message_of(collaboration_muse_error()), COLLABORATION_MUSE_ERROR);
}

#[test]
fn plaintext_messages_are_checked() {
    assert_eq!(validate_plaintext_agent_message("do it".to_string()).unwrap(), "do it");
    assert!(message_of(validate_plaintext_agent_message(" \n ".to_string()).unwrap_err())
        .contains("Empty message"));
    let with_stub = format!("task\n{OMITTED_ENCRYPTED_PAYLOAD_STUB}");
    assert!(message_of(validate_plaintext_agent_message(with_stub).unwrap_err())
        .contains("omitted encrypted-payload stub"));
    let at_limit = "a".repeat(8192);
    assert!(validate_plaintext_agent_message(at_limit).is_ok());
    // 4097 two-byte characters: 8194 bytes.
    let over = "é".repeat(4097);
    assert_eq!(
        message_of(validate_plaintext_agent_message(over).unwrap_err()),
        "external_agents message exceeds the 8192 byte limit"
    );
}

#[test]
fn plaintext_input_is_one_text_item() {
    let input = plaintext_user_input("hello".to_string());
    assert_eq!(input.len(), 1);
    match &input[0] {
        UserInput::Text { text, text_elements } => {
            assert_eq!(text, "hello");
            assert!(text_elements.is_empty());
        }
        other => panic!("unexpected {other:?}"),
    }
}

fn providers() -> Vec<ModelProviderInfo> {
    vec![
        ModelProviderInfo { id: "cliproxy".to_string(), requires_openai_auth: false },
        ModelProviderInfo { id: "azure".to_string(), requires_openai_auth: true },
        ModelProviderInfo { id: "OpenAI".to_string(), requires_openai_auth: false },
    ]
}

#[test]
fn roles_need_a_configured_non_openai_provider() {
    let providers = providers();
    assert!(role_selects_non_openai_provider(Some("cliproxy"), &providers));
    assert!(!role_selects_non_openai_provider(Some("azure"), &providers));
    assert!(!role_selects_non_openai_provider(Some("OpenAI"), &providers));
    assert!(!role_selects_non_openai_provider(Some("oPeNaI"), &providers));
    assert!(!role_selects_non_openai_provider(Some("unknown"), &providers));
    assert!(!role_selects_non_openai_provider(None, &providers));
}

#[test]
fn allowlist_by_muse_role_or_provider() {
    let providers = providers();
    assert!(is_allowlisted_external_role(true, None, None, &providers));
    assert!(!is_allowlisted_external_role(false, None, Some("cliproxy"), &providers));
    assert!(!is_allowlisted_external_role(false, Some("  "), Some("cliproxy"), &providers));
    assert!(is_allowlisted_external_role(false, Some(" worker "), Some("cliproxy"), &providers));
    assert!(!is_allowlisted_external_role(false, Some("worker"), Some("azure"), &providers));
    assert_eq!(external_role_name(Some("  worker ")), Some("worker".to_string()));
    assert_eq!(external_role_name(Some(" ")), None);
}

#[test]
fn role_provider_comes_from_the_parsed_table() {
    let role = "name = \"muse_spark\"\nmodel = \"muse-spark-1.3\"\nmodel_provider = \"cliproxy\"\n\n[features]\napps = false\n";
    assert_eq!(model_provider_from_role_config(role), Some("cliproxy".to_string()));
    assert_eq!(model_provider_from_role_config("model_provider = 3"), None);
    assert_eq!(model_provider_from_role_config("name = \"x\""), None);
    assert_eq!(model_provider_from_role_config("[model_provider]\nid = \"x\""), None);
    assert_eq!(model_provider_from_role_config("not toml at all ="), None);
}

fn properties(spec: &ToolSpec) -> Vec<(String, String)> {
    let ToolSpec::Function(tool) = spec;
    let JsonSchema::Object { properties, .. } = &tool.parameters else {
        panic!("expected object parameters");
    };
    properties
        .iter()
        .map(|(k, v)| match v {
            JsonSchema::String { description } => (k.clone(), description.clone().unwrap()),
            other => panic!("unexpected {other:?}"),
        })
        .collect()
}

#[test]
fn spawn_tool_exposes_optional_properties() {
    let full = create_external_spawn_agent_tool(SpawnAgentToolOptions {
        agent_type_description: "roles: muse_spark".to_string(),
        expose_agent_type: true,
        expose_spawn_agent_model_overrides: true,
    });
    let names: Vec<String> = properties(&full).into_iter().map(|(k, _)| k).collect();
    assert_eq!(names, vec!["agent_type", "message", "model", "reasoning_effort", "task_name"]);
    assert_eq!(
        properties(&full)[0].1,
        "Allowlisted non-OpenAI role. Omit when task_name starts with muse_, which selects muse_spark.\nroles: muse_spark"
    );
    let ToolSpec::Function(tool) = &full;
    assert_eq!(tool.name, "spawn_agent");
    assert_eq!(tool.description, external_spawn_agent_description());
    assert!(tool.description.contains("Cap `message` at 8192 bytes."));
    let JsonSchema::Object { required, additional_properties, .. } = &tool.parameters else {
        panic!("expected object parameters");
    };
    assert_eq!(required.clone().unwrap(), vec!["task_name", "message"]);
    assert_eq!(*additional_properties, Some(false));

    let bare = create_external_spawn_agent_tool(SpawnAgentToolOptions {
        agent_type_description: String::new(),
        expose_agent_type: false,
        expose_spawn_agent_model_overrides: false,
    });
    let names: Vec<String> = properties(&bare).into_iter().map(|(k, _)| k).collect();
    assert_eq!(names, vec!["message", "task_name"]);
}

#[test]
fn messaging_tools_take_target_and_message() {
    for (spec, name) in [
        (create_external_send_message_tool(), "send_message"),
        (create_external_followup_task_tool(), "followup_task"),
    ] {
        let ToolSpec::Function(tool) = &spec;
        assert_eq!(tool.name, name);
        assert_eq!(
            properties(&spec),
            vec![
                (
                    "message".to_string(),
                    "Plaintext user input for the worker. Cap 8192 bytes.".to_string()
                ),
                (
                    "target".to_string(),
                    "Relative or canonical task name of an allowlisted non-OpenAI worker."
                        .to_string()
                ),
            ]
        );
    }
}

#[test]
fn send_message_handlers_pick_their_transport() {
    assert_eq!(Handler::collaboration().surface(), AgentTransport::Collaboration);
    assert_eq!(Handler::external().surface(), AgentTransport::ExternalAgents);
    assert_eq!(Handler::default().surface(), AgentTransport::Collaboration);
    assert_eq!(AgentTransport::default(), AgentTransport::Collaboration);
    let collaboration_tool = create_external_followup_task_tool();
    let ToolSpec::Function(kept) = Handler::collaboration().spec(collaboration_tool);
    assert_eq!(kept.name, "followup_task");
    let ToolSpec::Function(external) =
        Handler::external().spec(create_external_followup_task_tool());
    assert_eq!(external.name, "send_message");
    let name = Handler::external().tool_name();
    assert_eq!(name.name, "send_message");
    assert!(name.namespace.is_none());
}
