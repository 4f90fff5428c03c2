use codex_muse::apply_patch::{
    STRUCTURED_EXAMPLE,
    apply_patch_function_description,
    apply_patch_function_parameters,
    create_file_patch,
    custom_input_from_function_arguments,
    delete_file_patch,
    normalize_update_diff,
    prefix_added_lines,
    update_file_patch,
    validate_apply_patch_path,
};
use codex_muse::error::FunctionCallError;
use codex_muse::json::JsonValue;

#[test]
fn structured_create_file_becomes_canonical_add_patch() {
    let arguments = r#"{"content":"hello\nworld\n","operation":"create_file","path":"notes.txt"}"#;

    assert_eq!(
        custom_input_from_function_arguments(arguments).expect("create should translate"),
        Some("*** Begin Patch\n*** Add File: notes.txt\n+hello\n+world\n*** End Patch".to_string())
    );
}

#[test]
fn structured_update_file_wraps_diff_and_optional_move() {
    let arguments =
        r#"{"diff":"-old\n+new","move_to":"src/main.rs","operation":"update_file","path":"src/lib.rs"}"#;

    assert_eq!(
        custom_input_from_function_arguments(arguments).expect("update should translate"),
        Some(
            "*** Begin Patch\n*** Update File: src/lib.rs\n*** Move to: src/main.rs\n@@\n-old\n+new\n*** End Patch"
                .to_string()
        )
    );
}

#[test]
fn structured_delete_file_becomes_canonical_delete_patch() {
    let arguments = r#"{"operation":"delete_file","path":"obsolete.txt"}"#;

    assert_eq!(
        custom_input_from_function_arguments(arguments).expect("delete should translate"),
        Some("*** Begin Patch\n*** Delete File: obsolete.txt\n*** End Patch".to_string())
    );
}

#[test]
fn input_fallback_keeps_canonical_patch() {
    let patch = "*** Begin Patch\n*** Add File: a.txt\n+hi\n*** End Patch";
    let arguments = r#"{"input":"*** Begin Patch\n*** Add File: a.txt\n+hi\n*** End Patch"}"#;

    assert_eq!(
        custom_input_from_function_arguments(arguments).expect("input fallback"),
        Some(patch.to_string())
    );
}

#[test]
fn invalid_parent_path_includes_corrected_example() {
    let arguments = r#"{"content":"nope","operation":"create_file","path":"../secret.txt"}"#;

    let err =
        custom_input_from_function_arguments(arguments).expect_err("parent-dir paths should fail");
    let FunctionCallError::RespondToModel(message) = err else {
        panic!("expected model-facing path error");
    };
    assert!(message.contains("`..`"));
    assert!(message.contains(STRUCTURED_EXAMPLE));
}

#[test]
fn empty_path_includes_corrected_example() {
    let arguments = r#"{"operation":"delete_file","path":"   "}"#;

    let err = custom_input_from_function_arguments(arguments).expect_err("empty path should fail");
    let FunctionCallError::RespondToModel(message) = err else {
        panic!("expected model-facing path error");
    };
    assert!(message.contains("non-empty"));
    assert!(message.contains(STRUCTURED_EXAMPLE));
}

fn model_message(err: FunctionCallError) -> String {
    match err {
        FunctionCallError::RespondToModel(message) => message,
        other => panic!("expected a model-facing error, got {other:?}"),
    }
}

#[test]
fn malformed_arguments_report_the_parse_error_and_example() {
    let message = model_message(custom_input_from_function_arguments("{not json").unwrap_err());
    assert!(message.starts_with("failed to parse apply_patch arguments: "));
    assert!(message.ends_with(STRUCTURED_EXAMPLE));
}

#[test]
fn fallback_members_are_tried_in_order_and_strings_pass_through() {
    assert_eq!(
        custom_input_from_function_arguments(r#"{"patch":"p","command":"c"}"#).unwrap(),
        Some("p".to_string())
    );
    assert_eq!(
        custom_input_from_function_arguments(r#"{"command":"c"}"#).unwrap(),
        Some("c".to_string())
    );
    // The first member present decides, even when it is not a string.
    assert_eq!(
        custom_input_from_function_arguments(r#"{"input":3,"patch":"p"}"#).unwrap(),
        None
    );
    assert_eq!(
        custom_input_from_function_arguments(r#""raw patch""#).unwrap(),
        Some("raw patch".to_string())
    );
    assert_eq!(custom_input_from_function_arguments("[1,2]").unwrap(), None);
}

#[test]
fn structured_errors_name_the_problem() {
    let missing = model_message(
        custom_input_from_function_arguments(r#"{"operation":"create_file"}"#).unwrap_err(),
    );
    assert!(missing.starts_with("apply_patch `path` must be a string"));

    let not_string = model_message(
        custom_input_from_function_arguments(r#"{"operation":1,"path":"a"}"#).unwrap_err(),
    );
    assert!(not_string.starts_with("apply_patch `operation` must be a string"));

    let unknown = model_message(
        custom_input_from_function_arguments(r#"{"operation":"rename_file","path":"a"}"#)
            .unwrap_err(),
    );
    assert!(unknown.starts_with(
        "unsupported apply_patch operation `rename_file`; use `create_file`, `update_file`, or `delete_file`"
    ));

    let no_diff = model_message(
        custom_input_from_function_arguments(r#"{"operation":"update_file","path":"a"}"#)
            .unwrap_err(),
    );
    assert!(no_diff.starts_with("apply_patch `diff` must be a string"));

    let bad_move = model_message(
        custom_input_from_function_arguments(
            r#"{"operation":"update_file","path":"a","diff":"x","move_to":"../b"}"#,
        )
        .unwrap_err(),
    );
    assert!(bad_move.starts_with("apply_patch `path` cannot contain `..` components"));
}

#[test]
fn operation_and_paths_are_trimmed() {
    assert_eq!(
        custom_input_from_function_arguments(
            r#"{"operation":"  create_file ","path":" a.txt "}"#
        )
        .unwrap(),
        Some("*** Begin Patch\n*** Add File: a.txt\n*** End Patch".to_string())
    );
    assert_eq!(
        custom_input_from_function_arguments(
            r#"{"operation":"update_file","path":"a","diff":"-x","move_to":" b "}"#
        )
        .unwrap(),
        Some("*** Begin Patch\n*** Update File: a\n*** Move to: b\n@@\n-x\n*** End Patch".to_string())
    );
}

#[test]
fn content_and_diff_are_kept_as_given() {
    assert_eq!(
        custom_input_from_function_arguments(
            r#"{"operation":"create_file","path":"a.py","content":"  x = 1\n"}"#
        )
        .unwrap(),
        Some("*** Begin Patch\n*** Add File: a.py\n+  x = 1\n*** End Patch".to_string())
    );
    assert_eq!(
        custom_input_from_function_arguments(
            r#"{"operation":"update_file","path":"a.rs","diff":" ctx\n-a\n+b"}"#
        )
        .unwrap(),
        Some("*** Begin Patch\n*** Update File: a.rs\n@@\n ctx\n-a\n+b\n*** End Patch".to_string())
    );
}

#[test]
fn path_checks() {
    assert!(validate_apply_patch_path("src/lib.rs").is_ok());
    assert!(validate_apply_patch_path("a/..b/c").is_ok());
    assert!(validate_apply_patch_path("./a...").is_ok());
    let control = model_message(validate_apply_patch_path("a\u{7}b").unwrap_err());
    assert!(control.starts_with("apply_patch `path` cannot contain control characters"));
    assert!(validate_apply_patch_path("a/..").is_err());
    assert!(validate_apply_patch_path("/../x").is_err());
    assert!(validate_apply_patch_path("..").is_err());
    let empty = model_message(validate_apply_patch_path("\t \n").unwrap_err());
    assert_eq!(
        empty,
        format!("apply_patch `path` must be a non-empty file path\n\nExample:\n{STRUCTURED_EXAMPLE}")
    );
}

#[test]
fn added_lines_mark_every_line() {
    assert_eq!(prefix_added_lines(""), "");
    assert_eq!(prefix_added_lines("\n"), "");
    assert_eq!(prefix_added_lines("a"), "+a");
    assert_eq!(prefix_added_lines("a\n\nb\n"), "+a\n+\n+b");
    assert_eq!(prefix_added_lines("\n\n"), "+\n+");
    assert_eq!(create_file_patch("x", ""), "*** Begin Patch\n*** Add File: x\n*** End Patch");
}

#[test]
fn update_diffs_are_normalized() {
    assert_eq!(normalize_update_diff("\n\n"), "");
    assert_eq!(normalize_update_diff("\n@@ ctx\n-a\n+b\n"), "@@ ctx\n-a\n+b");
    assert_eq!(normalize_update_diff("*** End of File\n-a"), "*** End of File\n-a");
    assert_eq!(normalize_update_diff("-a\n+b"), "@@\n-a\n+b");
    for diff in ["\n-a\n+b\n", "@@ x\n a", "*** Move\n", "", " ctx"] {
        let once = normalize_update_diff(diff);
        assert_eq!(normalize_update_diff(&once), once);
    }
    assert_eq!(
        update_file_patch("f", "", None),
        "*** Begin Patch\n*** Update File: f\n*** End Patch"
    );
    assert_eq!(delete_file_patch("f"), "*** Begin Patch\n*** Delete File: f\n*** End Patch");
}

#[test]
fn description_keeps_the_original_or_a_default() {
    let suffix = " Prefer structured fields: `operation` (`create_file`, `update_file`, or `delete_file`), `path`, `content` (create_file), `diff` (update_file), and optional `move_to`. You may instead pass a canonical apply_patch document in `input`.";
    assert_eq!(
        apply_patch_function_description(Some("  Edit files.  ")),
        format!("Edit files.{suffix}")
    );
    assert_eq!(
        apply_patch_function_description(Some("   ")),
        format!("Apply a file patch.{suffix}")
    );
    assert_eq!(apply_patch_function_description(None), format!("Apply a file patch.{suffix}"));
}

#[test]
fn parameters_describe_the_structured_fields() {
    let JsonValue::Object(top) = apply_patch_function_parameters() else {
        panic!("expected an object schema");
    };
    let keys: Vec<&str> = top.iter().map(|(k, _)| k.as_str()).collect();
    assert_eq!(keys, vec!["type", "properties", "additionalProperties"]);
    let JsonValue::Object(properties) = &top[1].1 else {
        panic!("expected properties");
    };
    let names: Vec<&str> = properties.iter().map(|(k, _)| k.as_str()).collect();
    assert_eq!(names, vec!["operation", "path", "content", "diff", "move_to", "input"]);
    assert!(matches!(top[2].1, JsonValue::Bool(false)));
}
