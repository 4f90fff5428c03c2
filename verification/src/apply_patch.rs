use vstd::prelude::*;

use crate::error::{
    FunctionCallError,
    responds_with,
    same_outcome,
    same_unit_outcome,
    same_optional_outcome,
};
use crate::json::{
    JsonValue,
    entries_view,
    items_view,
    lemma_entries_view,
    lemma_items_view,
    JsonView,
    as_str,
    field,
    get,
    get_str,
    parse_json,
    serde_json_from_str,
    str_field,
    str_of,
};
use crate::text::{
    chars_of,
    char_is_control,
    contains,
    contains_str,
    is_control,
    starts_with,
    starts_with_str,
    str_eq,
    trim,
    trim_newlines,
    trim_newlines_string,
    trim_string,
};

verus! {

pub const APPLY_PATCH_TOOL_NAME: &'static str = "apply_patch";

pub const STRUCTURED_EXAMPLE: &'static str =
    r#"{"operation":"create_file","path":"notes.txt","content":"hello\n"}"#;

pub const CREATE_FILE: &'static str = "create_file";

pub const UPDATE_FILE: &'static str = "update_file";

pub const DELETE_FILE: &'static str = "delete_file";

// ---------------------------------------------------------------------------
// The canonical patch documents.

/// `s` without one trailing `'\n'`, as `strip_suffix('\n').unwrap_or(s)`.
pub open spec fn without_final_newline(s: Seq<char>) -> Seq<char> {
    if s.len() > 0 && s.last() == '\n' {
        s.drop_last()
    } else {
        s
    }
}

/// `s` with a `'+'` written after every `'\n'`.
pub open spec fn plus_after_newlines(s: Seq<char>) -> Seq<char>
    decreases s.len(),
{
    if s.len() == 0 {
        Seq::empty()
    } else {
        plus_after_newlines(s.drop_last()) + if s.last() == '\n' {
            seq!['\n', '+']
        } else {
            seq![s.last()]
        }
    }
}

/// Every line of `content` (one final newline dropped) with `+` in front,
/// joined by newlines; empty where nothing is left.
pub open spec fn added_lines(content: Seq<char>) -> Seq<char> {
    let stripped = without_final_newline(content);
    if stripped.len() == 0 {
        Seq::empty()
    } else {
        seq!['+'] + plus_after_newlines(stripped)
    }
}

/// `"\n" + s`, or nothing where `s` is empty.
pub open spec fn on_new_line(s: Seq<char>) -> Seq<char> {
    if s.len() == 0 {
        Seq::empty()
    } else {
        "\n"@ + s
    }
}

pub open spec fn create_patch(path: Seq<char>, content: Seq<char>) -> Seq<char> {
    "*** Begin Patch\n*** Add File: "@ + path + on_new_line(added_lines(content))
        + "\n*** End Patch"@
}

/// The hunks of an update: the diff without leading and trailing newlines,
/// with an `@@` header in front unless it has one or holds `*** ` already.
pub open spec fn normalized_diff(diff: Seq<char>) -> Seq<char> {
    let t = trim_newlines(diff);
    if t.len() == 0 {
        Seq::empty()
    } else if starts_with(t, "@@"@) || contains(t, "*** "@) {
        t
    } else {
        "@@\n"@ + t
    }
}

pub open spec fn move_line(move_to: Option<Seq<char>>) -> Seq<char> {
    match move_to {
        Some(m) => "\n*** Move to: "@ + m,
        None => Seq::empty(),
    }
}

pub open spec fn update_patch(path: Seq<char>, diff: Seq<char>, move_to: Option<Seq<char>>) -> Seq<
    char,
> {
    "*** Begin Patch\n*** Update File: "@ + path + move_line(move_to) + on_new_line(
        normalized_diff(diff),
    ) + "\n*** End Patch"@
}

pub open spec fn delete_patch(path: Seq<char>) -> Seq<char> {
    "*** Begin Patch\n*** Delete File: "@ + path + "\n*** End Patch"@
}

fn push_on_new_line(out: &mut String, s: &String)
    ensures
        final(out)@ == old(out)@ + on_new_line(s@),
{
    if s.as_str().is_empty() {
        assert(on_new_line(s@) == Seq::<char>::empty());
        assert(out@ + Seq::<char>::empty() == out@);
    } else {
        out.append("\n");
        out.append(s.as_str());
        assert(old(out)@ + "\n"@ + s@ == old(out)@ + ("\n"@ + s@));
    }
}

pub fn prefix_added_lines(content: &str) -> (res: String)
    ensures
        res@ == added_lines(content@),
{
    let v = chars_of(content);
    let len = v.len();
    let end = if len > 0 && v[len - 1] == '\n' {
        len - 1
    } else {
        len
    };
    let ghost stripped = without_final_newline(content@);
    assert(stripped == v@.take(end as int));
    if end == 0 {
        return String::new();
    }
    let mut out = String::new();
    out.push('+');
    let mut i: usize = 0;
    assert(v@.take(0) == Seq::<char>::empty());
    while i < end
        invariant
            end <= v@.len(),
            i <= end,
            out@ == seq!['+'] + plus_after_newlines(v@.take(i as int)),
        decreases end - i,
    {
        let c = v[i];
        if c == '\n' {
            out.push('\n');
            out.push('+');
        } else {
            out.push(c);
        }
        assert(v@.take(i + 1).drop_last() == v@.take(i as int));
        i += 1;
    }
    out
}

pub fn create_file_patch(path: &str, content: &str) -> (res: String)
    ensures
        res@ == create_patch(path@, content@),
{
    let mut patch = "*** Begin Patch\n*** Add File: ".to_owned();
    patch.append(path);
    let added = prefix_added_lines(content);
    push_on_new_line(&mut patch, &added);
    patch.append("\n*** End Patch");
    patch
}

pub fn normalize_update_diff(diff: &str) -> (res: String)
    ensures
        res@ == normalized_diff(diff@),
{
    let trimmed = trim_newlines_string(diff);
    if trimmed.as_str().is_empty() {
        return String::new();
    }
    if starts_with_str(trimmed.as_str(), "@@") || contains_str(trimmed.as_str(), "*** ") {
        return trimmed;
    }
    let mut out = "@@\n".to_owned();
    out.append(trimmed.as_str());
    out
}

pub fn update_file_patch(path: &str, diff: &str, move_to: Option<&str>) -> (res: String)
    ensures
        res@ == update_patch(
            path@,
            diff@,
            match move_to {
                Some(m) => Some(m@),
                None => None,
            },
        ),
{
    let mut patch = "*** Begin Patch\n*** Update File: ".to_owned();
    patch.append(path);
    if let Some(m) = move_to {
        patch.append("\n*** Move to: ");
        patch.append(m);
    }
    let hunks = normalize_update_diff(diff);
    push_on_new_line(&mut patch, &hunks);
    patch.append("\n*** End Patch");
    patch
}

pub fn delete_file_patch(path: &str) -> (res: String)
    ensures
        res@ == delete_patch(path@),
{
    let mut patch = "*** Begin Patch\n*** Delete File: ".to_owned();
    patch.append(path);
    patch.append("\n*** End Patch");
    patch
}

// ---------------------------------------------------------------------------
// Errors and path checks.

/// The message of a structured `apply_patch` error: the reason and an example.
pub open spec fn error_text(reason: Seq<char>) -> Seq<char> {
    reason + "\n\nExample:\n"@ + STRUCTURED_EXAMPLE@
}

pub fn structured_apply_patch_error(reason: &str) -> (res: FunctionCallError)
    ensures
        responds_with(res, error_text(reason@)),
{
    let mut msg = reason.to_owned();
    msg.append("\n\nExample:\n");
    msg.append(STRUCTURED_EXAMPLE);
    FunctionCallError::RespondToModel(msg)
}

/// A `..` component starts at `i`: a path segment between `/` separators (or
/// the ends) that is exactly `..`, which `Path::components` reports as
/// `Component::ParentDir` (with `/` as the separator, as on Unix).
pub open spec fn parent_dir_at(s: Seq<char>, i: int) -> bool {
    &&& 0 <= i
    &&& i + 2 <= s.len()
    &&& s[i] == '.'
    &&& s[i + 1] == '.'
    &&& (i == 0 || s[i - 1] == '/')
    &&& (i + 2 == s.len() || s[i + 2] == '/')
}

pub open spec fn has_parent_dir(s: Seq<char>) -> bool {
    exists|i: int| #[trigger] parent_dir_at(s, i)
}

pub open spec fn has_control(s: Seq<char>) -> bool {
    exists|i: int| 0 <= i < s.len() && #[trigger] is_control(s[i])
}

/// Why a path is refused, if it is: empty after trimming, holding a control
/// character, or holding a `..` component.
pub open spec fn path_problem(path: Seq<char>) -> Option<Seq<char>> {
    let t = trim(path);
    if t.len() == 0 {
        Some("apply_patch `path` must be a non-empty file path"@)
    } else if has_control(t) {
        Some("apply_patch `path` cannot contain control characters"@)
    } else if has_parent_dir(t) {
        Some("apply_patch `path` cannot contain `..` components"@)
    } else {
        None
    }
}

fn any_control(v: &Vec<char>) -> (res: bool)
    ensures
        res == has_control(v@),
{
    let mut i: usize = 0;
    while i < v.len()
        invariant
            i <= v@.len(),
            forall|j: int| 0 <= j < i ==> !is_control(v@[j]),
        decreases v@.len() - i,
    {
        if char_is_control(v[i]) {
            return true;
        }
        i += 1;
    }
    false
}

fn any_parent_dir(v: &Vec<char>) -> (res: bool)
    ensures
        res == has_parent_dir(v@),
{
    let len = v.len();
    let mut i: usize = 0;
    while i < len
        invariant
            len == v@.len(),
            i <= len,
            forall|j: int| 0 <= j < i ==> !parent_dir_at(v@, j),
        decreases len - i,
    {
        if i + 1 < len && v[i] == '.' && v[i + 1] == '.' && (i == 0 || v[i - 1] == '/') && (i + 2
            == len || v[i + 2] == '/') {
            assert(parent_dir_at(v@, i as int));
            return true;
        }
        i += 1;
    }
    assert forall|j: int| !parent_dir_at(v@, j) by {}
    false
}

/// Refuses a path that is blank, holds a control character, or has a `..`
/// component; components are read as `Path::components` reads them on Unix,
/// split at `/`.
pub fn validate_apply_patch_path(path: &str) -> (res: Result<(), FunctionCallError>)
    ensures
        same_unit_outcome(
            res,
            match path_problem(path@) {
                Some(r) => Some(error_text(r)),
                None => None,
            },
        ),
{
    let trimmed = trim_string(path);
    let v = chars_of(trimmed.as_str());
    if v.len() == 0 {
        return Err(structured_apply_patch_error("apply_patch `path` must be a non-empty file path"));
    }
    if any_control(&v) {
        return Err(
            structured_apply_patch_error("apply_patch `path` cannot contain control characters"),
        );
    }
    if any_parent_dir(&v) {
        return Err(structured_apply_patch_error("apply_patch `path` cannot contain `..` components"));
    }
    Ok(())
}

// ---------------------------------------------------------------------------
// Structured arguments.

/// `required_string`: the trimmed string member, or the error that it is missing.
pub open spec fn required_field(v: JsonView, key: Seq<char>) -> Result<Seq<char>, Seq<char>> {
    match str_field(v, key) {
        Some(t) => Ok(trim(t)),
        None => Err(error_text("apply_patch `"@ + key + "` must be a string"@)),
    }
}

/// A string member taken as it is (the hunks of `diff`), or the error that it
/// is missing.
pub open spec fn raw_required_field(v: JsonView, key: Seq<char>) -> Result<Seq<char>, Seq<char>> {
    match str_field(v, key) {
        Some(t) => Ok(t),
        None => Err(error_text("apply_patch `"@ + key + "` must be a string"@)),
    }
}

/// The full file contents of a created file: the `content` member as it is,
/// or nothing where it is absent.
pub open spec fn file_content(v: JsonView) -> Seq<char> {
    match str_field(v, "content"@) {
        Some(c) => c,
        None => Seq::empty(),
    }
}

/// `optional_string`: the trimmed string member where it is not empty.
pub open spec fn optional_field(v: JsonView, key: Seq<char>) -> Option<Seq<char>> {
    match str_field(v, key) {
        Some(t) => if trim(t).len() > 0 {
            Some(trim(t))
        } else {
            None
        },
        None => None,
    }
}

/// The update patch, unless `move_to` names a refused path.
pub open spec fn checked_update_patch(
    path: Seq<char>,
    diff: Seq<char>,
    move_to: Option<Seq<char>>,
) -> Result<Seq<char>, Seq<char>> {
    match move_to {
        Some(m) => match path_problem(m) {
            Some(r) => Err(error_text(r)),
            None => Ok(update_patch(path, diff, move_to)),
        },
        None => Ok(update_patch(path, diff, None)),
    }
}

/// The canonical patch for a structured operation, or the model-facing error.
pub open spec fn canonical_patch(v: JsonView) -> Result<Seq<char>, Seq<char>> {
    match required_field(v, "operation"@) {
        Err(m) => Err(m),
        Ok(op) => match required_field(v, "path"@) {
            Err(m) => Err(m),
            Ok(path) => match path_problem(path) {
                Some(r) => Err(error_text(r)),
                None => if op == CREATE_FILE@ {
                    Ok(create_patch(path, file_content(v)))
                } else if op == UPDATE_FILE@ {
                    match raw_required_field(v, "diff"@) {
                        Err(m) => Err(m),
                        Ok(d) => checked_update_patch(path, d, optional_field(v, "move_to"@)),
                    }
                } else if op == DELETE_FILE@ {
                    Ok(delete_patch(path))
                } else {
                    Err(
                        error_text(
                            "unsupported apply_patch operation `"@ + op
                                + "`; use `create_file`, `update_file`, or `delete_file`"@,
                        ),
                    )
                },
            },
        },
    }
}

/// The first of the members `input`, `patch`, `command` that is present.
pub open spec fn first_patch_member(v: JsonView) -> Option<JsonView> {
    match field(v, "input"@) {
        Some(x) => Some(x),
        None => match field(v, "patch"@) {
            Some(x) => Some(x),
            None => field(v, "command"@),
        },
    }
}

/// What the arguments of an `apply_patch` function call ask for: a structured
/// operation where `operation` is present, else the string in the first of
/// `input`, `patch`, `command` that is present, else the document itself where
/// it is a string.
pub open spec fn custom_input(v: JsonView) -> Result<Option<Seq<char>>, Seq<char>> {
    if field(v, "operation"@) is Some {
        match canonical_patch(v) {
            Ok(p) => Ok(Some(p)),
            Err(m) => Err(m),
        }
    } else {
        match str_of(first_patch_member(v)) {
            Some(s) => Ok(Some(s)),
            None => Ok(str_of(Some(v))),
        }
    }
}

/// As [`custom_input`], for the text of the arguments as `serde_json` parses it.
pub open spec fn custom_input_from_text(text: Seq<char>) -> Result<Option<Seq<char>>, Seq<char>> {
    match serde_json_from_str(text) {
        Ok(v) => custom_input(v),
        Err(e) => Err(error_text("failed to parse apply_patch arguments: "@ + e)),
    }
}

pub fn required_string(value: &JsonValue, field_name: &str) -> (res: Result<String, FunctionCallError>)
    ensures
        same_outcome(res, required_field(value@, field_name@)),
{
    match get_str(value, field_name) {
        Some(text) => Ok(trim_string(text.as_str())),
        None => {
            let mut reason = "apply_patch `".to_owned();
            reason.append(field_name);
            reason.append("` must be a string");
            Err(structured_apply_patch_error(reason.as_str()))
        },
    }
}

/// A string member as it is, or the model-facing error that it is missing.
pub fn required_raw_string(value: &JsonValue, field_name: &str) -> (res: Result<
    String,
    FunctionCallError,
>)
    ensures
        same_outcome(res, raw_required_field(value@, field_name@)),
{
    match get_str(value, field_name) {
        Some(text) => Ok(text.clone()),
        None => {
            let mut reason = "apply_patch `".to_owned();
            reason.append(field_name);
            reason.append("` must be a string");
            Err(structured_apply_patch_error(reason.as_str()))
        },
    }
}

pub fn optional_string(value: &JsonValue, field_name: &str) -> (res: Option<String>)
    ensures
        match res {
            Some(s) => optional_field(value@, field_name@) == Some(s@),
            None => optional_field(value@, field_name@) is None,
        },
{
    match get_str(value, field_name) {
        Some(text) => {
            let t = trim_string(text.as_str());
            if t.as_str().is_empty() {
                None
            } else {
                Some(t)
            }
        },
        None => None,
    }
}

pub fn canonical_patch_from_structured(value: &JsonValue) -> (res: Result<String, FunctionCallError>)
    ensures
        same_outcome(res, canonical_patch(value@)),
{
    let operation = required_string(value, "operation")?;
    let path = required_string(value, "path")?;
    validate_apply_patch_path(path.as_str())?;
    if str_eq(operation.as_str(), CREATE_FILE) {
        let content = match get_str(value, "content") {
            Some(c) => c.clone(),
            None => String::new(),
        };
        Ok(create_file_patch(path.as_str(), content.as_str()))
    } else if str_eq(operation.as_str(), UPDATE_FILE) {
        let diff = required_raw_string(value, "diff")?;
        let move_to = optional_string(value, "move_to");
        match &move_to {
            Some(m) => {
                validate_apply_patch_path(m.as_str())?;
                Ok(update_file_patch(path.as_str(), diff.as_str(), Some(m.as_str())))
            },
            None => Ok(update_file_patch(path.as_str(), diff.as_str(), None)),
        }
    } else if str_eq(operation.as_str(), DELETE_FILE) {
        Ok(delete_file_patch(path.as_str()))
    } else {
        let mut reason = "unsupported apply_patch operation `".to_owned();
        reason.append(operation.as_str());
        reason.append("`; use `create_file`, `update_file`, or `delete_file`");
        Err(structured_apply_patch_error(reason.as_str()))
    }
}

/// The patch text that a parsed `apply_patch` function call asks for.
pub fn custom_input_from_value(value: &JsonValue) -> (res: Result<Option<String>, FunctionCallError>)
    ensures
        same_optional_outcome(res, custom_input(value@)),
{
    if get(value, "operation").is_some() {
        let patch = canonical_patch_from_structured(value)?;
        return Ok(Some(patch));
    }
    let first = match get(value, "input") {
        Some(x) => Some(x),
        None => match get(value, "patch") {
            Some(x) => Some(x),
            None => get(value, "command"),
        },
    };
    if let Some(x) = first {
        if let Some(s) = as_str(x) {
            return Ok(Some(s.clone()));
        }
    }
    match as_str(value) {
        Some(s) => Ok(Some(s.clone())),
        None => Ok(None),
    }
}

/// Turns the JSON arguments of an `apply_patch` function call into the
/// canonical patch text.
pub fn custom_input_from_function_arguments(arguments: &str) -> (res: Result<
    Option<String>,
    FunctionCallError,
>)
    ensures
        same_optional_outcome(res, custom_input_from_text(arguments@)),
{
    match parse_json(arguments) {
        Ok(value) => custom_input_from_value(&value),
        Err(err) => {
            let mut reason = "failed to parse apply_patch arguments: ".to_owned();
            reason.append(err.as_str());
            Err(structured_apply_patch_error(reason.as_str()))
        },
    }
}

// ---------------------------------------------------------------------------
// The function tool's description and parameters.

pub const DEFAULT_DESCRIPTION: &'static str = "Apply a file patch.";

pub const DESCRIPTION_SUFFIX: &'static str = " Prefer structured fields: `operation` (`create_file`, `update_file`, or `delete_file`), `path`, `content` (create_file), `diff` (update_file), and optional `move_to`. You may instead pass a canonical apply_patch document in `input`.";

/// The description of the `apply_patch` function: the given description
/// (trimmed, where not blank) or a default, then how to call it.
pub open spec fn function_description(original: Option<Seq<char>>) -> Seq<char> {
    let base = match original {
        Some(o) => if trim(o).len() > 0 {
            trim(o)
        } else {
            DEFAULT_DESCRIPTION@
        },
        None => DEFAULT_DESCRIPTION@,
    };
    base + DESCRIPTION_SUFFIX@
}

pub fn apply_patch_function_description(original: Option<&str>) -> (res: String)
    ensures
        res@ == function_description(
            match original {
                Some(o) => Some(o@),
                None => None,
            },
        ),
{
    let mut base = match original {
        Some(o) => {
            let t = trim_string(o);
            if t.as_str().is_empty() {
                DEFAULT_DESCRIPTION.to_owned()
            } else {
                t
            }
        },
        None => DEFAULT_DESCRIPTION.to_owned(),
    };
    base.append(DESCRIPTION_SUFFIX);
    base
}

/// `{"type": "string", "description": d}`.
pub open spec fn string_property(d: Seq<char>) -> JsonView {
    JsonView::Object(seq![("type"@, JsonView::Str("string"@)), ("description"@, JsonView::Str(d))])
}

/// The JSON schema of the `apply_patch` function's parameters.
pub open spec fn function_parameters() -> JsonView {
    JsonView::Object(
        seq![
            ("type"@, JsonView::Str("object"@)),
            ("properties"@, JsonView::Object(seq![
                ("operation"@, JsonView::Object(seq![
                    ("type"@, JsonView::Str("string"@)),
                    ("enum"@, JsonView::Array(seq![
                        JsonView::Str(CREATE_FILE@),
                        JsonView::Str(UPDATE_FILE@),
                        JsonView::Str(DELETE_FILE@),
                    ])),
                    ("description"@, JsonView::Str(OPERATION_DESCRIPTION@)),
                ])),
                ("path"@, string_property(PATH_DESCRIPTION@)),
                ("content"@, string_property(CONTENT_DESCRIPTION@)),
                ("diff"@, string_property(DIFF_DESCRIPTION@)),
                ("move_to"@, string_property(MOVE_TO_DESCRIPTION@)),
                ("input"@, string_property(INPUT_DESCRIPTION@)),
            ])),
            ("additionalProperties"@, JsonView::Bool(false)),
        ],
    )
}

pub const OPERATION_DESCRIPTION: &'static str =
    "Structured file operation. Omit when sending a canonical patch in `input`.";

pub const PATH_DESCRIPTION: &'static str = "Target file path for a structured operation.";

pub const CONTENT_DESCRIPTION: &'static str = "Full file contents for create_file.";

pub const DIFF_DESCRIPTION: &'static str = "Unified diff hunks for update_file. May start with @@.";

pub const MOVE_TO_DESCRIPTION: &'static str = "Optional new path when updating a file.";

pub const INPUT_DESCRIPTION: &'static str =
    "Canonical apply_patch document. Use this or the structured fields.";

fn json_string(s: &str) -> (res: JsonValue)
    ensures
        res@ == JsonView::Str(s@),
{
    JsonValue::String(s.to_owned())
}

fn json_object(entries: Vec<(String, JsonValue)>) -> (res: JsonValue)
    ensures
        res@ == JsonView::Object(entries_view(entries@)),
        entries_view(entries@).len() == entries@.len(),
        forall|i: int|
            0 <= i < entries@.len() ==> #[trigger] entries_view(entries@)[i] == (
                entries@[i].0@,
                entries@[i].1@,
            ),
{
    proof {
        lemma_entries_view(entries@);
    }
    JsonValue::Object(entries)
}

fn string_property_value(description: &str) -> (res: JsonValue)
    ensures
        res@ == string_property(description@),
{
    let entries = vec![
        ("type".to_owned(), json_string("string")),
        ("description".to_owned(), json_string(description)),
    ];
    let res = json_object(entries);
    assert(entries_view(entries@) =~= seq![
        ("type"@, JsonView::Str("string"@)),
        ("description"@, JsonView::Str(description@)),
    ]);
    res
}

pub fn apply_patch_function_parameters() -> (res: JsonValue)
    ensures
        res@ == function_parameters(),
{
    let kinds = vec![json_string(CREATE_FILE), json_string(UPDATE_FILE), json_string(DELETE_FILE)];
    proof {
        lemma_items_view(kinds@);
    }
    let ghost kinds_view = items_view(kinds@);
    assert(kinds_view =~= seq![
        JsonView::Str(CREATE_FILE@),
        JsonView::Str(UPDATE_FILE@),
        JsonView::Str(DELETE_FILE@),
    ]);
    let kinds = JsonValue::Array(kinds);
    let operation_entries = vec![
        ("type".to_owned(), json_string("string")),
        ("enum".to_owned(), kinds),
        ("description".to_owned(), json_string(OPERATION_DESCRIPTION)),
    ];
    let operation = json_object(operation_entries);
    let ghost operation_view = JsonView::Object(seq![
        ("type"@, JsonView::Str("string"@)),
        ("enum"@, JsonView::Array(seq![
            JsonView::Str(CREATE_FILE@),
            JsonView::Str(UPDATE_FILE@),
            JsonView::Str(DELETE_FILE@),
        ])),
        ("description"@, JsonView::Str(OPERATION_DESCRIPTION@)),
    ]);
    assert(entries_view(operation_entries@) =~= operation_view->Object_0);
    assert(operation@ == operation_view);
    let property_entries = vec![
        ("operation".to_owned(), operation),
        ("path".to_owned(), string_property_value(PATH_DESCRIPTION)),
        ("content".to_owned(), string_property_value(CONTENT_DESCRIPTION)),
        ("diff".to_owned(), string_property_value(DIFF_DESCRIPTION)),
        ("move_to".to_owned(), string_property_value(MOVE_TO_DESCRIPTION)),
        ("input".to_owned(), string_property_value(INPUT_DESCRIPTION)),
    ];
    let properties = json_object(property_entries);
    let ghost properties_view = function_parameters()->Object_0[1].1;
    assert(entries_view(property_entries@) =~= properties_view->Object_0);
    assert(properties@ == properties_view);
    let top_entries = vec![
        ("type".to_owned(), json_string("object")),
        ("properties".to_owned(), properties),
        ("additionalProperties".to_owned(), JsonValue::Bool(false)),
    ];
    let res = json_object(top_entries);
    assert(entries_view(top_entries@) =~= function_parameters()->Object_0);
    res
}

} // verus!
