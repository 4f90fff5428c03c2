use vstd::prelude::*;

use crate::error::{FunctionCallError, responds_with, same_outcome, same_unit_outcome};
use crate::text::{contains, contains_str, str_eq, trim, trim_string};

verus! {

pub const EXTERNAL_AGENTS_NAMESPACE: &'static str = "external_agents";

pub const PLAINTEXT_MESSAGE_MAX_BYTES: usize = 8 * 1024;

pub const OMITTED_ENCRYPTED_PAYLOAD_STUB: &'static str = "[encrypted inter-agent payload omitted; use the parent conversation and any plaintext headers above as the task]";

pub const COLLABORATION_MUSE_ERROR: &'static str = "Muse Spark workers cannot use encrypted collaboration. Call external_agents.spawn_agent, external_agents.send_message, or external_agents.followup_task with a plaintext `message` that contains the full task.";

pub const ENCRYPTED_ARGS_ERROR: &'static str =
    "external_agents only accepts plaintext messages; do not encrypt the payload";

pub const EMPTY_MESSAGE_ERROR: &'static str = "Empty message can't be sent to an agent";

pub const STUB_MESSAGE_ERROR: &'static str = "external_agents message must be the full plaintext task; do not send the omitted encrypted-payload stub";

pub const OVERSIZED_MESSAGE_ERROR: &'static str =
    "external_agents message exceeds the 8192 byte limit";

/// The name of a tool, with the namespace it is advertised under, if any.
#[derive(Debug)]
pub struct ToolName {
    pub name: String,
    pub namespace: Option<String>,
}

pub open spec fn opt_view(o: Option<String>) -> Option<Seq<char>> {
    match o {
        Some(s) => Some(s@),
        None => None,
    }
}

impl ToolName {
    pub fn plain(name: &str) -> (res: ToolName)
        ensures
            res.name@ == name@,
            res.namespace is None,
    {
        ToolName { name: name.to_owned(), namespace: None }
    }

    pub fn namespaced(namespace: &str, name: &str) -> (res: ToolName)
        ensures
            res.name@ == name@,
            opt_view(res.namespace) == Some(namespace@),
    {
        ToolName { name: name.to_owned(), namespace: Some(namespace.to_owned()) }
    }
}

/// Which multi-agent transport a v2 handler is advertising.
#[derive(Clone, Copy, Debug, PartialEq, Eq, Structural)]
pub enum AgentTransport {
    Collaboration,
    ExternalAgents,
}

impl Default for AgentTransport {
    fn default() -> (res: Self)
        ensures
            res == AgentTransport::Collaboration,
    {
        AgentTransport::Collaboration
    }
}

pub open spec fn in_external_namespace(tool_name: ToolName) -> bool {
    opt_view(tool_name.namespace) == Some(EXTERNAL_AGENTS_NAMESPACE@)
}

pub fn is_external_agents_namespace(tool_name: &ToolName) -> (res: bool)
    ensures
        res == in_external_namespace(*tool_name),
{
    match &tool_name.namespace {
        Some(ns) => str_eq(ns.as_str(), EXTERNAL_AGENTS_NAMESPACE),
        None => false,
    }
}

/// The tools of the namespace that spawn workers or send them messages.
pub open spec fn is_mutating_name(name: Seq<char>) -> bool {
    name == "spawn_agent"@ || name == "send_message"@ || name == "followup_task"@
}

pub fn is_external_agents_mutating_tool(tool_name: &ToolName) -> (res: bool)
    ensures
        res == (in_external_namespace(*tool_name) && is_mutating_name(tool_name.name@)),
{
    is_external_agents_namespace(tool_name) && (str_eq(tool_name.name.as_str(), "spawn_agent")
        || str_eq(tool_name.name.as_str(), "send_message") || str_eq(
        tool_name.name.as_str(),
        "followup_task",
    ))
}

pub fn collaboration_muse_error() -> (res: FunctionCallError)
    ensures
        responds_with(res, COLLABORATION_MUSE_ERROR@),
{
    FunctionCallError::RespondToModel(COLLABORATION_MUSE_ERROR.to_owned())
}

/// Refuses encrypted arguments: a call that carries any encrypted field fails.
pub fn reject_encrypted_external_agents_args(encrypted_function_args: &Option<Vec<String>>) -> (res:
    Result<(), FunctionCallError>)
    ensures
        same_unit_outcome(
            res,
            match encrypted_function_args {
                Some(fields) => if fields@.len() > 0 {
                    Some(ENCRYPTED_ARGS_ERROR@)
                } else {
                    None
                },
                None => None,
            },
        ),
{
    match encrypted_function_args {
        Some(fields) => {
            if fields.len() > 0 {
                return Err(FunctionCallError::RespondToModel(ENCRYPTED_ARGS_ERROR.to_owned()));
            }
            Ok(())
        },
        None => Ok(()),
    }
}

/// The number of bytes of the UTF-8 encoding of a text.
pub open spec fn utf8_len(s: Seq<char>) -> nat {
    vstd::utf8::encode_utf8(s).len()
}

/// What a plaintext message for a worker is refused for, if anything: being
/// blank, carrying the omitted-payload stub, or passing the byte limit.
pub open spec fn message_problem(message: Seq<char>) -> Option<Seq<char>> {
    if trim(message).len() == 0 {
        Some(EMPTY_MESSAGE_ERROR@)
    } else if contains(message, OMITTED_ENCRYPTED_PAYLOAD_STUB@) {
        Some(STUB_MESSAGE_ERROR@)
    } else if utf8_len(message) > PLAINTEXT_MESSAGE_MAX_BYTES {
        Some(OVERSIZED_MESSAGE_ERROR@)
    } else {
        None
    }
}

/// The message content of a message tool call: refused where it is blank.
pub(crate) fn message_content(message: String) -> (res: Result<String, FunctionCallError>)
    ensures
        same_outcome(
            res,
            if trim(message@).len() == 0 {
                Err(EMPTY_MESSAGE_ERROR@)
            } else {
                Ok(message@)
            },
        ),
{
    let trimmed = trim_string(message.as_str());
    if trimmed.as_str().is_empty() {
        return Err(FunctionCallError::RespondToModel(EMPTY_MESSAGE_ERROR.to_owned()));
    }
    Ok(message)
}

pub fn validate_plaintext_agent_message(message: String) -> (res: Result<String, FunctionCallError>)
    ensures
        same_outcome(
            res,
            match message_problem(message@) {
                Some(m) => Err(m),
                None => Ok(message@),
            },
        ),
{
    let message = message_content(message)?;
    if contains_str(message.as_str(), OMITTED_ENCRYPTED_PAYLOAD_STUB) {
        return Err(FunctionCallError::RespondToModel(STUB_MESSAGE_ERROR.to_owned()));
    }
    if message.as_str().as_bytes().len() > PLAINTEXT_MESSAGE_MAX_BYTES {
        return Err(FunctionCallError::RespondToModel(OVERSIZED_MESSAGE_ERROR.to_owned()));
    }
    Ok(message)
}

/// A span of a user text, in bytes, with the placeholder it stands for.
#[derive(Debug)]
pub struct TextElement {
    pub start: usize,
    pub end: usize,
    pub placeholder: Option<String>,
}

/// Input that a user (or a parent agent) sends to an agent.
#[derive(Debug)]
pub enum UserInput {
    Text { text: String, text_elements: Vec<TextElement> },
    Image { image_url: String },
}

/// A plaintext message as the single text input of a worker.
pub fn plaintext_user_input(message: String) -> (res: Vec<UserInput>)
    ensures
        res@.len() == 1,
        res@[0] matches UserInput::Text { text, text_elements } && text@ == message@
            && text_elements@.len() == 0,
{
    let mut res: Vec<UserInput> = Vec::new();
    res.push(UserInput::Text { text: message, text_elements: Vec::new() });
    res
}

/// A configured model provider: its id and whether it needs OpenAI auth.
#[derive(Debug)]
pub struct ModelProviderInfo {
    pub id: String,
    pub requires_openai_auth: bool,
}

/// The first provider with the id `id`, if any (ids are keys of the
/// configuration's provider map, so at most one).
pub open spec fn provider_with_id(providers: Seq<ModelProviderInfo>, id: Seq<char>) -> Option<
    ModelProviderInfo,
>
    decreases providers.len(),
{
    if providers.len() == 0 {
        None
    } else if providers[0].id@ == id {
        Some(providers[0])
    } else {
        provider_with_id(providers.drop_first(), id)
    }
}

/// ASCII lower case of a character.
pub open spec fn ascii_lower(c: char) -> char {
    if 'A' <= c && c <= 'Z' {
        ((c as u8) + 32) as char
    } else {
        c
    }
}

/// `str::eq_ignore_ascii_case`.
pub open spec fn eq_ignore_ascii_case(a: Seq<char>, b: Seq<char>) -> bool {
    a.len() == b.len() && forall|i: int| 0 <= i < a.len() ==> ascii_lower(#[trigger] a[i])
        == ascii_lower(b[i])
}

/// A role's provider makes it a non-OpenAI worker: it is named, is not
/// `openai` in any ASCII case, and is a configured provider without OpenAI
/// auth.
pub open spec fn selects_non_openai(provider_id: Option<Seq<char>>, providers: Seq<ModelProviderInfo>) -> bool {
    match provider_id {
        None => false,
        Some(id) => !eq_ignore_ascii_case(id, "openai"@) && match provider_with_id(providers, id) {
            Some(p) => !p.requires_openai_auth,
            None => false,
        },
    }
}

fn char_ascii_lower(c: char) -> (res: char)
    ensures
        res == ascii_lower(c),
{
    if 'A' <= c && c <= 'Z' {
        ((c as u8) + 32) as char
    } else {
        c
    }
}

fn str_eq_ignore_ascii_case(a: &str, b: &str) -> (res: bool)
    ensures
        res == eq_ignore_ascii_case(a@, b@),
{
    let va = crate::text::chars_of(a);
    let vb = crate::text::chars_of(b);
    if va.len() != vb.len() {
        return false;
    }
    let mut i: usize = 0;
    while i < va.len()
        invariant
            va@ == a@,
            vb@ == b@,
            va@.len() == vb@.len(),
            i <= va@.len(),
            forall|j: int| 0 <= j < i ==> ascii_lower(#[trigger] va@[j]) == ascii_lower(vb@[j]),
        decreases va@.len() - i,
    {
        if char_ascii_lower(va[i]) != char_ascii_lower(vb[i]) {
            return false;
        }
        i += 1;
    }
    true
}

fn find_provider<'a>(providers: &'a [ModelProviderInfo], id: &str) -> (res: Option<
    &'a ModelProviderInfo,
>)
    ensures
        match res {
            Some(p) => provider_with_id(providers@, id@) == Some(*p),
            None => provider_with_id(providers@, id@) is None,
        },
{
    let ghost all = providers@;
    assert(all.subrange(0, all.len() as int) == all);
    let mut i: usize = 0;
    while i < providers.len()
        invariant
            all == providers@,
            i <= all.len(),
            provider_with_id(all, id@) == provider_with_id(
                all.subrange(i as int, all.len() as int),
                id@,
            ),
        decreases all.len() - i,
    {
        let ghost rest = all.subrange(i as int, all.len() as int);
        assert(rest[0] == all[i as int]);
        if str_eq(providers[i].id.as_str(), id) {
            return Some(&providers[i]);
        }
        assert(rest.drop_first() == all.subrange(i + 1, all.len() as int));
        i += 1;
    }
    None
}

pub fn role_selects_non_openai_provider(
    provider_id: Option<&str>,
    providers: &[ModelProviderInfo],
) -> (res: bool)
    ensures
        res == selects_non_openai(
            match provider_id {
                Some(p) => Some(p@),
                None => None,
            },
            providers@,
        ),
{
    let provider_id = match provider_id {
        Some(p) => p,
        None => return false,
    };
    if str_eq_ignore_ascii_case(provider_id, "openai") {
        return false;
    }
    match find_provider(providers, provider_id) {
        Some(p) => !p.requires_openai_auth,
        None => false,
    }
}

/// The role an `agent_type` names: trimmed, where that is not empty.
pub open spec fn role_name(agent_type: Option<Seq<char>>) -> Option<Seq<char>> {
    match agent_type {
        Some(t) => if trim(t).len() > 0 {
            Some(trim(t))
        } else {
            None
        },
        None => None,
    }
}

/// The role whose configuration decides whether a spawn is allowlisted when
/// it does not select Muse Spark.
pub fn external_role_name(agent_type: Option<&str>) -> (res: Option<String>)
    ensures
        opt_view(res) == role_name(
            match agent_type {
                Some(t) => Some(t@),
                None => None,
            },
        ),
{
    match agent_type {
        Some(t) => {
            let role = trim_string(t);
            if role.as_str().is_empty() {
                None
            } else {
                Some(role)
            }
        },
        None => None,
    }
}

/// Whether a spawn may use the plaintext external transport: it selects the
/// Muse Spark role, or names a role whose configured provider is a non-OpenAI
/// one. `role_provider_id` is the `model_provider` of the role that
/// [`external_role_name`] gives, as its configuration file states it.
pub fn is_allowlisted_external_role(
    selects_muse_spark: bool,
    agent_type: Option<&str>,
    role_provider_id: Option<&str>,
    providers: &[ModelProviderInfo],
) -> (res: bool)
    ensures
        res == (selects_muse_spark || (role_name(
            match agent_type {
                Some(t) => Some(t@),
                None => None,
            },
        ) is Some && selects_non_openai(
            match role_provider_id {
                Some(p) => Some(p@),
                None => None,
            },
            providers@,
        ))),
{
    if selects_muse_spark {
        return true;
    }
    if external_role_name(agent_type).is_none() {
        return false;
    }
    role_selects_non_openai_provider(role_provider_id, providers)
}

/// What `contents.parse::<toml::Table>()` gives for a TOML document, read as
/// the members of its top-level table: each key with its value where that is a
/// string; `None` where the text is not a TOML document.
pub uninterp spec fn toml_table_strings(contents: Seq<char>) -> Option<
    Seq<(Seq<char>, Option<Seq<char>>)>,
>;

pub open spec fn table_strings_view(t: Option<Vec<(String, Option<String>)>>) -> Option<
    Seq<(Seq<char>, Option<Seq<char>>)>,
> {
    match t {
        Some(v) => Some(v@.map_values(|e: (String, Option<String>)| (e.0@, opt_view(e.1)))),
        None => None,
    }
}

/// Calls `str::parse::<toml::Table>` (a TOML document): the contract claims
/// only that the members it returns are the named function of the text.
#[verifier::external_body]
fn parse_toml_table_strings(contents: &str) -> (res: Option<Vec<(String, Option<String>)>>)
    ensures
        table_strings_view(res) == toml_table_strings(contents@),
{
    match contents.parse::<toml::Table>() {
        Ok(table) => Some(
            table.into_iter().map(|(k, v)| (k, v.as_str().map(str::to_owned))).collect(),
        ),
        Err(_) => None,
    }
}

/// The value of the first member named `key`, if any.
pub open spec fn table_lookup(entries: Seq<(Seq<char>, Option<Seq<char>>)>, key: Seq<char>) -> Option<
    Option<Seq<char>>,
>
    decreases entries.len(),
{
    if entries.len() == 0 {
        None
    } else if entries[0].0 == key {
        Some(entries[0].1)
    } else {
        table_lookup(entries.drop_first(), key)
    }
}

/// The `model_provider` that a role's configuration text names: the string
/// value of that member of the parsed table.
pub open spec fn role_model_provider(contents: Seq<char>) -> Option<Seq<char>> {
    match toml_table_strings(contents) {
        Some(entries) => provider_member(entries),
        None => None,
    }
}

/// The string value of the first `model_provider` member of a table's
/// members, if it is a string.
pub open spec fn provider_member(entries: Seq<(Seq<char>, Option<Seq<char>>)>) -> Option<Seq<char>> {
    match table_lookup(entries, "model_provider"@) {
        Some(Some(p)) => Some(p),
        _ => None,
    }
}

/// The `model_provider` that the members of a role's configuration table name.
pub fn model_provider_from_table(entries: &Vec<(String, Option<String>)>) -> (res: Option<String>)
    ensures
        opt_view(res) == provider_member(
            entries@.map_values(|e: (String, Option<String>)| (e.0@, opt_view(e.1))),
        ),
{
    let ghost ev = entries@.map_values(|e: (String, Option<String>)| (e.0@, opt_view(e.1)));
    assert(ev.subrange(0, ev.len() as int) == ev);
    let mut i: usize = 0;
    while i < entries.len()
        invariant
            i <= entries@.len() == ev.len(),
            ev == entries@.map_values(|e: (String, Option<String>)| (e.0@, opt_view(e.1))),
            table_lookup(ev, "model_provider"@) == table_lookup(
                ev.subrange(i as int, ev.len() as int),
                "model_provider"@,
            ),
        decreases entries@.len() - i,
    {
        let ghost rest = ev.subrange(i as int, ev.len() as int);
        assert(rest[0] == ev[i as int]);
        if str_eq(entries[i].0.as_str(), "model_provider") {
            assert(ev[i as int].1 == opt_view(entries@[i as int].1));
            return match &entries[i].1 {
                Some(p) => Some(p.clone()),
                None => None,
            };
        }
        assert(rest.drop_first() == ev.subrange(i + 1, ev.len() as int));
        i += 1;
    }
    None
}

/// The `model_provider` of a role, read from the text of its configuration
/// file.
pub fn model_provider_from_role_config(contents: &str) -> (res: Option<String>)
    ensures
        opt_view(res) == role_model_provider(contents@),
{
    match parse_toml_table_strings(contents) {
        Some(entries) => model_provider_from_table(&entries),
        None => None,
    }
}

} // verus!
