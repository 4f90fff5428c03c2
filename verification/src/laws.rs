use vstd::prelude::*;

use crate::apply_patch::{
    STRUCTURED_EXAMPLE,
    added_lines,
    canonical_patch,
    create_patch,
    custom_input,
    custom_input_from_text,
    delete_patch,
    error_text,
    plus_after_newlines,
    required_field,
    update_patch,
    without_final_newline,
};
use crate::external_agents::{ModelProviderInfo, eq_ignore_ascii_case, provider_with_id, selects_non_openai};
use crate::guidance::{
    GUIDANCE_OPEN_TAG,
    MAX_BODY_CHARS,
    guidance_message,
    guidance_text,
    input_text_holds_marker,
    is_guidance_item,
    upserted,
    wrapped_text,
};
use crate::json::serde_json_from_str;
use crate::protocol::ResponseItemView;
use crate::text::{
    contains,
    is_trimmed,
    occurs_at,
    starts_with,
    trim_end_by,
    trim_newlines,
    trim_start_by,
};
use crate::apply_patch::{
    CREATE_FILE,
    DELETE_FILE,
    UPDATE_FILE,
    function_parameters,
    has_parent_dir,
    normalized_diff,
    optional_field,
    path_problem,
};
use crate::external_agents_spec::spawn_properties;
use crate::json::{JsonView, field, str_field};
use crate::order::lex_lt;
use crate::text::trim;

verus! {

/// `s` ends with `suffix`.
pub open spec fn ends_with(s: Seq<char>, suffix: Seq<char>) -> bool {
    suffix.len() <= s.len() && s.subrange(s.len() - suffix.len(), s.len() as int) == suffix
}

/// The message that an upsert writes is one that the next upsert recognises
/// and replaces.
pub proof fn law_guidance_message_is_recognised(body: Seq<char>)
    ensures
        is_guidance_item(guidance_message(body)),
{
    let t = wrapped_text(body);
    assert(t.subrange(0, GUIDANCE_OPEN_TAG@.len() as int) =~= GUIDANCE_OPEN_TAG@);
    assert(occurs_at(t, GUIDANCE_OPEN_TAG@, 0));
    let m = guidance_message(body);
    assert(input_text_holds_marker(m->content[0]));
}

/// Upserting twice is upserting the second guidance once: it replaces the
/// first in place, and the conversation does not grow.
pub proof fn law_upsert_twice_keeps_last(
    before: Seq<ResponseItemView>,
    first: ResponseItemView,
    mid: Seq<ResponseItemView>,
    second: ResponseItemView,
    after: Seq<ResponseItemView>,
)
    requires
        is_guidance_item(first),
        upserted(before, first, mid),
        upserted(mid, second, after),
    ensures
        upserted(before, second, after),
        after.len() == mid.len(),
{
    // Where the first guidance of `before` is, and so where `first` went.
    let k: int = if exists|k: int|
        0 <= k < before.len() && is_guidance_item(#[trigger] before[k]) && (forall|j: int|
            0 <= j < k ==> !is_guidance_item(before[j])) && mid == before.update(k, first) {
        choose|k: int|
            0 <= k < before.len() && is_guidance_item(#[trigger] before[k]) && (forall|j: int|
                0 <= j < k ==> !is_guidance_item(before[j])) && mid == before.update(k, first)
    } else {
        before.len() as int
    };
    assert(0 <= k <= before.len());
    assert(forall|j: int| 0 <= j < k ==> !is_guidance_item(before[j]));
    assert(mid[k] == first);
    assert(forall|j: int| 0 <= j < k ==> mid[j] == before[j]);
    // In `mid`, the first guidance is at `k`, so the second upsert replaces it.
    if exists|k2: int|
        0 <= k2 < mid.len() && is_guidance_item(#[trigger] mid[k2]) && (forall|j: int|
            0 <= j < k2 ==> !is_guidance_item(mid[j])) && after == mid.update(k2, second) {
        let k2 = choose|k2: int|
            0 <= k2 < mid.len() && is_guidance_item(#[trigger] mid[k2]) && (forall|j: int|
                0 <= j < k2 ==> !is_guidance_item(mid[j])) && after == mid.update(k2, second);
        if k2 < k {
            assert(mid[k2] == before[k2]);
        } else if k2 > k {
            assert(!is_guidance_item(mid[k]));
        }
        assert(k2 == k);
        if k < before.len() {
            assert(after =~= before.update(k, second));
        } else {
            assert(after =~= before.push(second));
        }
    } else {
        assert(!is_guidance_item(mid[k]));
    }
}

/// The guidance text never passes the cap of 4000 characters.
pub proof fn law_guidance_text_is_capped(names: Seq<Seq<char>>)
    ensures
        guidance_text(names).len() <= MAX_BODY_CHARS,
{
}

proof fn lemma_framed(head: Seq<char>, middle: Seq<char>)
    requires
        starts_with(head, "*** Begin Patch\n"@),
    ensures
        starts_with(head + middle + "\n*** End Patch"@, "*** Begin Patch\n"@),
        ends_with(head + middle + "\n*** End Patch"@, "\n*** End Patch"@),
{
    let p = head + middle + "\n*** End Patch"@;
    assert(p.take("*** Begin Patch\n"@.len() as int) =~= head.take("*** Begin Patch\n"@.len() as int));
    assert(p.subrange(p.len() - "\n*** End Patch"@.len(), p.len() as int) =~= "\n*** End Patch"@);
}

/// Every canonical patch that a structured call produces is framed by the
/// patch markers.
pub proof fn law_canonical_patches_are_framed(v: crate::json::JsonView)
    ensures
        canonical_patch(v) matches Ok(p) ==> starts_with(p, "*** Begin Patch\n"@) && ends_with(
            p,
            "\n*** End Patch"@,
        ),
{
    reveal_strlit("*** Begin Patch\n");
    reveal_strlit("*** Begin Patch\n*** Add File: ");
    reveal_strlit("*** Begin Patch\n*** Update File: ");
    reveal_strlit("*** Begin Patch\n*** Delete File: ");
    let add = "*** Begin Patch\n*** Add File: "@;
    let upd = "*** Begin Patch\n*** Update File: "@;
    let del = "*** Begin Patch\n*** Delete File: "@;
    assert(add.take(16) =~= "*** Begin Patch\n"@);
    assert(upd.take(16) =~= "*** Begin Patch\n"@);
    assert(del.take(16) =~= "*** Begin Patch\n"@);
    if let Ok(p) = canonical_patch(v) {
        assert forall|path: Seq<char>, c: Seq<char>| #![auto]
            starts_with(create_patch(path, c), "*** Begin Patch\n"@) && ends_with(
                create_patch(path, c),
                "\n*** End Patch"@,
            ) by {
            assert(starts_with(add + path, "*** Begin Patch\n"@)) by {
                assert((add + path).take(16) =~= add.take(16));
            }
            lemma_framed(add + path, crate::apply_patch::on_new_line(added_lines(c)));
        }
        assert forall|path: Seq<char>, d: Seq<char>, m: Option<Seq<char>>| #![auto]
            starts_with(update_patch(path, d, m), "*** Begin Patch\n"@) && ends_with(
                update_patch(path, d, m),
                "\n*** End Patch"@,
            ) by {
            let head = upd + path + crate::apply_patch::move_line(m);
            assert(starts_with(head, "*** Begin Patch\n"@)) by {
                assert(head.take(16) =~= upd.take(16));
            }
            lemma_framed(head, crate::apply_patch::on_new_line(crate::apply_patch::normalized_diff(d)));
            assert(update_patch(path, d, m) == head + crate::apply_patch::on_new_line(
                crate::apply_patch::normalized_diff(d),
            ) + "\n*** End Patch"@);
        }
        assert forall|path: Seq<char>| #![auto]
            starts_with(delete_patch(path), "*** Begin Patch\n"@) && ends_with(
                delete_patch(path),
                "\n*** End Patch"@,
            ) by {
            assert(starts_with(del, "*** Begin Patch\n"@));
            lemma_framed(del, path);
        }
    }
}

proof fn lemma_error_text_shows_example(reason: Seq<char>)
    ensures
        contains(error_text(reason), STRUCTURED_EXAMPLE@),
{
    let m = error_text(reason);
    let i = m.len() - STRUCTURED_EXAMPLE@.len();
    assert(m.subrange(i, i + STRUCTURED_EXAMPLE@.len()) =~= STRUCTURED_EXAMPLE@);
    assert(occurs_at(m, STRUCTURED_EXAMPLE@, i));
}

/// Every error that an `apply_patch` call is answered with shows the model a
/// corrected example call.
pub proof fn law_errors_show_example(text: Seq<char>)
    ensures
        custom_input_from_text(text) matches Err(m) ==> contains(m, STRUCTURED_EXAMPLE@),
{
    if let Err(m) = custom_input_from_text(text) {
        let r: Seq<char> = choose|r: Seq<char>| m == error_text(r);
        assert(exists|r: Seq<char>| m == error_text(r)) by {
            match serde_json_from_str(text) {
                Ok(v) => {
                    lemma_canonical_errors(v);
                },
                Err(e) => {
                    assert(m == error_text("failed to parse apply_patch arguments: "@ + e));
                },
            }
        }
        lemma_error_text_shows_example(r);
    }
}

proof fn lemma_canonical_errors(v: crate::json::JsonView)
    ensures
        custom_input(v) matches Err(m) ==> exists|r: Seq<char>| m == error_text(r),
{
    if let Err(m) = custom_input(v) {
        assert(canonical_patch(v) == Err::<Seq<char>, Seq<char>>(m));
        match required_field(v, "operation"@) {
            Err(_) => {
                assert(m == error_text("apply_patch `"@ + "operation"@ + "` must be a string"@));
            },
            Ok(op) => match required_field(v, "path"@) {
                Err(_) => {
                    assert(m == error_text("apply_patch `"@ + "path"@ + "` must be a string"@));
                },
                Ok(path) => match crate::apply_patch::path_problem(path) {
                    Some(r) => {
                        assert(m == error_text(r));
                    },
                    None => {
                        if op == crate::apply_patch::UPDATE_FILE@ {
                            match crate::apply_patch::raw_required_field(v, "diff"@) {
                                Err(_) => {
                                    assert(m == error_text(
                                        "apply_patch `"@ + "diff"@ + "` must be a string"@,
                                    ));
                                },
                                Ok(d) => {
                                    let mt = crate::apply_patch::optional_field(v, "move_to"@);
                                    let r = crate::apply_patch::path_problem(mt->0);
                                    assert(m == error_text(r->0));
                                },
                            }
                        } else {
                            assert(m == error_text(
                                "unsupported apply_patch operation `"@ + op
                                    + "`; use `create_file`, `update_file`, or `delete_file`"@,
                            ));
                        }
                    },
                },
            },
        }
    }
}

pub open spec fn newlines_followed_by_plus(s: Seq<char>) -> bool {
    forall|i: int| 0 <= i < s.len() && #[trigger] s[i] == '\n' ==> i + 1 < s.len() && s[i + 1] == '+'
}

proof fn lemma_plus_after_newlines(s: Seq<char>)
    ensures
        newlines_followed_by_plus(plus_after_newlines(s)),
    decreases s.len(),
{
    if s.len() > 0 {
        lemma_plus_after_newlines(s.drop_last());
    }
}

/// Every line that a created file's patch adds is marked with `+`: the text
/// starts with `+` and every newline in it is followed by `+`.
pub proof fn law_added_lines_are_marked(content: Seq<char>)
    ensures
        added_lines(content).len() > 0 ==> added_lines(content)[0] == '+',
        newlines_followed_by_plus(added_lines(content)),
{
    let stripped = without_final_newline(content);
    lemma_plus_after_newlines(stripped);
    if stripped.len() > 0 {
        let r = plus_after_newlines(stripped);
        let a = seq!['+'] + r;
        assert forall|i: int| 0 <= i < a.len() && #[trigger] a[i] == '\n' implies i + 1 < a.len() && a[i
            + 1] == '+' by {
            assert(a[i] == r[i - 1]);
            assert(a[i + 1] == r[i]);
        }
    }
}

/// A role's provider never selects a non-OpenAI worker unless the parent
/// configures that provider without OpenAI auth, and `openai` itself (in any
/// ASCII case) never does.
pub proof fn law_roles_cannot_invent_providers(id: Seq<char>, providers: Seq<ModelProviderInfo>)
    ensures
        selects_non_openai(Some(id), providers) ==> !eq_ignore_ascii_case(id, "openai"@) && (
        provider_with_id(providers, id) matches Some(p) && !p.requires_openai_auth),
{
}

proof fn lemma_trim_start_shape(s: Seq<char>, nl: bool)
    ensures
        trim_start_by(s, nl).len() == 0 || !is_trimmed(trim_start_by(s, nl)[0], nl),
    decreases s.len(),
{
    if s.len() > 0 && is_trimmed(s[0], nl) {
        lemma_trim_start_shape(s.drop_first(), nl);
    }
}

proof fn lemma_trim_end_shape(s: Seq<char>, nl: bool)
    ensures
        trim_end_by(s, nl) == s.take(trim_end_by(s, nl).len() as int),
        trim_end_by(s, nl).len() <= s.len(),
        trim_end_by(s, nl).len() == 0 || !is_trimmed(trim_end_by(s, nl).last(), nl),
    decreases s.len(),
{
    if s.len() > 0 && is_trimmed(s.last(), nl) {
        lemma_trim_end_shape(s.drop_last(), nl);
        let r = trim_end_by(s.drop_last(), nl);
        assert(s.drop_last().take(r.len() as int) =~= s.take(r.len() as int));
    } else {
        assert(s.take(s.len() as int) =~= s);
    }
}

/// A text whose ends are not newlines is left alone by the newline trim.
proof fn lemma_trim_newlines_keeps(t: Seq<char>)
    requires
        t.len() > 0,
        t[0] != '\n',
        t.last() != '\n',
    ensures
        trim_newlines(t) == t,
{
    assert(trim_start_by(t, true) == t);
    assert(trim_end_by(t, true) == t);
}

/// Normalising an already normalised diff changes nothing: no second `@@`
/// header is added, and no newline is trimmed.
pub proof fn law_normalize_diff_idempotent(d: Seq<char>)
    ensures
        normalized_diff(normalized_diff(d)) == normalized_diff(d),
{
    let u = trim_start_by(d, true);
    let t = trim_newlines(d);
    lemma_trim_start_shape(d, true);
    lemma_trim_end_shape(u, true);
    let n = normalized_diff(d);
    if t.len() == 0 {
        assert(n.len() == 0);
        assert(trim_start_by(n, true) == n);
        assert(trim_end_by(n, true) == n);
    } else {
        assert(t[0] == u[0]);
        assert(t[0] != '\n');
        assert(t.last() != '\n');
        if starts_with(t, "@@"@) || contains(t, "*** "@) {
            assert(n == t);
            lemma_trim_newlines_keeps(t);
        } else {
            reveal_strlit("@@\n");
            reveal_strlit("@@");
            assert(n == "@@\n"@ + t);
            assert(n[0] == '@');
            assert(n.last() == t.last());
            lemma_trim_newlines_keeps(n);
            assert(n.take(2) =~= "@@"@);
            assert(starts_with(n, "@@"@));
        }
    }
}

// ---------------------------------------------------------------------------
// Structured arguments.

/// An optional member never yields a blank value: it is the trimmed string
/// where that is not empty, and absent otherwise.
pub proof fn law_optional_members_are_never_blank(v: JsonView, key: Seq<char>)
    ensures
        optional_field(v, key) matches Some(x) ==> x.len() > 0 && (str_field(v, key) matches Some(
            t,
        ) && x == trim(t)),
        (str_field(v, key) matches Some(t) && trim(t).len() == 0) ==> optional_field(v, key)
            is None,
{
}

/// An update whose `move_to` is blank moves nothing: the patch is the plain
/// update of the trimmed path with the diff, with no move line and no path
/// error for the blank move.
pub proof fn law_blank_move_to_means_no_move(
    v: JsonView,
    op: Seq<char>,
    p: Seq<char>,
    d: Seq<char>,
    m: Seq<char>,
)
    requires
        str_field(v, "operation"@) == Some(op),
        trim(op) == UPDATE_FILE@,
        str_field(v, "path"@) == Some(p),
        path_problem(trim(p)) is None,
        str_field(v, "diff"@) == Some(d),
        str_field(v, "move_to"@) == Some(m),
        trim(m).len() == 0,
    ensures
        canonical_patch(v) == Ok::<Seq<char>, Seq<char>>(update_patch(trim(p), d, None)),
{
    reveal_strlit("create_file");
    reveal_strlit("update_file");
    assert(CREATE_FILE@ != UPDATE_FILE@) by {
        assert(CREATE_FILE@[0] != UPDATE_FILE@[0]);
    }
}

// ---------------------------------------------------------------------------
// The order of tool names.

/// A string sorts before every longer string that extends it.
pub proof fn law_prefix_sorts_first(a: Seq<char>, b: Seq<char>)
    requires
        b.len() > 0,
    ensures
        lex_lt(a, a + b),
    decreases a.len(),
{
    if a.len() > 0 {
        assert((a + b).drop_first() =~= a.drop_first() + b);
        law_prefix_sorts_first(a.drop_first(), b);
    } else {
        assert(a + b =~= b);
    }
}

/// Two strings that agree before position `i` and differ there are ordered by
/// their characters at `i`.
pub proof fn law_first_difference_decides(a: Seq<char>, b: Seq<char>, i: int)
    requires
        0 <= i < a.len(),
        i < b.len(),
        a.take(i) == b.take(i),
        a[i] != b[i],
    ensures
        lex_lt(a, b) == (a[i] < b[i]),
    decreases i,
{
    if i > 0 {
        assert(a[0] == a.take(i)[0]);
        assert(b[0] == b.take(i)[0]);
        assert(a.drop_first().take(i - 1) =~= a.take(i).drop_first());
        assert(b.drop_first().take(i - 1) =~= b.take(i).drop_first());
        law_first_difference_decides(a.drop_first(), b.drop_first(), i - 1);
    }
}

// ---------------------------------------------------------------------------
// Paths.

/// A non-blank path with no `..` component is refused exactly when it holds a
/// character of Unicode category Cc (U+0000 to U+001F, U+007F to U+009F);
/// spaces and every other printable character are accepted.
pub proof fn law_only_cc_characters_refuse_a_path(p: Seq<char>)
    requires
        trim(p).len() > 0,
        !has_parent_dir(trim(p)),
    ensures
        path_problem(p) is None <==> forall|i: int|
            0 <= i < trim(p).len() ==> !(trim(p)[i] <= '\u{1f}' || ('\u{7f}' <= trim(p)[i]
                && trim(p)[i] <= '\u{9f}')),
{
    let t = trim(p);
    if path_problem(p) is None {
        assert forall|i: int| 0 <= i < t.len() implies !(t[i] <= '\u{1f}' || ('\u{7f}' <= t[i]
            && t[i] <= '\u{9f}')) by {
            assert(!crate::text::is_control(t[i]));
        }
    }
}

// ---------------------------------------------------------------------------
// The advertised schema.

/// The `enum` of the `operation` property in the advertised schema.
pub open spec fn advertised_operations() -> Seq<JsonView> {
    match field(function_parameters(), "properties"@) {
        Some(props) => match field(props, "operation"@) {
            Some(op) => match field(op, "enum"@) {
                Some(JsonView::Array(items)) => items,
                _ => Seq::empty(),
            },
            None => Seq::empty(),
        },
        None => Seq::empty(),
    }
}

/// Every operation that the structured translation accepts is offered in the
/// schema's `operation` enum, so a model that follows the schema can ask for
/// each of them.
pub proof fn law_schema_offers_every_accepted_operation(v: JsonView)
    ensures
        canonical_patch(v) is Ok ==> (required_field(v, "operation"@) matches Ok(op)
            && advertised_operations().contains(JsonView::Str(op))),
{
    reveal_strlit("type");
    reveal_strlit("properties");
    reveal_strlit("operation");
    reveal_strlit("enum");
    reveal_with_fuel(crate::json::lookup, 3);
    let top = function_parameters()->Object_0;
    assert("type"@.len() == 4);
    assert("properties"@.len() == 10);
    assert(top[0].0 == "type"@);
    assert(top[0].0 != "properties"@);
    assert(top.drop_first()[0].0 == "properties"@);
    let props = top[1].1;
    assert(field(function_parameters(), "properties"@) == Some(props));
    assert(props->Object_0[0].0 == "operation"@);
    let op = props->Object_0[0].1;
    assert(field(props, "operation"@) == Some(op));
    let ops = op->Object_0;
    assert(ops[0].0[0] != "enum"@[0]);
    assert(ops[0].0 != "enum"@);
    assert(ops.drop_first()[0].0 == "enum"@);
    assert(field(op, "enum"@) == Some(ops[1].1));
    let items = advertised_operations();
    assert(items[0] == JsonView::Str(CREATE_FILE@));
    assert(items[1] == JsonView::Str(UPDATE_FILE@));
    assert(items[2] == JsonView::Str(DELETE_FILE@));
}

// ---------------------------------------------------------------------------
// The spawn tool.

/// `props` has a property named `name`.
pub open spec fn has_property(props: Seq<(Seq<char>, Seq<char>)>, name: Seq<char>) -> bool {
    exists|i: int| 0 <= i < props.len() && #[trigger] props[i].0 == name
}

/// The spawn tool has `agent_type` exactly when it is exposed, `model` and
/// `reasoning_effort` exactly when overrides are exposed (each flag
/// independent of the other), and always `message` and `task_name`.
pub proof fn law_spawn_properties_follow_their_flags(
    agent_type_description: Seq<char>,
    expose_agent_type: bool,
    expose_overrides: bool,
)
    ensures
        has_property(
            spawn_properties(agent_type_description, expose_agent_type, expose_overrides),
            "agent_type"@,
        ) == expose_agent_type,
        has_property(
            spawn_properties(agent_type_description, expose_agent_type, expose_overrides),
            "model"@,
        ) == expose_overrides,
        has_property(
            spawn_properties(agent_type_description, expose_agent_type, expose_overrides),
            "reasoning_effort"@,
        ) == expose_overrides,
        has_property(
            spawn_properties(agent_type_description, expose_agent_type, expose_overrides),
            "message"@,
        ),
        has_property(
            spawn_properties(agent_type_description, expose_agent_type, expose_overrides),
            "task_name"@,
        ),
{
    reveal_strlit("agent_type");
    reveal_strlit("model");
    reveal_strlit("reasoning_effort");
    reveal_strlit("message");
    reveal_strlit("task_name");
    let ps = spawn_properties(agent_type_description, expose_agent_type, expose_overrides);
    let a = "agent_type"@;
    let me = "message"@;
    let mo = "model"@;
    let r = "reasoning_effort"@;
    let t = "task_name"@;
    assert(a != me && a != mo && a != r && a != t) by {
        assert(a[0] != me[0] && a[0] != mo[0] && a[0] != r[0] && a[0] != t[0]);
    }
    assert(me != mo && me != r && me != t) by {
        assert(me[1] != mo[1] && me[0] != r[0] && me[0] != t[0]);
    }
    assert(mo != r && mo != t && r != t) by {
        assert(mo[0] != r[0] && mo[0] != t[0] && r[0] != t[0]);
    }
    let expected = (if expose_agent_type {
        seq![a]
    } else {
        Seq::empty()
    }) + seq![me] + (if expose_overrides {
        seq![mo, r]
    } else {
        Seq::empty()
    }) + seq![t];
    assert(ps.len() == expected.len());
    assert(forall|i: int| 0 <= i < ps.len() ==> #[trigger] ps[i].0 == expected[i]);
    let k: int = if expose_agent_type { 1 } else { 0 };
    assert(ps[k].0 == me);
    assert(ps[ps.len() - 1].0 == t);
    if expose_agent_type {
        assert(ps[0].0 == a);
    } else {
        assert(forall|i: int| 0 <= i < ps.len() ==> ps[i].0 != a);
    }
    if expose_overrides {
        assert(ps[k + 1].0 == mo);
        assert(ps[k + 2].0 == r);
    } else {
        assert(forall|i: int| 0 <= i < ps.len() ==> ps[i].0 != mo && ps[i].0 != r);
    }
}

} // verus!
