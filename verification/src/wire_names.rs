use vstd::prelude::*;

use crate::json::{
    JsonValue,
    JsonView,
    entries_view,
    get_str,
    items_view,
    json_view,
    lemma_entries_view,
    lemma_items_view,
    lookup,
    str_of,
};
use crate::order::{smallest_distinct, sort_dedup_truncate};
use crate::protocol::string_views;
use crate::text::{str_eq, trim, trim_string};

verus! {

/// The tool names that a tools array advertises on the wire, in document order:
/// arrays are searched item by item; an object contributes its own name, then
/// those of all its member values, except a `namespace`, which contributes
/// only those under its `tools` member.
pub open spec fn wire_names(v: JsonView) -> Seq<Seq<char>>
    decreases v, 2int,
{
    match v {
        JsonView::Array(items) => list_names(items),
        JsonView::Object(entries) => object_names(entries),
        _ => Seq::empty(),
    }
}

pub open spec fn list_names(items: Seq<JsonView>) -> Seq<Seq<char>>
    decreases items, 0int,
{
    if items.len() == 0 {
        Seq::empty()
    } else {
        list_names(items.drop_last()) + wire_names(items.last())
    }
}

/// The `type` member of an object, where it is a string.
pub open spec fn type_of(entries: Seq<(Seq<char>, JsonView)>) -> Option<Seq<char>> {
    str_of(lookup(entries, "type"@))
}

/// The name that an object itself advertises: `web_search` for the hosted
/// search tool, the trimmed `name` of a `function` or `custom` tool where it is
/// not empty, nothing otherwise.
pub open spec fn own_names(entries: Seq<(Seq<char>, JsonView)>) -> Seq<Seq<char>> {
    let ty = type_of(entries);
    if ty == Some("web_search"@) {
        seq!["web_search"@]
    } else if ty == Some("function"@) || ty == Some("custom"@) {
        match str_of(lookup(entries, "name"@)) {
            Some(n) => if trim(n).len() > 0 {
                seq![trim(n)]
            } else {
                Seq::empty()
            },
            None => Seq::empty(),
        }
    } else {
        Seq::empty()
    }
}

pub open spec fn object_names(entries: Seq<(Seq<char>, JsonView)>) -> Seq<Seq<char>>
    decreases entries, 1int,
{
    if type_of(entries) == Some("namespace"@) {
        member_names(entries, "tools"@)
    } else {
        own_names(entries) + values_names(entries)
    }
}

/// The names under the first member named `key`, if any.
pub open spec fn member_names(entries: Seq<(Seq<char>, JsonView)>, key: Seq<char>) -> Seq<
    Seq<char>,
>
    decreases entries, 0int,
{
    if entries.len() == 0 {
        Seq::empty()
    } else if entries[0].0 == key {
        wire_names(entries[0].1)
    } else {
        member_names(entries.drop_first(), key)
    }
}

/// The names under each member value, in order.
pub open spec fn values_names(entries: Seq<(Seq<char>, JsonView)>) -> Seq<Seq<char>>
    decreases entries, 0int,
{
    if entries.len() == 0 {
        Seq::empty()
    } else {
        values_names(entries.drop_last()) + wire_names(entries.last().1)
    }
}

/// The index of the first member named `key`, if any.
fn find_member(entries: &Vec<(String, JsonValue)>, key: &str) -> (res: Option<usize>)
    ensures
        match res {
            Some(k) => k < entries@.len() && member_names(entries_view(entries@), key@)
                == wire_names(json_view(entries@[k as int].1)),
            None => member_names(entries_view(entries@), key@) == Seq::<Seq<char>>::empty(),
        },
{
    proof {
        lemma_entries_view(entries@);
    }
    let ghost ev = entries_view(entries@);
    assert(ev.subrange(0, ev.len() as int) == ev);
    let mut i: usize = 0;
    while i < entries.len()
        invariant
            i <= entries@.len() == ev.len(),
            ev == entries_view(entries@),
            forall|j: int|
                0 <= j < entries@.len() ==> #[trigger] ev[j] == (
                    entries@[j].0@,
                    json_view(entries@[j].1),
                ),
            member_names(ev, key@) == member_names(ev.subrange(i as int, ev.len() as int), key@),
        decreases entries@.len() - i,
    {
        let ghost rest = ev.subrange(i as int, ev.len() as int);
        assert(rest[0] == ev[i as int]);
        if str_eq(entries[i].0.as_str(), key) {
            return Some(i);
        }
        assert(rest.drop_first() == ev.subrange(i + 1, ev.len() as int));
        i += 1;
    }
    None
}

/// Appends the names that `value` advertises, in document order.
fn collect_wire_tool_names_inner(value: &JsonValue, names: &mut Vec<String>)
    ensures
        string_views(final(names)@) == string_views(old(names)@) + wire_names(value@),
    decreases value,
{
    let ghost start = string_views(names@);
    match value {
        JsonValue::Array(items) => {
            proof {
                lemma_items_view(items@);
            }
            let ghost iv = items_view(items@);
            assert(value@ == JsonView::Array(iv));
            assert(iv.take(0) == Seq::<JsonView>::empty());
            assert(start + Seq::<Seq<char>>::empty() == start);
            let mut i: usize = 0;
            while i < items.len()
                invariant
                    i <= items@.len() == iv.len(),
                    iv == items_view(items@),
                    *value == JsonValue::Array(*items),
                    forall|j: int| 0 <= j < items@.len() ==> #[trigger] iv[j] == json_view(items@[j]),
                    string_views(names@) == start + list_names(iv.take(i as int)),
                decreases items@.len() - i,
            {
                assert(*items == value->Array_0);
                assert(decreases_to!(*value => value->Array_0));
                assert(decreases_to!(*items => items@));
                assert(decreases_to!(items@ => items@[i as int]));
                assert(decreases_to!(*value => items@[i as int]));
                collect_wire_tool_names_inner(&items[i], names);
                assert(iv.take(i + 1).drop_last() == iv.take(i as int));
                assert(start + list_names(iv.take(i as int)) + wire_names(iv[i as int]) == start
                    + (list_names(iv.take(i as int)) + wire_names(iv[i as int])));
                i += 1;
            }
            assert(iv.take(iv.len() as int) == iv);
        },
        JsonValue::Object(entries) => {
            proof {
                lemma_entries_view(entries@);
            }
            let ghost ev = entries_view(entries@);
            assert(value@ == JsonView::Object(ev));
            let ty = get_str(value, "type");
            let (is_namespace, is_web_search, is_function) = match ty {
                Some(t) => (
                    str_eq(t.as_str(), "namespace"),
                    str_eq(t.as_str(), "web_search"),
                    str_eq(t.as_str(), "function") || str_eq(t.as_str(), "custom"),
                ),
                None => (false, false, false),
            };
            if is_namespace {
                match find_member(entries, "tools") {
                    Some(k) => {
                        collect_wire_tool_names_inner(&entries[k].1, names);
                    },
                    None => {
                        assert(start + Seq::<Seq<char>>::empty() == start);
                    },
                }
                return;
            }
            if is_web_search {
                names.push("web_search".to_owned());
            } else if is_function {
                if let Some(n) = get_str(value, "name") {
                    let t = trim_string(n.as_str());
                    if !t.as_str().is_empty() {
                        names.push(t);
                    }
                }
            }
            let ghost own = own_names(ev);
            assert(string_views(names@) == start + own);
            assert(ev.take(0) == Seq::<(Seq<char>, JsonView)>::empty());
            assert(start + own + Seq::<Seq<char>>::empty() == start + own);
            let mut i: usize = 0;
            while i < entries.len()
                invariant
                    i <= entries@.len() == ev.len(),
                    ev == entries_view(entries@),
                    *value == JsonValue::Object(*entries),
                    forall|j: int|
                        0 <= j < entries@.len() ==> #[trigger] ev[j] == (
                            entries@[j].0@,
                            json_view(entries@[j].1),
                        ),
                    string_views(names@) == start + own + values_names(ev.take(i as int)),
                decreases entries@.len() - i,
            {
                assert(*entries == value->Object_0);
                assert(decreases_to!(*value => value->Object_0));
                assert(decreases_to!(*entries => entries@));
                assert(decreases_to!(entries@ => entries@[i as int]));
                assert(decreases_to!(entries@[i as int] => entries@[i as int].1));
                assert(decreases_to!(*value => entries@[i as int].1));
                collect_wire_tool_names_inner(&entries[i].1, names);
                assert(ev.take(i + 1).drop_last() == ev.take(i as int));
                assert(start + own + values_names(ev.take(i as int)) + wire_names(ev[i as int].1)
                    == start + own + (values_names(ev.take(i as int)) + wire_names(ev[i as int].1)));
                i += 1;
            }
            assert(ev.take(ev.len() as int) == ev);
            assert(start + own + values_names(ev) == start + (own + values_names(ev)));
        },
        _ => {
            assert(start + Seq::<Seq<char>>::empty() == start);
        },
    }
}

pub const MAX_TOOL_NAMES: usize = 64;

/// The exact tool names a tools array advertises: sorted, each once, at most
/// 64 of them (the smallest).
pub fn collect_wire_tool_names(value: &JsonValue) -> (res: Vec<String>)
    ensures
        smallest_distinct(wire_names(value@), string_views(res@), MAX_TOOL_NAMES as nat),
{
    let mut names: Vec<String> = Vec::new();
    collect_wire_tool_names_inner(value, &mut names);
    assert(string_views(names@) =~= wire_names(value@));
    sort_dedup_truncate(&names, MAX_TOOL_NAMES)
}

} // verus!
