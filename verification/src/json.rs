use vstd::prelude::*;

use crate::text::str_eq;

verus! {

/// `serde_json::Value`, which the parser returns; it is only carried into the
/// conversion to [`JsonValue`].
#[verifier::external_type_specification]
#[verifier::external_body]
pub struct ExSerdeJsonValue(serde_json::Value);

/// A JSON document as plain values: what the parser hands back and what the
/// argument handling reads.
#[derive(Debug)]
pub enum JsonValue {
    Null,
    Bool(bool),
    /// A number, kept as its decimal text.
    Number(String),
    String(String),
    Array(Vec<JsonValue>),
    /// An object's members, in the parser's order.
    Object(Vec<(String, JsonValue)>),
}

/// The mathematical model of a [`JsonValue`]: strings as character sequences.
pub enum JsonView {
    Null,
    Bool(bool),
    Number(Seq<char>),
    Str(Seq<char>),
    Array(Seq<JsonView>),
    Object(Seq<(Seq<char>, JsonView)>),
}

pub open spec fn json_view(v: JsonValue) -> JsonView
    decreases v,
{
    match v {
        JsonValue::Null => JsonView::Null,
        JsonValue::Bool(b) => JsonView::Bool(b),
        JsonValue::Number(n) => JsonView::Number(n@),
        JsonValue::String(s) => JsonView::Str(s@),
        JsonValue::Array(items) => JsonView::Array(items_view(items@)),
        JsonValue::Object(entries) => JsonView::Object(entries_view(entries@)),
    }
}

pub open spec fn items_view(items: Seq<JsonValue>) -> Seq<JsonView>
    decreases items,
{
    if items.len() == 0 {
        Seq::empty()
    } else {
        items_view(items.drop_last()).push(json_view(items.last()))
    }
}

pub open spec fn entries_view(entries: Seq<(String, JsonValue)>) -> Seq<(Seq<char>, JsonView)>
    decreases entries,
{
    if entries.len() == 0 {
        Seq::empty()
    } else {
        entries_view(entries.drop_last()).push(
            (entries.last().0@, json_view(entries.last().1)),
        )
    }
}

impl View for JsonValue {
    type V = JsonView;

    open spec fn view(&self) -> JsonView {
        json_view(*self)
    }
}

pub proof fn lemma_items_view(items: Seq<JsonValue>)
    ensures
        items_view(items).len() == items.len(),
        forall|i: int| 0 <= i < items.len() ==> #[trigger] items_view(items)[i] == json_view(items[i]),
    decreases items.len(),
{
    if items.len() > 0 {
        lemma_items_view(items.drop_last());
    }
}

pub proof fn lemma_entries_view(entries: Seq<(String, JsonValue)>)
    ensures
        entries_view(entries).len() == entries.len(),
        forall|i: int|
            0 <= i < entries.len() ==> #[trigger] entries_view(entries)[i] == (
                entries[i].0@,
                json_view(entries[i].1),
            ),
    decreases entries.len(),
{
    if entries.len() > 0 {
        lemma_entries_view(entries.drop_last());
    }
}

/// The value of the first member named `key`, as `serde_json`'s map lookup
/// finds it (its maps hold each key once).
pub open spec fn lookup(entries: Seq<(Seq<char>, JsonView)>, key: Seq<char>) -> Option<JsonView>
    decreases entries.len(),
{
    if entries.len() == 0 {
        None
    } else if entries[0].0 == key {
        Some(entries[0].1)
    } else {
        lookup(entries.drop_first(), key)
    }
}

/// `Value::get` with a string index: a member of an object, `None` otherwise.
pub open spec fn field(v: JsonView, key: Seq<char>) -> Option<JsonView> {
    match v {
        JsonView::Object(entries) => lookup(entries, key),
        _ => None,
    }
}

/// `Value::as_str` on an optional value.
pub open spec fn str_of(v: Option<JsonView>) -> Option<Seq<char>> {
    match v {
        Some(JsonView::Str(s)) => Some(s),
        _ => None,
    }
}

/// `value.get(key).and_then(Value::as_str)`.
pub open spec fn str_field(v: JsonView, key: Seq<char>) -> Option<Seq<char>> {
    str_of(field(v, key))
}

/// What `serde_json::from_str::<serde_json::Value>` gives for a text: the
/// document, or the text of the error.
pub uninterp spec fn serde_json_from_str(text: Seq<char>) -> Result<JsonView, Seq<char>>;

pub open spec fn parse_result_view(r: Result<JsonValue, String>) -> Result<JsonView, Seq<char>> {
    match r {
        Ok(v) => Ok(v@),
        Err(e) => Err(e@),
    }
}

/// Converts a parsed `serde_json::Value` into plain values, member for member
/// (a number by its `Display` text). It serves [`parse_json`] alone and
/// promises nothing of its own.
#[verifier::external_body]
fn json_from_serde(v: serde_json::Value) -> JsonValue {
    match v {
        serde_json::Value::Null => JsonValue::Null,
        serde_json::Value::Bool(b) => JsonValue::Bool(b),
        serde_json::Value::Number(n) => JsonValue::Number(n.to_string()),
        serde_json::Value::String(s) => JsonValue::String(s),
        serde_json::Value::Array(a) => JsonValue::Array(a.into_iter().map(json_from_serde).collect()),
        serde_json::Value::Object(m) => JsonValue::Object(
            m.into_iter().map(|(k, v)| (k, json_from_serde(v))).collect(),
        ),
    }
}

/// Calls `serde_json::from_str::<serde_json::Value>`: the contract claims only
/// that the outcome is the named function of the text (the document, or the
/// error's `Display` text).
#[verifier::external_body]
pub(crate) fn parse_json(text: &str) -> (res: Result<JsonValue, String>)
    ensures
        parse_result_view(res) == serde_json_from_str(text@),
{
    match serde_json::from_str::<serde_json::Value>(text) {
        Ok(v) => Ok(json_from_serde(v)),
        Err(e) => Err(e.to_string()),
    }
}

/// `Value::get` with a string index.
pub fn get<'a>(v: &'a JsonValue, key: &str) -> (res: Option<&'a JsonValue>)
    ensures
        match res {
            Some(r) => field(v@, key@) == Some(r@),
            None => field(v@, key@) is None,
        },
{
    match v {
        JsonValue::Object(entries) => {
            proof {
                lemma_entries_view(entries@);
            }
            let ghost ev = entries_view(entries@);
            assert(v@ == JsonView::Object(ev));
            assert(ev.subrange(0, ev.len() as int) == ev);
            let mut i: usize = 0;
            while i < entries.len()
                invariant
                    i <= entries@.len() == ev.len(),
                    ev == entries_view(entries@),
                    v@ == JsonView::Object(ev),
                    forall|j: int|
                        0 <= j < entries@.len() ==> #[trigger] ev[j] == (
                            entries@[j].0@,
                            json_view(entries@[j].1),
                        ),
                    lookup(ev, key@) == lookup(ev.subrange(i as int, ev.len() as int), key@),
                decreases entries@.len() - i,
            {
                let ghost rest = ev.subrange(i as int, ev.len() as int);
                assert(rest[0] == ev[i as int]);
                if str_eq(entries[i].0.as_str(), key) {
                    assert(entries@[i as int].1@ == json_view(entries@[i as int].1));
                    return Some(&entries[i].1);
                }
                assert(rest.drop_first() == ev.subrange(i + 1, ev.len() as int));
                i += 1;
            }
            None
        },
        _ => None,
    }
}

/// `Value::as_str`.
pub fn as_str(v: &JsonValue) -> (res: Option<&String>)
    ensures
        match res {
            Some(s) => str_of(Some(v@)) == Some(s@),
            None => str_of(Some(v@)) is None,
        },
{
    match v {
        JsonValue::String(s) => Some(s),
        _ => None,
    }
}

/// `value.get(key).and_then(Value::as_str)`.
pub fn get_str<'a>(v: &'a JsonValue, key: &str) -> (res: Option<&'a String>)
    ensures
        match res {
            Some(s) => str_field(v@, key@) == Some(s@),
            None => str_field(v@, key@) is None,
        },
{
    match get(v, key) {
        Some(f) => as_str(f),
        None => None,
    }
}

} // verus!
