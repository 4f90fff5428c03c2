use vstd::prelude::*;

use crate::protocol::{
    ContentItem,
    ContentItemView,
    ResponseItem,
    ResponseItemView,
    content_views,
    item_views,
    string_views,
};
use crate::wire_names::MAX_TOOL_NAMES;
use crate::text::{chars_of, contains, contains_str, str_eq, string_of_range};

verus! {

pub const MAX_BODY_CHARS: usize = 4000;

pub const GUIDANCE_OPEN_TAG: &'static str = "<muse_tool_guidance>";

pub const GUIDANCE_CLOSE_TAG: &'static str = "</muse_tool_guidance>";

/// `"- name\n"` for each name, in order.
pub open spec fn listed_names(names: Seq<Seq<char>>) -> Seq<char>
    decreases names.len(),
{
    if names.len() == 0 {
        Seq::empty()
    } else {
        listed_names(names.drop_last()) + "- "@ + names.last() + "\n"@
    }
}

pub open spec fn min_nat(a: nat, b: nat) -> nat {
    if a <= b {
        a
    } else {
        b
    }
}

/// The guidance before it is capped: the header, the first 64 names (or a note
/// that there are none), a line about `apply_patch` where it is one of the
/// names, and the closing rule.
pub open spec fn full_guidance(names: Seq<Seq<char>>) -> Seq<char> {
    "Available tools for this turn (use only these exact names):\n"@ + (if names.len() == 0 {
        "- (none advertised)\n"@
    } else {
        listed_names(names.take(min_nat(names.len(), MAX_TOOL_NAMES as nat) as int))
    }) + (if names.contains("apply_patch"@) {
        "\napply_patch accepts structured create_file/update_file/delete_file fields or a canonical patch in `input`.\n"@
    } else {
        Seq::empty()
    }) + "Do not invent dotted, MCP, REPL, or code-mode names unless they appear in this list."@
}

/// The guidance text: [`full_guidance`] cut to its first 4000 characters.
pub open spec fn guidance_text(names: Seq<Seq<char>>) -> Seq<char> {
    let full = full_guidance(names);
    if full.len() > MAX_BODY_CHARS {
        full.take(MAX_BODY_CHARS as int)
    } else {
        full
    }
}

fn mentions_apply_patch(tool_names: &[String]) -> (res: bool)
    ensures
        res == string_views(tool_names@).contains("apply_patch"@),
{
    let mut i: usize = 0;
    while i < tool_names.len()
        invariant
            i <= tool_names@.len(),
            forall|j: int| 0 <= j < i ==> tool_names@[j]@ != "apply_patch"@,
        decreases tool_names@.len() - i,
    {
        if str_eq(tool_names[i].as_str(), "apply_patch") {
            assert(string_views(tool_names@)[i as int] == "apply_patch"@);
            return true;
        }
        i += 1;
    }
    false
}

pub fn render_muse_tool_guidance(tool_names: &[String]) -> (res: String)
    ensures
        res@ == guidance_text(string_views(tool_names@)),
{
    let ghost names = string_views(tool_names@);
    let mut body = "Available tools for this turn (use only these exact names):\n".to_owned();
    let ghost header = body@;
    if tool_names.len() == 0 {
        body.append("- (none advertised)\n");
    } else {
        let count = if tool_names.len() < MAX_TOOL_NAMES {
            tool_names.len()
        } else {
            MAX_TOOL_NAMES
        };
        let mut i: usize = 0;
        assert(names.take(0) == Seq::<Seq<char>>::empty());
        while i < count
            invariant
                count <= tool_names@.len(),
                i <= count,
                names == string_views(tool_names@),
                body@ == header + listed_names(names.take(i as int)),
            decreases count - i,
        {
            body.append("- ");
            body.append(tool_names[i].as_str());
            body.append("\n");
            assert(names.take(i + 1).drop_last() == names.take(i as int));
            i += 1;
        }
    }
    if mentions_apply_patch(tool_names) {
        body.append(
            "\napply_patch accepts structured create_file/update_file/delete_file fields or a canonical patch in `input`.\n",
        );
    }
    body.append(
        "Do not invent dotted, MCP, REPL, or code-mode names unless they appear in this list.",
    );
    let v = chars_of(body.as_str());
    if v.len() > MAX_BODY_CHARS {
        string_of_range(&v, 0, MAX_BODY_CHARS)
    } else {
        body
    }
}

/// Developer fragment that lists the exact tools a Muse child may call.
#[derive(Debug)]
pub struct MuseToolGuidance {
    body: String,
}

/// The text of the message that carries a guidance body: the body between the
/// open and close markers, each on a line of its own.
pub open spec fn wrapped_text(body: Seq<char>) -> Seq<char> {
    GUIDANCE_OPEN_TAG@ + "\n"@ + body + "\n"@ + GUIDANCE_CLOSE_TAG@
}

/// The developer message that carries a guidance body.
pub open spec fn guidance_message(body: Seq<char>) -> ResponseItemView {
    ResponseItemView::Message {
        id: None,
        role: "developer"@,
        content: seq![ContentItemView::InputText { text: wrapped_text(body) }],
    }
}

/// An item is a guidance message: a message with some input text that holds
/// the open marker.
pub open spec fn is_guidance_item(item: ResponseItemView) -> bool {
    &&& item is Message
    &&& exists|i: int|
        0 <= i < item->content.len() && #[trigger] input_text_holds_marker(item->content[i])
}

pub open spec fn input_text_holds_marker(c: ContentItemView) -> bool {
    c matches ContentItemView::InputText { text } && contains(text, GUIDANCE_OPEN_TAG@)
}

impl MuseToolGuidance {
    pub closed spec fn body_view(&self) -> Seq<char> {
        self.body@
    }

    pub fn new(tool_names: &[String]) -> (res: Self)
        ensures
            res.body_view() == guidance_text(string_views(tool_names@)),
    {
        MuseToolGuidance { body: render_muse_tool_guidance(tool_names) }
    }

    pub fn body(&self) -> (res: String)
        ensures
            res@ == self.body_view(),
    {
        self.body.clone()
    }

    pub fn content_kind(&self) -> (res: String)
        ensures
            res@ == "muse.tool_guidance"@,
    {
        "muse.tool_guidance".to_owned()
    }

    pub fn role(&self) -> (res: &'static str)
        ensures
            res@ == "developer"@,
    {
        "developer"
    }

    pub fn requires_separate_message(&self) -> (res: bool)
        ensures
            res,
    {
        true
    }

    pub fn type_markers() -> (res: (&'static str, &'static str))
        ensures
            res.0@ == GUIDANCE_OPEN_TAG@,
            res.1@ == GUIDANCE_CLOSE_TAG@,
    {
        (GUIDANCE_OPEN_TAG, GUIDANCE_CLOSE_TAG)
    }

    pub fn markers(&self) -> (res: (&'static str, &'static str))
        ensures
            res.0@ == GUIDANCE_OPEN_TAG@,
            res.1@ == GUIDANCE_CLOSE_TAG@,
    {
        Self::type_markers()
    }

    /// The developer message that carries this guidance.
    pub fn into_response_item(self) -> (res: ResponseItem)
        ensures
            res@ == guidance_message(self.body_view()),
    {
        let (open, close) = Self::type_markers();
        let mut text = open.to_owned();
        text.append("\n");
        text.append(self.body.as_str());
        text.append("\n");
        text.append(close);
        let content = vec![ContentItem::InputText { text }];
        let res = ResponseItem::Message { id: None, role: self.role().to_owned(), content };
        assert(res@->content =~= seq![ContentItemView::InputText { text: wrapped_text(self.body@) }]);
        res
    }

    pub fn matches_item(item: &ResponseItem) -> (res: bool)
        ensures
            res == is_guidance_item(item@),
    {
        match item {
            ResponseItem::Message { content, .. } => {
                let (open, _) = Self::type_markers();
                let mut i: usize = 0;
                while i < content.len()
                    invariant
                        i <= content@.len(),
                        open@ == GUIDANCE_OPEN_TAG@,
                        item@ == (ResponseItemView::Message {
                            id: item@->id,
                            role: item@->role,
                            content: content_views(content@),
                        }),
                        forall|j: int|
                            0 <= j < i ==> !input_text_holds_marker(
                                #[trigger] content_views(content@)[j],
                            ),
                    decreases content@.len() - i,
                {
                    if let ContentItem::InputText { text } = &content[i] {
                        if contains_str(text.as_str(), open) {
                            assert(item@->content == content_views(content@));
                            assert(input_text_holds_marker(item@->content[i as int]));
                            return true;
                        }
                    }
                    i += 1;
                }
                false
            },
            _ => false,
        }
    }
}

/// `after` is `before` with `next` put in place of the first guidance message,
/// or appended where there is none.
pub open spec fn upserted(
    before: Seq<ResponseItemView>,
    next: ResponseItemView,
    after: Seq<ResponseItemView>,
) -> bool {
    ||| exists|k: int|
        0 <= k < before.len() && is_guidance_item(#[trigger] before[k]) && (forall|j: int|
            0 <= j < k ==> !is_guidance_item(before[j])) && after == before.update(k, next)
    ||| (forall|j: int| 0 <= j < before.len() ==> !is_guidance_item(#[trigger] before[j]))
        && after == before.push(next)
}

/// Puts the guidance for `tool_names` into `input`: in place of the first
/// guidance message there is, or at the end where there is none.
pub fn upsert_muse_tool_guidance(input: &mut Vec<ResponseItem>, tool_names: &[String])
    ensures
        upserted(
            item_views(old(input)@),
            guidance_message(guidance_text(string_views(tool_names@))),
            item_views(final(input)@),
        ),
{
    let guidance = MuseToolGuidance::new(tool_names);
    let next = guidance.into_response_item();
    let ghost next_view = next@;
    assert(next_view == guidance_message(guidance_text(string_views(tool_names@))));
    let ghost before = item_views(input@);
    let mut i: usize = 0;
    while i < input.len()
        invariant
            i <= input@.len(),
            before == item_views(input@),
            before == item_views(old(input)@),
            next@ == guidance_message(guidance_text(string_views(tool_names@))),
            forall|j: int| 0 <= j < i ==> !is_guidance_item(#[trigger] before[j]),
        decreases input@.len() - i,
    {
        if MuseToolGuidance::matches_item(&input[i]) {
            assert(is_guidance_item(before[i as int]));
            input.set(i, next);
            assert(item_views(input@) =~= before.update(i as int, next@));
            assert(0 <= i < before.len());
            return;
        }
        i += 1;
    }
    input.push(next);
    assert(item_views(input@) =~= before.push(next@));
}

} // verus!
