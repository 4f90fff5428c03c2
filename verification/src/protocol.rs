use vstd::prelude::*;

verus! {

/// One piece of the content of a conversation message.
#[derive(Debug)]
pub enum ContentItem {
    InputText { text: String },
    InputImage { image_url: String },
    OutputText { text: String },
}

pub enum ContentItemView {
    InputText { text: Seq<char> },
    InputImage { image_url: Seq<char> },
    OutputText { text: Seq<char> },
}

impl View for ContentItem {
    type V = ContentItemView;

    open spec fn view(&self) -> ContentItemView {
        match self {
            ContentItem::InputText { text } => ContentItemView::InputText { text: text@ },
            ContentItem::InputImage { image_url } => ContentItemView::InputImage {
                image_url: image_url@,
            },
            ContentItem::OutputText { text } => ContentItemView::OutputText { text: text@ },
        }
    }
}

/// An item of the conversation sent to a model: a message, or another item
/// (a tool call or its output, reasoning) named by its kind.
#[derive(Debug)]
pub enum ResponseItem {
    Message { id: Option<String>, role: String, content: Vec<ContentItem> },
    Other { kind: String },
}

pub enum ResponseItemView {
    Message { id: Option<Seq<char>>, role: Seq<char>, content: Seq<ContentItemView> },
    Other { kind: Seq<char> },
}

impl View for ResponseItem {
    type V = ResponseItemView;

    open spec fn view(&self) -> ResponseItemView {
        match self {
            ResponseItem::Message { id, role, content } => ResponseItemView::Message {
                id: match id {
                    Some(i) => Some(i@),
                    None => None,
                },
                role: role@,
                content: content_views(content@),
            },
            ResponseItem::Other { kind } => ResponseItemView::Other { kind: kind@ },
        }
    }
}

/// The views of a sequence of strings.
pub open spec fn string_views(s: Seq<String>) -> Seq<Seq<char>> {
    s.map_values(|x: String| x@)
}

pub open spec fn content_views(s: Seq<ContentItem>) -> Seq<ContentItemView> {
    s.map_values(|x: ContentItem| x@)
}

pub open spec fn item_views(s: Seq<ResponseItem>) -> Seq<ResponseItemView> {
    s.map_values(|x: ResponseItem| x@)
}

} // verus!
