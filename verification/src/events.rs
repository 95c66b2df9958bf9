use vstd::prelude::*;

verus! {

/// The structural constructs whose paired start/end events drive the context
/// state. Every other construct the parser reports (paragraphs, lists,
/// emphasis, links, ...) makes no transition and is `Other`.
#[derive(Clone, Copy, Debug, PartialEq, Eq, Structural)]
pub enum TagKind {
    CodeBlock,
    BlockQuote,
    MetadataBlock,
    FootnoteDefinition,
    Table,
    Heading,
    Other,
}

/// One event of a document's structural event stream, reduced to what the
/// counting engine reads: the text an event carries and the transition it
/// makes. Events that carry no countable text and open no tracked region
/// (inline HTML, footnote references, breaks, rules, task-list markers) are
/// all `Other`.
#[derive(Debug)]
pub enum MdEvent {
    /// A text node.
    Text(String),
    /// An inline code span.
    InlineCode(String),
    /// A block of raw HTML.
    Html(String),
    /// Start of a structural construct.
    Start(TagKind),
    /// End of a structural construct.
    End(TagKind),
    /// An event that carries nothing countable and makes no transition.
    Other,
}

/// The mathematical image of an event: its text as a character sequence.
pub enum EventModel {
    Text(Seq<char>),
    InlineCode(Seq<char>),
    Html(Seq<char>),
    Start(TagKind),
    End(TagKind),
    Other,
}

impl View for MdEvent {
    type V = EventModel;

    open spec fn view(&self) -> EventModel {
        match self {
            MdEvent::Text(t) => EventModel::Text(t@),
            MdEvent::InlineCode(t) => EventModel::InlineCode(t@),
            MdEvent::Html(t) => EventModel::Html(t@),
            MdEvent::Start(k) => EventModel::Start(*k),
            MdEvent::End(k) => EventModel::End(*k),
            MdEvent::Other => EventModel::Other,
        }
    }
}

/// The image of a whole event sequence.
pub open spec fn events_view(es: Seq<MdEvent>) -> Seq<EventModel> {
    es.map_values(|e: MdEvent| e@)
}

} // verus!
