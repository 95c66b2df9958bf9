use vstd::prelude::*;

use pulldown_cmark::Event;
use pulldown_cmark::Options as ParserOptions;
use pulldown_cmark::Parser;
use pulldown_cmark::Tag;
use pulldown_cmark::TagEnd;

use crate::events::EventModel;
use crate::events::MdEvent;
use crate::events::TagKind;
use crate::events::events_view;

verus! {

#[verifier::external_type_specification]
#[verifier::external_body]
pub struct ExTag<'a>(Tag<'a>);

#[verifier::external_type_specification]
#[verifier::external_body]
pub struct ExTagEnd(TagEnd);

/// The structural event stream the Markdown parser yields for a document, in
/// document order, reduced to the engine's event alphabet. Named, not
/// written out: parsing is the outside crate's work, and the stream is a
/// function of the text alone.
pub uninterp spec fn md_events(s: Seq<char>) -> Seq<EventModel>;

/// Relies on pulldown_cmark's `Tag`: tells the six tracked constructs apart
/// from the rest.
#[verifier::external_body]
fn tag_kind(tag: &Tag<'_>) -> TagKind {
    match tag {
        Tag::CodeBlock(_) => TagKind::CodeBlock,
        Tag::BlockQuote => TagKind::BlockQuote,
        Tag::MetadataBlock(_) => TagKind::MetadataBlock,
        Tag::FootnoteDefinition(_) => TagKind::FootnoteDefinition,
        Tag::Table(_) => TagKind::Table,
        Tag::Heading { .. } => TagKind::Heading,
        _ => TagKind::Other,
    }
}

/// Relies on pulldown_cmark's `TagEnd`: tells the six tracked constructs
/// apart from the rest.
#[verifier::external_body]
fn tag_end_kind(tag: &TagEnd) -> TagKind {
    match tag {
        TagEnd::CodeBlock => TagKind::CodeBlock,
        TagEnd::BlockQuote => TagKind::BlockQuote,
        TagEnd::MetadataBlock(_) => TagKind::MetadataBlock,
        TagEnd::FootnoteDefinition => TagKind::FootnoteDefinition,
        TagEnd::Table => TagKind::Table,
        TagEnd::Heading(_) => TagKind::Heading,
        _ => TagKind::Other,
    }
}

/// Relies on pulldown_cmark's `Parser`: one ordered pass over the document,
/// with every extension enabled but old-style footnotes, so that tables,
/// new-style footnotes, metadata blocks and task lists are all recognized.
/// Events that carry no countable text and make no transition (inline HTML,
/// footnote references, breaks, rules, task-list markers) come out `Other`.
#[verifier::external_body]
pub(crate) fn parse_markdown(text: &str) -> (events: Vec<MdEvent>)
    ensures
        events_view(events@) == md_events(text@),
{
    let popts =
        ParserOptions::all() & !ParserOptions::ENABLE_OLD_FOOTNOTES | ParserOptions::ENABLE_FOOTNOTES;
    let mut events: Vec<MdEvent> = Vec::new();
    for ev in Parser::new_ext(text, popts) {
        events.push(match ev {
            Event::Text(t) => MdEvent::Text(t.into_string()),
            Event::Code(t) => MdEvent::InlineCode(t.into_string()),
            Event::Html(t) => MdEvent::Html(t.into_string()),
            Event::Start(tag) => MdEvent::Start(tag_kind(&tag)),
            Event::End(tag) => MdEvent::End(tag_end_kind(&tag)),
            _ => MdEvent::Other,
        });
    }
    events
}

} // verus!
