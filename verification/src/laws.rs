use vstd::prelude::*;

use crate::engine::contribution;
use crate::engine::counted;
use crate::engine::counted_from;
use crate::engine::doc_count;
use crate::engine::step;
use crate::events::EventModel;
use crate::events::TagKind;
use crate::options::Options;
use crate::segment::word_count;
use crate::state::StateModel;

verus! {

/// An event that carries no gated content and makes no transition: a text
/// node, an inert event, or the start or end of an untracked construct. A
/// document with no structural markers yields only such events.
pub open spec fn is_plain(e: EventModel) -> bool {
    match e {
        EventModel::Text(_) => true,
        EventModel::Other => true,
        EventModel::Start(k) => k == TagKind::Other,
        EventModel::End(k) => k == TagKind::Other,
        EventModel::InlineCode(_) => false,
        EventModel::Html(_) => false,
    }
}

/// The word segmenter's count over the raw text of a stream: the sum of the
/// word counts of its text events.
pub open spec fn text_words(es: Seq<EventModel>) -> nat
    decreases es.len(),
{
    if es.len() == 0 {
        0
    } else {
        (match es[0] {
            EventModel::Text(t) => word_count(t),
            _ => 0,
        }) + text_words(es.skip(1))
    }
}

proof fn lemma_plain_counted_from(es: Seq<EventModel>, o: Options)
    requires
        forall|i: int| 0 <= i < es.len() ==> is_plain(es[i]),
    ensures
        counted_from(es, StateModel::init(), o) == text_words(es),
    decreases es.len(),
{
    if es.len() > 0 {
        assert(is_plain(es[0]));
        assert(step(StateModel::init(), es[0]) == StateModel::init());
        assert forall|i: int| 0 <= i < es.skip(1).len() implies is_plain(es.skip(1)[i]) by {
            assert(es.skip(1)[i] == es[i + 1]);
        }
        lemma_plain_counted_from(es.skip(1), o);
    }
}

/// A stream with no structural markers counts as its raw text: every text
/// event contributes its full word count, nothing else contributes, and the
/// options play no part.
pub proof fn lemma_plain_stream_counts_raw_text(es: Seq<EventModel>, o: Options)
    requires
        forall|i: int| 0 <= i < es.len() ==> is_plain(es[i]),
    ensures
        counted(es, o) == text_words(es),
{
    lemma_plain_counted_from(es, o);
}

/// Independence from the options on unstructured input: two configurations
/// give one and the same total over a stream with no structural markers.
pub proof fn lemma_plain_stream_independent(es: Seq<EventModel>, o1: Options, o2: Options)
    requires
        forall|i: int| 0 <= i < es.len() ==> is_plain(es[i]),
    ensures
        counted(es, o1) == counted(es, o2),
{
    lemma_plain_stream_counts_raw_text(es, o1);
    lemma_plain_stream_counts_raw_text(es, o2);
}

/// Purity: the total is a function of the document and the options alone,
/// so two passes over the same pair return the same result.
pub proof fn lemma_count_deterministic(text: Seq<char>, o: Options, r1: nat, r2: nat)
    requires
        r1 == doc_count(text, o),
        r2 == doc_count(text, o),
    ensures
        r1 == r2,
{
}

proof fn lemma_contribution_monotonic(e: EventModel, s: StateModel, o1: Options, o2: Options)
    requires
        o1.le(o2),
    ensures
        contribution(e, s, o1) <= contribution(e, s, o2),
{
}

proof fn lemma_counted_from_monotonic(es: Seq<EventModel>, s: StateModel, o1: Options, o2: Options)
    requires
        o1.le(o2),
    ensures
        counted_from(es, s, o1) <= counted_from(es, s, o2),
    decreases es.len(),
{
    if es.len() > 0 {
        lemma_contribution_monotonic(es[0], s, o1, o2);
        lemma_counted_from_monotonic(es.skip(1), step(s, es[0]), o1, o2);
    }
}

/// Monotonicity: the state transitions do not read the options, and every
/// gate only opens wider as toggles are enabled, so enabling more toggles
/// never decreases the total of any stream.
pub proof fn lemma_counted_monotonic(es: Seq<EventModel>, o1: Options, o2: Options)
    requires
        o1.le(o2),
    ensures
        counted(es, o1) <= counted(es, o2),
{
    lemma_counted_from_monotonic(es, StateModel::init(), o1, o2);
}

/// Monotonicity at the document interface, through the clamp.
pub proof fn lemma_count_monotonic(text: Seq<char>, o1: Options, o2: Options)
    requires
        o1.le(o2),
    ensures
        doc_count(text, o1) <= doc_count(text, o2),
{
    lemma_counted_monotonic(crate::markdown::md_events(text), o1, o2);
}

} // verus!
