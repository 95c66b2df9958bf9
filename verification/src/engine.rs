use vstd::prelude::*;

use crate::events::EventModel;
use crate::events::MdEvent;
use crate::events::events_view;
use crate::html::html_text;
use crate::html::html_text_pieces;
use crate::html::strings_view;
use crate::markdown::md_events;
use crate::markdown::parse_markdown;
use crate::options::Options;
use crate::segment::count_words;
use crate::segment::word_count;
use crate::state::State;
use crate::state::StateModel;

verus! {

/// The sum of the word counts of a sequence of text fragments.
pub open spec fn words_total(ts: Seq<Seq<char>>) -> nat
    decreases ts.len(),
{
    if ts.len() == 0 {
        0
    } else {
        word_count(ts[0]) + words_total(ts.skip(1))
    }
}

/// What one event contributes to the total, given the currently open regions
/// and the options. Text is gated by the whole context; inline code and
/// block HTML are leaf content, gated by their own toggles alone; start and
/// end events and inert events contribute nothing.
pub open spec fn contribution(e: EventModel, s: StateModel, o: Options) -> nat {
    match e {
        EventModel::Text(t) => if s.allowed(o) {
            word_count(t)
        } else {
            0
        },
        EventModel::InlineCode(t) => if o.inline_code {
            word_count(t)
        } else {
            0
        },
        EventModel::Html(h) => if o.block_html {
            words_total(html_text(h))
        } else {
            0
        },
        EventModel::Start(_) => 0,
        EventModel::End(_) => 0,
        EventModel::Other => 0,
    }
}

/// The state transition one event makes.
pub open spec fn step(s: StateModel, e: EventModel) -> StateModel {
    match e {
        EventModel::Start(k) => s.step_start(k),
        EventModel::End(k) => s.step_end(k),
        _ => s,
    }
}

/// The state after a whole event sequence, starting from `s`.
pub open spec fn state_after(es: Seq<EventModel>, s: StateModel) -> StateModel
    decreases es.len(),
{
    if es.len() == 0 {
        s
    } else {
        state_after(es.skip(1), step(s, es[0]))
    }
}

/// The total over an event sequence, starting from state `s`.
pub open spec fn counted_from(es: Seq<EventModel>, s: StateModel, o: Options) -> nat
    decreases es.len(),
{
    if es.len() == 0 {
        0
    } else {
        contribution(es[0], s, o) + counted_from(es.skip(1), step(s, es[0]), o)
    }
}

/// The total over a whole document's event stream, from the initial state.
pub open spec fn counted(es: Seq<EventModel>, o: Options) -> nat {
    counted_from(es, StateModel::init(), o)
}

/// A mathematical total squeezed into the result type. Reaching the clamp
/// would take a document of more than `u64::MAX` words.
pub open spec fn clamp(n: nat) -> nat {
    if n <= u64::MAX {
        n
    } else {
        u64::MAX as nat
    }
}

/// The word count of a document under the given options: the total over the
/// events the Markdown parser yields for it.
pub open spec fn doc_count(text: Seq<char>, o: Options) -> nat {
    clamp(counted(md_events(text), o))
}

proof fn lemma_state_after_push(es: Seq<EventModel>, s: StateModel, e: EventModel)
    ensures
        state_after(es.push(e), s) == step(state_after(es, s), e),
    decreases es.len(),
{
    if es.len() == 0 {
        reveal_with_fuel(state_after, 2);
        assert(es.push(e)[0] == e);
        assert(es.push(e).skip(1) =~= Seq::<EventModel>::empty());
    } else {
        assert(es.push(e)[0] == es[0]);
        assert(es.push(e).skip(1) =~= es.skip(1).push(e));
        lemma_state_after_push(es.skip(1), step(s, es[0]), e);
    }
}

proof fn lemma_counted_from_push(es: Seq<EventModel>, s: StateModel, o: Options, e: EventModel)
    ensures
        counted_from(es.push(e), s, o) == counted_from(es, s, o) + contribution(
            e,
            state_after(es, s),
            o,
        ),
    decreases es.len(),
{
    if es.len() == 0 {
        reveal_with_fuel(counted_from, 2);
        reveal_with_fuel(state_after, 2);
        assert(es.push(e)[0] == e);
        assert(es.push(e).skip(1) =~= Seq::<EventModel>::empty());
    } else {
        assert(es.push(e)[0] == es[0]);
        assert(es.push(e).skip(1) =~= es.skip(1).push(e));
        lemma_counted_from_push(es.skip(1), step(s, es[0]), o, e);
    }
}

proof fn lemma_words_total_push(ts: Seq<Seq<char>>, t: Seq<char>)
    ensures
        words_total(ts.push(t)) == words_total(ts) + word_count(t),
    decreases ts.len(),
{
    if ts.len() == 0 {
        reveal_with_fuel(words_total, 2);
        assert(ts.push(t)[0] == t);
        assert(ts.push(t).skip(1) =~= Seq::<Seq<char>>::empty());
    } else {
        assert(ts.push(t)[0] == ts[0]);
        assert(ts.push(t).skip(1) =~= ts.skip(1).push(t));
        lemma_words_total_push(ts.skip(1), t);
    }
}

/// Each event raises the blockquote depth by at most one, so the depth after
/// a stream is bounded by its length.
proof fn lemma_depth_bound(es: Seq<EventModel>, s: StateModel)
    ensures
        state_after(es, s).blockquote_depth <= s.blockquote_depth + es.len(),
    decreases es.len(),
{
    if es.len() > 0 {
        lemma_depth_bound(es.skip(1), step(s, es[0]));
    }
}

proof fn lemma_clamp_add(a: nat, w: nat)
    requires
        w <= u64::MAX,
    ensures
        clamp((clamp(a) + w) as nat) == clamp(a + w),
{
}

/// Add a word count to a clamped running total, keeping it clamped.
fn add_clamped(total: u64, more: u64, Ghost(t): Ghost<nat>) -> (r: u64)
    requires
        total as nat == clamp(t),
    ensures
        r as nat == clamp((t + more) as nat),
{
    proof {
        lemma_clamp_add(t, more as nat);
    }
    if total > u64::MAX - more {
        u64::MAX
    } else {
        total + more
    }
}

/// Count the words of a Markdown document, using the supplied [`Options`].
///
/// One ordered pass over the document's event stream: structural events move
/// the context state, text-bearing events add their word count when the
/// current context and the options admit them, and everything else is
/// skipped.
pub fn count_with_options(text: &str, options: Options) -> (r: u64)
    ensures
        r as nat == doc_count(text@, options),
{
    let events: Vec<MdEvent> = parse_markdown(text);
    let ghost evs: Seq<EventModel> = events_view(events@);
    let mut state = State::new();
    let mut total: u64 = 0;
    let mut i: usize = 0;
    while i < events.len()
        invariant
            i <= events.len(),
            evs == events_view(events@),
            evs == md_events(text@),
            state@ == state_after(evs.take(i as int), StateModel::init()),
            total as nat == clamp(counted_from(evs.take(i as int), StateModel::init(), options)),
        decreases events.len() - i,
    {
        let ghost prefix = evs.take(i as int);
        let ghost before = state@;
        let ghost sofar = counted_from(prefix, StateModel::init(), options);
        proof {
            assert(evs[i as int] == events@[i as int]@);
            assert(prefix.push(evs[i as int]) =~= evs.take(i + 1));
            lemma_state_after_push(prefix, StateModel::init(), evs[i as int]);
            lemma_counted_from_push(prefix, StateModel::init(), options, evs[i as int]);
        }
        let ev = &events[i];
        match ev {
            MdEvent::Text(t) => {
                if state.allowed_for(&options) {
                    let words = count_words(t.as_str());
                    total = add_clamped(total, words, Ghost(sofar));
                }
            }
            MdEvent::InlineCode(t) => {
                if options.inline_code {
                    let words = count_words(t.as_str());
                    total = add_clamped(total, words, Ghost(sofar));
                }
            }
            MdEvent::Html(h) => {
                if options.block_html {
                    let pieces: Vec<String> = html_text_pieces(h.as_str());
                    let ghost ptexts = html_text(h@);
                    let mut j: usize = 0;
                    while j < pieces.len()
                        invariant
                            j <= pieces.len(),
                            strings_view(pieces@) == ptexts,
                            total as nat == clamp((sofar + words_total(ptexts.take(j as int))) as nat),
                        decreases pieces.len() - j,
                    {
                        proof {
                            assert(ptexts[j as int] == pieces@[j as int]@);
                            assert(ptexts.take(j as int).push(ptexts[j as int]) =~= ptexts.take(
                                j + 1,
                            ));
                            lemma_words_total_push(ptexts.take(j as int), ptexts[j as int]);
                        }
                        let words = count_words(pieces[j].as_str());
                        total = add_clamped(
                            total,
                            words,
                            Ghost((sofar + words_total(ptexts.take(j as int))) as nat),
                        );
                        j = j + 1;
                    }
                    proof {
                        assert(ptexts.take(pieces@.len() as int) =~= ptexts);
                    }
                }
            }
            MdEvent::Start(k) => {
                proof {
                    lemma_depth_bound(prefix, StateModel::init());
                }
                state.start_tag(*k);
            }
            MdEvent::End(k) => {
                state.end_tag(*k);
            }
            MdEvent::Other => {}
        }
        i = i + 1;
    }
    proof {
        assert(evs.take(events@.len() as int) =~= evs);
    }
    total
}

/// Count the words of a Markdown document, using the default [`Options`].
pub fn count(text: &str) -> (r: u64)
    ensures
        r as nat == doc_count(text@, Options::spec_default()),
{
    count_with_options(text, Options::default())
}

} // verus!
