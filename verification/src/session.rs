//! The mathematical model of an autoregressive generation session, and the
//! verified text step it is built from.
//!
//! A session is a fold over the events the native sampler produces: either an
//! end-of-generation signal or a text fragment. A fragment is appended to the
//! accumulated output; if the output then ends with one of the configured
//! stop sequences, the first such sequence (in configured order) is trimmed
//! off and the session halts. An end-of-generation signal halts the session
//! with the output unchanged.

use vstd::prelude::*;

use crate::text::seq_ends_with;
use crate::text::str_ends_with;

verus! {

use vstd::string::StrSliceExecFns;
use vstd::string::StringExecFns;

/// One observed step of the decode loop.
pub enum StepEvent {
    /// The sampler drew an end-of-generation token.
    Eos,
    /// The sampler drew a token that decodes to this text fragment.
    Fragment(Seq<char>),
}

/// The index of the first stop sequence at `j` or later that `acc` ends
/// with, if any.
pub open spec fn first_stop_from(acc: Seq<char>, stops: Seq<Seq<char>>, j: int) -> Option<int>
    decreases stops.len() - j,
{
    if j < 0 || j >= stops.len() {
        None
    } else if seq_ends_with(acc, stops[j]) {
        Some(j)
    } else {
        first_stop_from(acc, stops, j + 1)
    }
}

/// The index of the first configured stop sequence that `acc` ends with.
pub open spec fn first_stop(acc: Seq<char>, stops: Seq<Seq<char>>) -> Option<int> {
    first_stop_from(acc, stops, 0)
}

/// The output after appending `frag` to `acc` and trimming a matched stop
/// sequence, if one matched.
pub open spec fn step_text(acc: Seq<char>, frag: Seq<char>, stops: Seq<Seq<char>>) -> Seq<char> {
    let grown = acc + frag;
    match first_stop(grown, stops) {
        Some(j) => grown.take(grown.len() - stops[j].len()),
        None => grown,
    }
}

/// Whether appending `frag` makes the output end with a stop sequence, which
/// halts the session.
pub open spec fn step_halts(acc: Seq<char>, frag: Seq<char>, stops: Seq<Seq<char>>) -> bool {
    first_stop(acc + frag, stops) is Some
}

/// The accumulated output after a session starting from `acc` consumes
/// `events`. A halting event ends the session; nothing after it is consumed.
pub open spec fn run_text(acc: Seq<char>, events: Seq<StepEvent>, stops: Seq<Seq<char>>) -> Seq<
    char,
>
    decreases events.len(),
{
    if events.len() == 0 {
        acc
    } else {
        match events[0] {
            StepEvent::Eos => acc,
            StepEvent::Fragment(f) => {
                if step_halts(acc, f, stops) {
                    step_text(acc, f, stops)
                } else {
                    run_text(step_text(acc, f, stops), events.drop_first(), stops)
                }
            },
        }
    }
}

/// Whether some event of the trace halts the session.
pub open spec fn run_halts(acc: Seq<char>, events: Seq<StepEvent>, stops: Seq<Seq<char>>) -> bool
    decreases events.len(),
{
    if events.len() == 0 {
        false
    } else {
        match events[0] {
            StepEvent::Eos => true,
            StepEvent::Fragment(f) => step_halts(acc, f, stops) || run_halts(
                step_text(acc, f, stops),
                events.drop_first(),
                stops,
            ),
        }
    }
}

/// A trace the decode loop can produce: only its last event may halt the
/// session.
pub open spec fn trace_wf(acc: Seq<char>, events: Seq<StepEvent>, stops: Seq<Seq<char>>) -> bool
    decreases events.len(),
{
    events.len() == 0 || {
        match events[0] {
            StepEvent::Eos => events.len() == 1,
            StepEvent::Fragment(f) => {
                if step_halts(acc, f, stops) {
                    events.len() == 1
                } else {
                    trace_wf(step_text(acc, f, stops), events.drop_first(), stops)
                }
            },
        }
    }
}

/// How a non-halting trace grows by one event: the new event lands on the
/// text accumulated so far, and alone decides whether the session halts.
pub proof fn lemma_run_snoc(
    acc: Seq<char>,
    events: Seq<StepEvent>,
    e: StepEvent,
    stops: Seq<Seq<char>>,
)
    requires
        !run_halts(acc, events, stops),
    ensures
        trace_wf(acc, events, stops) ==> trace_wf(acc, events.push(e), stops),
        run_text(acc, events.push(e), stops) == (match e {
            StepEvent::Eos => run_text(acc, events, stops),
            StepEvent::Fragment(f) => step_text(run_text(acc, events, stops), f, stops),
        }),
        run_halts(acc, events.push(e), stops) == (match e {
            StepEvent::Eos => true,
            StepEvent::Fragment(f) => step_halts(run_text(acc, events, stops), f, stops),
        }),
    decreases events.len(),
{
    if events.len() == 0 {
        let one = events.push(e);
        assert(one.len() == 1);
        assert(one[0] == e);
        assert(one.drop_first() =~= Seq::<StepEvent>::empty());
        assert(run_text(acc, events, stops) == acc);
        match e {
            StepEvent::Eos => {
                assert(trace_wf(acc, one, stops));
                assert(run_text(acc, one, stops) == acc);
                assert(run_halts(acc, one, stops));
            },
            StepEvent::Fragment(f) => {
                assert(run_halts(step_text(acc, f, stops), one.drop_first(), stops) == false);
                assert(run_halts(acc, one, stops) == step_halts(acc, f, stops));
                if step_halts(acc, f, stops) {
                    assert(trace_wf(acc, one, stops));
                    assert(run_text(acc, one, stops) == step_text(acc, f, stops));
                } else {
                    assert(trace_wf(step_text(acc, f, stops), one.drop_first(), stops));
                    assert(trace_wf(acc, one, stops));
                    assert(run_text(acc, one, stops) == run_text(
                        step_text(acc, f, stops),
                        one.drop_first(),
                        stops,
                    ));
                    assert(run_text(acc, one, stops) == step_text(acc, f, stops));
                }
            },
        }
    } else {
        match events[0] {
            StepEvent::Eos => {
                assert(run_halts(acc, events, stops));
            },
            StepEvent::Fragment(f) => {
                let acc2 = step_text(acc, f, stops);
                lemma_run_snoc(acc2, events.drop_first(), e, stops);
                assert(events.push(e)[0] == events[0]);
                assert(events.push(e).drop_first() =~= events.drop_first().push(e));
            },
        }
    }
}

/// Law: a session that meets an end-of-generation signal halts there with
/// the output it had accumulated; the signal itself adds nothing, and
/// nothing after it is consumed.
pub proof fn lemma_eos_ends_session(acc: Seq<char>, events: Seq<StepEvent>, stops: Seq<Seq<char>>)
    requires
        trace_wf(acc, events, stops),
        events.len() > 0,
        events.last() is Eos,
    ensures
        run_halts(acc, events, stops),
        run_text(acc, events, stops) == run_text(acc, events.drop_last(), stops),
    decreases events.len(),
{
    if events.len() == 1 {
        assert(events[0] == events.last());
        assert(events.drop_last() =~= Seq::<StepEvent>::empty());
    } else {
        match events[0] {
            StepEvent::Eos => {
                assert(events.len() == 1);
            },
            StepEvent::Fragment(f) => {
                if step_halts(acc, f, stops) {
                    assert(events.len() == 1);
                } else {
                    let acc2 = step_text(acc, f, stops);
                    let rest = events.drop_first();
                    assert(rest.last() == events.last());
                    lemma_eos_ends_session(acc2, rest, stops);
                    assert(events.drop_last()[0] == events[0]);
                    assert(events.drop_last().drop_first() =~= rest.drop_last());
                }
            },
        }
    }
}

proof fn lemma_first_stop_found(acc: Seq<char>, stops: Seq<Seq<char>>, i: int, j: int)
    requires
        first_stop_from(acc, stops, i) == Some(j),
        0 <= i,
    ensures
        i <= j < stops.len(),
        seq_ends_with(acc, stops[j]),
        forall|k: int| i <= k < j ==> !seq_ends_with(acc, stops[k]),
    decreases stops.len() - i,
{
    if i < stops.len() && !seq_ends_with(acc, stops[i]) {
        lemma_first_stop_found(acc, stops, i + 1, j);
    }
}

proof fn lemma_first_stop_missing(acc: Seq<char>, stops: Seq<Seq<char>>, i: int)
    requires
        first_stop_from(acc, stops, i) is None,
        0 <= i,
    ensures
        forall|k: int| i <= k < stops.len() ==> !seq_ends_with(acc, stops[k]),
    decreases stops.len() - i,
{
    if i < stops.len() && !seq_ends_with(acc, stops[i]) {
        lemma_first_stop_missing(acc, stops, i + 1);
    }
}

/// Law: when a fragment makes the output end with a configured stop
/// sequence, the first such sequence (in configured order) is the one
/// matched; exactly that suffix is trimmed, and the session halts.
pub proof fn lemma_stop_sequence_trims(
    acc: Seq<char>,
    frag: Seq<char>,
    stops: Seq<Seq<char>>,
    j: int,
)
    requires
        first_stop(acc + frag, stops) == Some(j),
    ensures
        0 <= j < stops.len(),
        seq_ends_with(acc + frag, stops[j]),
        forall|k: int| 0 <= k < j ==> !seq_ends_with(acc + frag, stops[k]),
        step_halts(acc, frag, stops),
        step_text(acc, frag, stops) == (acc + frag).take((acc + frag).len() - stops[j].len()),
{
    lemma_first_stop_found(acc + frag, stops, 0, j);
}

/// Finds the first configured stop sequence that `out` ends with.
pub fn find_stop(out: &String, stops: &Vec<String>) -> (r: Option<usize>)
    ensures
        match r {
            Some(j) => j < stops@.len() && first_stop(out@, stops.deep_view()) == Some(j as int),
            None => first_stop(out@, stops.deep_view()) is None,
        },
{
    let ghost sv = stops.deep_view();
    let mut j: usize = 0;
    while j < stops.len()
        invariant
            j <= stops@.len(),
            sv == stops.deep_view(),
            sv.len() == stops@.len(),
            forall|k: int| 0 <= k < j ==> !seq_ends_with(out@, sv[k]),
        decreases stops@.len() - j,
    {
        proof {
            assert(stops.deep_view()[j as int] == stops@[j as int]@);
        }
        if str_ends_with(out.as_str(), stops[j].as_str()) {
            proof {
                lemma_first_stop_chain(out@, sv, j as int);
            }
            return Some(j);
        }
        j += 1;
    }
    proof {
        lemma_first_stop_chain(out@, sv, j as int);
    }
    None
}

proof fn lemma_first_stop_chain(acc: Seq<char>, stops: Seq<Seq<char>>, j: int)
    requires
        0 <= j <= stops.len(),
        forall|k: int| 0 <= k < j ==> !seq_ends_with(acc, stops[k]),
    ensures
        first_stop(acc, stops) == first_stop_from(acc, stops, j),
    decreases j,
{
    if j > 0 {
        lemma_first_stop_chain(acc, stops, j - 1);
    }
}

/// Appends a fragment to the accumulated output, trims the first matched
/// stop sequence if the output now ends with one, and reports whether the
/// session halts here.
pub fn session_push(out: &mut String, frag: &str, stops: &Vec<String>) -> (halted: bool)
    ensures
        final(out)@ == step_text(old(out)@, frag@, stops.deep_view()),
        halted == step_halts(old(out)@, frag@, stops.deep_view()),
{
    out.append(frag);
    let matched = find_stop(out, stops);
    match matched {
        Some(j) => {
            proof {
                lemma_stop_sequence_trims(old(out)@, frag@, stops.deep_view(), j as int);
                assert(stops.deep_view()[j as int] == stops@[j as int]@);
            }
            let m = stops[j].as_str().unicode_len();
            let n = out.as_str().unicode_len();
            let trimmed = String::from_str(out.as_str().substring_char(0, n - m));
            proof {
                assert(trimmed@ =~= step_text(old(out)@, frag@, stops.deep_view()));
            }
            *out = trimmed;
            true
        },
        None => false,
    }
}

} // verus!
