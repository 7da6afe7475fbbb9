//! What holds of every run of the exchange: results come out in the order
//! of the requests, a lost answer costs its own request only, and the
//! evaluator is terminated once.

use vstd::prelude::*;
use crate::codec::decode_text;
use crate::syntax::valid_path;
use crate::syntax_laws::{lemma_expr_single_line, single_line};
use crate::value::ValueView;
use crate::worker::{request_line, settle, step_spec, ActionView, EventView, PhaseView};
use crate::syntax::expr;

verus! {

/// The phase after a sequence of events, and the actions taken on the way.
pub open spec fn run(phase: PhaseView, events: Seq<EventView>) -> (PhaseView, Seq<ActionView>)
    decreases events.len(),
{
    if events.len() == 0 {
        (phase, Seq::empty())
    } else {
        let (next, action) = step_spec(phase, events[0]);
        let (last, actions) = run(next, events.drop_first());
        (last, seq![action] + actions)
    }
}

/// The results handed on by a sequence of actions, in order.
pub open spec fn emitted(actions: Seq<ActionView>) -> Seq<(Seq<Seq<char>>, ValueView)>
    decreases actions.len(),
{
    if actions.len() == 0 {
        Seq::empty()
    } else {
        match actions[0] {
            ActionView::Emit(p, v) => seq![(p, v)] + emitted(actions.drop_first()),
            _ => emitted(actions.drop_first()),
        }
    }
}

/// The texts written by a sequence of actions, in order.
pub open spec fn written(actions: Seq<ActionView>) -> Seq<Seq<char>>
    decreases actions.len(),
{
    if actions.len() == 0 {
        Seq::empty()
    } else {
        match actions[0] {
            ActionView::Write(t) => seq![t] + written(actions.drop_first()),
            _ => written(actions.drop_first()),
        }
    }
}

/// How often a sequence of actions terminates the evaluator.
pub open spec fn kills(actions: Seq<ActionView>) -> nat
    decreases actions.len(),
{
    if actions.len() == 0 {
        0
    } else if actions[0] is Kill {
        1 + kills(actions.drop_first())
    } else {
        kills(actions.drop_first())
    }
}

/// One request and what the evaluator does with it: the line it answers,
/// or nothing that could be read.
pub struct Exchange {
    pub path: Seq<Seq<char>>,
    pub answer: Option<Seq<char>>,
}

/// What the driver reports while one request is served.
pub open spec fn exchange_events(x: Exchange) -> Seq<EventView> {
    seq![
        EventView::Request(x.path),
        EventView::Written,
        match x.answer {
            Some(line) => EventView::Line(line),
            None => EventView::ReadFailed,
        },
    ]
}

/// What the driver reports while a sequence of requests is served, one
/// after the other.
pub open spec fn session_events(xs: Seq<Exchange>) -> Seq<EventView>
    decreases xs.len(),
{
    if xs.len() == 0 {
        Seq::empty()
    } else {
        exchange_events(xs[0]) + session_events(xs.drop_first())
    }
}

/// The results owed for a sequence of requests: one for each request whose
/// answer is read and decodes, in the order of the requests.
pub open spec fn session_results(xs: Seq<Exchange>) -> Seq<(Seq<Seq<char>>, ValueView)>
    decreases xs.len(),
{
    if xs.len() == 0 {
        Seq::empty()
    } else {
        let rest = session_results(xs.drop_first());
        match xs[0].answer {
            Some(line) => match decode_text(line) {
                Ok(v) => seq![(xs[0].path, v)] + rest,
                Err(_) => rest,
            },
            None => rest,
        }
    }
}

/// The request lines owed for a sequence of requests.
pub open spec fn session_lines(xs: Seq<Exchange>) -> Seq<Seq<char>>
    decreases xs.len(),
{
    if xs.len() == 0 {
        Seq::empty()
    } else {
        seq![request_line(xs[0].path)] + session_lines(xs.drop_first())
    }
}

/// A run over two sequences of events is the run over the first, continued
/// by the run over the second.
pub proof fn lemma_run_concat(phase: PhaseView, first: Seq<EventView>, second: Seq<EventView>)
    ensures
        run(phase, first + second) == (
            run(run(phase, first).0, second).0,
            run(phase, first).1 + run(run(phase, first).0, second).1,
        ),
    decreases first.len(),
{
    if first.len() > 0 {
        let (next, action) = step_spec(phase, first[0]);
        assert((first + second).drop_first() =~= first.drop_first() + second);
        lemma_run_concat(next, first.drop_first(), second);
    }
}

/// The results of two sequences of actions, one after the other.
pub proof fn lemma_emitted_concat(first: Seq<ActionView>, second: Seq<ActionView>)
    ensures
        emitted(first + second) == emitted(first) + emitted(second),
    decreases first.len(),
{
    if first.len() > 0 {
        assert((first + second).drop_first() =~= first.drop_first() + second);
        lemma_emitted_concat(first.drop_first(), second);
        match first[0] {
            ActionView::Emit(p, v) => {
                assert(seq![(p, v)] + (emitted(first.drop_first()) + emitted(second)) =~= (seq![
                    (p, v),
                ] + emitted(first.drop_first())) + emitted(second));
            },
            _ => {},
        }
    }
}

/// The texts written by two sequences of actions, one after the other.
pub proof fn lemma_written_concat(first: Seq<ActionView>, second: Seq<ActionView>)
    ensures
        written(first + second) == written(first) + written(second),
    decreases first.len(),
{
    if first.len() > 0 {
        assert((first + second).drop_first() =~= first.drop_first() + second);
        lemma_written_concat(first.drop_first(), second);
        match first[0] {
            ActionView::Write(t) => {
                assert(seq![t] + (written(first.drop_first()) + written(second)) =~= (seq![t]
                    + written(first.drop_first())) + written(second));
            },
            _ => {},
        }
    }
}

/// The result owed for one request: one if its answer is read and decodes.
pub open spec fn exchange_result(x: Exchange) -> Seq<(Seq<Seq<char>>, ValueView)> {
    match x.answer {
        Some(line) => match decode_text(line) {
            Ok(v) => seq![(x.path, v)],
            Err(_) => Seq::empty(),
        },
        None => Seq::empty(),
    }
}

/// Serving one request from the idle phase: the request line is written,
/// one line is read, the result is handed on or the request given up, and
/// the host is idle again.
pub proof fn lemma_one_exchange(x: Exchange)
    ensures
        run(PhaseView::Idle, exchange_events(x)).0 == PhaseView::Idle,
        run(PhaseView::Idle, exchange_events(x)).1 == seq![
            ActionView::Write(request_line(x.path)),
            ActionView::Read,
            step_spec(PhaseView::Reading(x.path), exchange_events(x)[2]).1,
        ],
        emitted(run(PhaseView::Idle, exchange_events(x)).1) == exchange_result(x),
        written(run(PhaseView::Idle, exchange_events(x)).1) == seq![request_line(x.path)],
{
    let events = exchange_events(x);
    let e1 = events.drop_first();
    let e2 = e1.drop_first();
    let a2 = run(PhaseView::Reading(x.path), e2).1;
    let a1 = run(PhaseView::Writing(x.path), e1).1;
    let a0 = run(PhaseView::Idle, events).1;
    assert(run(PhaseView::Idle, e2.drop_first()).1 =~= Seq::<ActionView>::empty());
    assert(a0.drop_first() =~= a1);
    assert(a1.drop_first() =~= a2);
    assert(emitted(a2.drop_first()) =~= Seq::<(Seq<Seq<char>>, ValueView)>::empty());
    assert(emitted(a1) =~= emitted(a2));
    assert(written(a2.drop_first()) =~= Seq::<Seq<char>>::empty());
    assert(written(a1) =~= written(a2));
}

/// Results come out in the order of the requests, and a request whose
/// answer is lost or malformed costs only its own result: when requests
/// are served one after the other from the idle phase, the results handed
/// on are exactly those of the requests whose answers decode, in the order
/// in which the requests came; the lines written are the request lines in
/// that same order; and the host ends idle.
pub proof fn lemma_session_in_order(xs: Seq<Exchange>)
    ensures
        run(PhaseView::Idle, session_events(xs)).0 == PhaseView::Idle,
        emitted(run(PhaseView::Idle, session_events(xs)).1) == session_results(xs),
        written(run(PhaseView::Idle, session_events(xs)).1) == session_lines(xs),
    decreases xs.len(),
{
    if xs.len() > 0 {
        let head = exchange_events(xs[0]);
        let tail = session_events(xs.drop_first());
        lemma_session_in_order(xs.drop_first());
        lemma_one_exchange(xs[0]);
        lemma_run_concat(PhaseView::Idle, head, tail);
        let first = run(PhaseView::Idle, head).1;
        let rest = run(PhaseView::Idle, tail).1;
        lemma_emitted_concat(first, rest);
        lemma_written_concat(first, rest);
    }
}

/// Once the exchange is closed it stays closed, and nothing more is done.
pub proof fn lemma_closed_is_final(events: Seq<EventView>)
    ensures
        run(PhaseView::Closed, events).0 == PhaseView::Closed,
        kills(run(PhaseView::Closed, events).1) == 0,
        emitted(run(PhaseView::Closed, events).1) == Seq::<(Seq<Seq<char>>, ValueView)>::empty(),
        written(run(PhaseView::Closed, events).1) == Seq::<Seq<char>>::empty(),
    decreases events.len(),
{
    if events.len() > 0 {
        lemma_closed_is_final(events.drop_first());
        let actions = run(PhaseView::Closed, events).1;
        assert(actions.drop_first() =~= run(PhaseView::Closed, events.drop_first()).1);
    }
}

/// The evaluator is terminated once: whatever the driver reports, a run
/// terminates the evaluator exactly once if it closes the exchange, and
/// never otherwise.
pub proof fn lemma_killed_once(phase: PhaseView, events: Seq<EventView>)
    ensures
        kills(run(phase, events).1) == if !(phase is Closed) && run(phase, events).0 is Closed {
            1nat
        } else {
            0nat
        },
    decreases events.len(),
{
    if events.len() > 0 {
        let (next, action) = step_spec(phase, events[0]);
        let actions = run(phase, events).1;
        assert(actions.drop_first() =~= run(next, events.drop_first()).1);
        if phase is Closed {
            lemma_closed_is_final(events);
        } else if next is Closed {
            lemma_closed_is_final(events.drop_first());
        } else {
            lemma_killed_once(next, events.drop_first());
        }
    }
}

/// A failed write closes the exchange at once: the evaluator is terminated,
/// and the request is neither answered nor followed by another.
pub proof fn lemma_write_failure_closes(p: Seq<Seq<char>>, events: Seq<EventView>)
    ensures
        step_spec(PhaseView::Writing(p), EventView::WriteFailed) == (
            PhaseView::Closed,
            ActionView::Kill,
        ),
        run(PhaseView::Writing(p), seq![EventView::WriteFailed] + events).0 == PhaseView::Closed,
        kills(run(PhaseView::Writing(p), seq![EventView::WriteFailed] + events).1) == 1,
        emitted(run(PhaseView::Writing(p), seq![EventView::WriteFailed] + events).1) == Seq::<
            (Seq<Seq<char>>, ValueView),
        >::empty(),
{
    let all = seq![EventView::WriteFailed] + events;
    assert(all.drop_first() =~= events);
    lemma_closed_is_final(events);
    lemma_killed_once(PhaseView::Writing(p), all);
    let actions = run(PhaseView::Writing(p), all).1;
    assert(actions.drop_first() =~= run(PhaseView::Closed, events).1);
}

/// How many requests a sequence of actions leaves written and not settled:
/// a write opens a request; handing on its result or giving it up
/// settles it.
pub open spec fn unsettled(actions: Seq<ActionView>) -> int
    decreases actions.len(),
{
    if actions.len() == 0 {
        0
    } else {
        unsettled(actions.drop_first()) + match actions[0] {
            ActionView::Write(_) => 1int,
            ActionView::Emit(_, _) => -1int,
            ActionView::Drop(_, _) => -1int,
            _ => 0int,
        }
    }
}

/// Once the exchange is closed, no request is written or settled.
pub proof fn lemma_closed_is_quiet(events: Seq<EventView>)
    ensures
        unsettled(run(PhaseView::Closed, events).1) == 0,
    decreases events.len(),
{
    if events.len() > 0 {
        lemma_closed_is_quiet(events.drop_first());
        let actions = run(PhaseView::Closed, events).1;
        assert(actions.drop_first() =~= run(PhaseView::Closed, events.drop_first()).1);
    }
}

/// How many requests a phase holds in flight: one or none.
pub open spec fn in_flight(phase: PhaseView) -> int {
    match phase {
        PhaseView::Writing(_) => 1,
        PhaseView::Reading(_) => 1,
        _ => 0,
    }
}

/// Whatever the driver reports, the requests written and not settled,
/// together with the one in flight at the start, are one at most, and no
/// request is settled that was not written.
pub proof fn lemma_one_in_flight(phase: PhaseView, events: Seq<EventView>)
    ensures
        0 <= in_flight(phase) + unsettled(run(phase, events).1) <= 1,
    decreases events.len(),
{
    if events.len() > 0 {
        let (next, action) = step_spec(phase, events[0]);
        let actions = run(phase, events).1;
        assert(actions.drop_first() =~= run(next, events.drop_first()).1);
        lemma_one_in_flight(next, events.drop_first());
        assert(in_flight(phase) + match action {
            ActionView::Write(_) => 1int,
            ActionView::Emit(_, _) => -1int,
            ActionView::Drop(_, _) => -1int,
            _ => 0int,
        } == in_flight(next) || next is Closed);
        if next is Closed {
            lemma_closed_is_quiet(events.drop_first());
        }
    }
}

/// Requests are served one at a time: in every run from the idle phase, at
/// every moment, at most one request has been written and not settled.
pub proof fn lemma_single_flight(events: Seq<EventView>, moment: int)
    requires
        0 <= moment <= events.len(),
    ensures
        0 <= unsettled(run(PhaseView::Idle, events.take(moment)).1) <= 1,
{
    lemma_one_in_flight(PhaseView::Idle, events.take(moment));
}

/// A request is one line: its text ends in a line feed and holds no other
/// line break.
pub proof fn lemma_request_is_one_line(p: Seq<Seq<char>>)
    requires
        valid_path(p),
    ensures
        request_line(p).last() == '\n',
        single_line(request_line(p).drop_last()),
{
    lemma_expr_single_line(p);
}

} // verus!
