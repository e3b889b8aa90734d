//! Runs of the worker over a sequence of events, and what holds of every run
//! that its loop can produce.
use crate::reply::{failure_text, is_reply_to, Reply, EXECUTION_ERROR_CODE};
use crate::worker::{accepts, next, Action, Event, Outcome, Phase, Request, Slot};
use vstd::prelude::*;

verus! {

pub open spec fn option_seq<A>(o: Option<A>) -> Seq<A> {
    match o {
        Some(a) => seq![a],
        None => Seq::empty(),
    }
}

/// `handed` holds, in order, a reply for the slot of each answer owed, fit to
/// its outcome.
pub open spec fn replies_fit(handed: Seq<(Slot, Reply)>, owed: Seq<(Slot, Outcome)>) -> bool {
    &&& handed.len() == owed.len()
    &&& forall|i: int|
        0 <= i < handed.len() ==> (#[trigger] handed[i]).0 == owed[i].0 && is_reply_to(
            handed[i].1,
            owed[i].1,
        )
}

/// A worker that starts idle and meets `events` in turn: where it ends, the
/// actions it asked for, and the answers it owed, in order.
pub open spec fn run(events: Seq<Event>) -> (Phase, Seq<Action>, Seq<(Slot, Outcome)>)
    decreases events.len(),
{
    if events.len() == 0 {
        (Phase::Idle, Seq::empty(), Seq::empty())
    } else {
        let before = run(events.drop_last());
        let step = next(before.0, events.last());
        (step.0, before.1.push(step.1), before.2 + option_seq(step.2))
    }
}

/// Each event answers the action that the worker asked for just before: the
/// runs that a loop around the worker produces.
pub open spec fn feasible(events: Seq<Event>) -> bool
    decreases events.len(),
{
    events.len() == 0 || (feasible(events.drop_last()) && accepts(
        run(events.drop_last()).0,
        events.last(),
    ))
}

/// How many engine calls `actions` ask for.
pub open spec fn engine_calls(actions: Seq<Action>) -> nat
    decreases actions.len(),
{
    if actions.len() == 0 {
        0
    } else {
        engine_calls(actions.drop_last()) + if actions.last() is RunEngine {
            1nat
        } else {
            0nat
        }
    }
}

/// How many engine calls have returned in `events`.
pub open spec fn finished(events: Seq<Event>) -> nat
    decreases events.len(),
{
    if events.len() == 0 {
        0
    } else {
        finished(events.drop_last()) + if events.last() is EngineFinished {
            1nat
        } else {
            0nat
        }
    }
}

/// The requests taken from the queue in `events`, in order.
pub open spec fn requests(events: Seq<Event>) -> Seq<Request>
    decreases events.len(),
{
    if events.len() == 0 {
        Seq::empty()
    } else {
        match events.last() {
            Event::Dequeued(request) => requests(events.drop_last()).push(request),
            _ => requests(events.drop_last()),
        }
    }
}

/// What the engine calls returned in `events`, in order.
pub open spec fn outcomes(events: Seq<Event>) -> Seq<Outcome>
    decreases events.len(),
{
    if events.len() == 0 {
        Seq::empty()
    } else {
        match events.last() {
            Event::EngineFinished(outcome) => outcomes(events.drop_last()).push(outcome),
            _ => outcomes(events.drop_last()),
        }
    }
}

/// How many engine results the worker took in `events`: those that came
/// while a request was executing.
pub open spec fn engine_returns(events: Seq<Event>) -> nat
    decreases events.len(),
{
    if events.len() == 0 {
        0
    } else {
        engine_returns(events.drop_last()) + if run(events.drop_last()).0 is Executing
            && events.last() is EngineFinished {
            1nat
        } else {
            0nat
        }
    }
}

/// The engine is never asked to run while a call to it is outstanding,
/// whatever events the worker meets: the engine calls asked for exceed the
/// results taken by at most one, by none while the worker is idle, and by
/// one exactly while a request executes. Every prefix of a sequence of
/// events is one too, so this holds at every moment. Where each event
/// answers the action asked for, every result counts as taken.
pub proof fn lemma_engine_calls_never_overlap(events: Seq<Event>)
    ensures
        engine_returns(events) <= engine_calls(run(events).1) <= engine_returns(events) + 1,
        run(events).0 is Idle ==> engine_calls(run(events).1) == engine_returns(events),
        run(events).0 is Executing ==> engine_calls(run(events).1) == engine_returns(events) + 1,
        feasible(events) ==> engine_returns(events) == finished(events),
    decreases events.len(),
{
    if events.len() > 0 {
        let prev = events.drop_last();
        lemma_engine_calls_never_overlap(prev);
        assert(run(events).1.drop_last() =~= run(prev).1);
    }
}

/// Every request that the worker takes is answered exactly once, in the
/// order taken: the i-th answer goes to the slot of the i-th request taken
/// and reflects the i-th engine outcome. Only the request executing waits
/// for its answer, and the engine runs its very text.
pub proof fn lemma_each_request_answered_once(events: Seq<Event>)
    requires
        feasible(events),
    ensures
        run(events).2.len() == outcomes(events).len(),
        requests(events).len() == run(events).2.len() + if run(events).0 is Executing {
            1int
        } else {
            0int
        },
        forall|i: int|
            0 <= i < run(events).2.len() ==> #[trigger] run(events).2[i] == (
                requests(events)[i].slot,
                outcomes(events)[i],
            ),
        run(events).0 matches Phase::Executing(slot) ==> slot == requests(events).last().slot,
        run(events).1.len() > 0 ==> (run(events).1.last() matches Action::RunEngine(code) ==> code
            == requests(events).last().code),
    decreases events.len(),
{
    if events.len() > 0 {
        let prev = events.drop_last();
        lemma_each_request_answered_once(prev);
        let answers = run(prev).2;
        let rq = requests(events);
        let out = outcomes(events);
        assert forall|i: int| 0 <= i < run(events).2.len() implies #[trigger] run(events).2[i] == (
            rq[i].slot,
            out[i],
        ) by {
            if i < answers.len() {
                assert(run(events).2[i] == answers[i]);
                assert(rq[i] == requests(prev)[i]);
                assert(out[i] == outcomes(prev)[i]);
            }
        }
    }
}

/// Whatever events the worker meets, it owes no more answers than requests
/// it took, and a request it holds is one it has not answered; a stopped
/// worker holds no slot, so each request it took and did not answer had its
/// slot dropped, which resolves the caller with a transport error.
pub proof fn lemma_answers_never_exceed_requests(events: Seq<Event>)
    ensures
        run(events).2.len() + (if run(events).0 is Executing {
            1int
        } else {
            0int
        }) <= requests(events).len(),
    decreases events.len(),
{
    if events.len() > 0 {
        lemma_answers_never_exceed_requests(events.drop_last());
    }
}

/// Once the worker has stopped after a run that followed its protocol,
/// every request it took has its answer: only requests never taken are
/// left, and dropping them resolves their callers.
pub proof fn lemma_shutdown_leaves_none_unanswered(events: Seq<Event>)
    requires
        feasible(events),
        run(events).0 is Terminated,
    ensures
        run(events).2.len() == requests(events).len(),
{
    lemma_each_request_answered_once(events);
}

/// A success is answered with the engine's value itself, and a failure with
/// a failure payload whose code is non-zero and whose message is not empty:
/// an engine failure never reaches a caller as a transport error.
pub proof fn lemma_reply_shapes(r: Reply, outcome: Outcome)
    requires
        is_reply_to(r, outcome),
    ensures
        outcome matches Ok(v) ==> r == Reply::Value(v),
        outcome is Err ==> (r matches Reply::Failure { code, msg } && code != 0 && msg@.len() > 0),
{
    reveal_strlit("ExecutionError: ");
    if let Err(detail) = outcome {
        assert(failure_text(detail@).len() >= "ExecutionError: "@.len());
    }
    assert(EXECUTION_ERROR_CODE != 0);
}

} // verus!
