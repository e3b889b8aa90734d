//! The worker that owns the engine, as a state machine from phase and event
//! to next phase and action. Whatever runs the worker's loop performs each
//! action and hands back the event it produced; the worker never suspends
//! and never touches the engine itself.
use crate::channel::send_once;
use crate::reply::{is_reply_to, reply_to, Reply};
use crate::trace::{feasible, lemma_each_request_answered_once, outcomes, replies_fit, requests, run};
use vstd::prelude::*;

verus! {

/// A completion slot: where the worker writes the one reply owed to a caller.
pub type Slot = tokio::sync::oneshot::Sender<Reply>;

/// What one engine call returned: the structured value, or a description of
/// the failure.
pub type Outcome = Result<serde_json::Value, String>;

/// One submission: the caller's own copy of the source text, and the slot
/// that the caller awaits.
pub struct Request {
    pub code: String,
    pub slot: Slot,
}

/// Where the worker stands.
pub enum Phase {
    /// Waiting on the queue for the next request.
    Idle,
    /// The engine runs one request, whose slot is held here until answered.
    Executing(Slot),
    /// The queue is closed and empty, or the loop broke its protocol.
    Terminated,
}

/// What the loop around the worker observed.
pub enum Event {
    /// A request was taken from the queue.
    Dequeued(Request),
    /// The queue is closed and holds nothing more.
    QueueClosed,
    /// The engine call asked for returned.
    EngineFinished(Outcome),
}

/// What the loop around the worker is to do next.
#[derive(Debug, PartialEq, Eq)]
pub enum Action {
    /// Wait for the next request, or for the queue to close.
    AwaitRequest,
    /// Run the engine, once, on this source text.
    RunEngine(String),
    /// Leave the loop: the engine is no longer needed.
    Stop,
}

/// The step of the worker: the next phase, the action asked for, and the
/// answer now owed, as the slot to write and the outcome it must reflect.
/// An event that the phase does not wait for stops the worker; the slots it
/// drops resolve their callers with a transport error.
pub open spec fn next(p: Phase, e: Event) -> (Phase, Action, Option<(Slot, Outcome)>) {
    match p {
        Phase::Idle => match e {
            Event::Dequeued(request) => (
                Phase::Executing(request.slot),
                Action::RunEngine(request.code),
                None,
            ),
            _ => (Phase::Terminated, Action::Stop, None),
        },
        Phase::Executing(slot) => match e {
            Event::EngineFinished(outcome) => (Phase::Idle, Action::AwaitRequest, Some((slot, outcome))),
            _ => (Phase::Terminated, Action::Stop, None),
        },
        Phase::Terminated => (Phase::Terminated, Action::Stop, None),
    }
}

/// The event answers the action that the phase asked for.
pub open spec fn accepts(p: Phase, e: Event) -> bool {
    match p {
        Phase::Idle => !(e is EngineFinished),
        Phase::Executing(_) => e is EngineFinished,
        Phase::Terminated => false,
    }
}

/// `after` is `before` with, where an answer is owed, one reply more: for
/// that answer's slot and fit to its outcome.
pub open spec fn handed_for(
    before: Seq<(Slot, Reply)>,
    after: Seq<(Slot, Reply)>,
    owed: Option<(Slot, Outcome)>,
) -> bool {
    match owed {
        None => after == before,
        Some(answer) => after.len() == before.len() + 1 && after.drop_last() == before
            && after.last().0 == answer.0 && is_reply_to(after.last().1, answer.1),
    }
}

/// The worker: its phase, and in ghost the events it has met and the
/// replies it has handed to its slots, each with its slot.
///
/// `handed()` records each reply together with the slot that it is passed to
/// in the call of `send_once`; that the reply then reaches the caller who
/// still waits on that slot rests on tokio's single-use channel.
pub struct Worker {
    phase: Phase,
    seen: Ghost<Seq<Event>>,
    handed: Ghost<Seq<(Slot, Reply)>>,
}

impl Worker {
    pub closed spec fn state(&self) -> Phase {
        self.phase
    }

    pub closed spec fn history(&self) -> Seq<Event> {
        self.seen@
    }

    /// The replies passed to `send_once`, in order, each with its slot.
    pub closed spec fn handed(&self) -> Seq<(Slot, Reply)> {
        self.handed@
    }

    /// The worker stands where its history leads, and has written a fitting
    /// reply for each answer that its history owes.
    #[verifier::type_invariant]
    pub closed spec fn wf(&self) -> bool {
        &&& self.phase == run(self.seen@).0
        &&& replies_fit(self.handed@, run(self.seen@).2)
    }

    /// A worker waiting for its first request.
    pub fn new() -> (w: Worker)
        ensures
            w.wf(),
            w.state() == Phase::Idle,
            w.history() == Seq::<Event>::empty(),
            w.handed() == Seq::<(Slot, Reply)>::empty(),
    {
        Worker { phase: Phase::Idle, seen: Ghost(Seq::empty()), handed: Ghost(Seq::empty()) }
    }

    /// Takes one event and gives the next worker and the action to perform.
    /// An engine result is turned into a reply and written into the slot of
    /// the request that was executing; a caller that stopped waiting only
    /// loses its reply.
    pub fn step(self, event: Event) -> (r: (Worker, Action))
        ensures
            r.0.wf(),
            r.0.history() == self.history().push(event),
            r.0.state() == next(self.state(), event).0,
            r.1 == next(self.state(), event).1,
            handed_for(self.handed(), r.0.handed(), next(self.state(), event).2),
    {
        proof {
            use_type_invariant(&self);
            assert(self.seen@.push(event).drop_last() =~= self.seen@);
        }
        let seen = Ghost(self.seen@.push(event));
        let handed = self.handed;
        match self.phase {
            Phase::Idle => match event {
                Event::Dequeued(request) => (
                    Worker { phase: Phase::Executing(request.slot), seen, handed },
                    Action::RunEngine(request.code),
                ),
                _ => (Worker { phase: Phase::Terminated, seen, handed }, Action::Stop),
            },
            Phase::Executing(slot) => match event {
                Event::EngineFinished(outcome) => {
                    let ghost owed_slot = slot;
                    let reply = reply_to(outcome);
                    let ghost sent = reply;
                    let _ = send_once(slot, reply);
                    let handed = Ghost(handed@.push((owed_slot, sent)));
                    proof {
                        assert(handed@.drop_last() =~= self.handed@);
                        assert(run(seen@).2 =~= run(self.seen@).2.push((owed_slot, outcome)));
                    }
                    (Worker { phase: Phase::Idle, seen, handed }, Action::AwaitRequest)
                },
                _ => (Worker { phase: Phase::Terminated, seen, handed }, Action::Stop),
            },
            Phase::Terminated => (Worker { phase: Phase::Terminated, seen, handed }, Action::Stop),
        }
    }
}

/// Every reply that a worker has written went to the slot of the request it
/// answers, in the order the requests were taken, and fits what the engine
/// returned for that request: the engine's value on success, a failure
/// payload on failure. The worker writes one reply per engine result.
pub proof fn lemma_worker_replies(w: &Worker)
    requires
        w.wf(),
        feasible(w.history()),
    ensures
        w.handed().len() == outcomes(w.history()).len(),
        forall|i: int|
            0 <= i < w.handed().len() ==> (#[trigger] w.handed()[i]).0 == requests(
                w.history(),
            )[i].slot && is_reply_to(w.handed()[i].1, outcomes(w.history())[i]),
{
    lemma_each_request_answered_once(w.history());
    let answers = run(w.history()).2;
    assert forall|i: int| 0 <= i < w.handed().len() implies (#[trigger] w.handed()[i]).0
        == requests(w.history())[i].slot && is_reply_to(
        w.handed()[i].1,
        outcomes(w.history())[i],
    ) by {
        assert(answers[i] == (requests(w.history())[i].slot, outcomes(w.history())[i]));
    }
}

} // verus!
