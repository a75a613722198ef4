//! Simple agents: a scheduler function that runs again and again on the
//! agent's data, and the loop that decides when it runs.
//!
//! The loop waits for a first permit, then runs the scheduler. The scheduler
//! answers with a `RunState`: run again at once, run again after a new permit,
//! or finish, in which case the loop hands the data back.
use vstd::prelude::*;

verus! {

/// What a simple agent's scheduler asks for after it ran.
#[derive(Debug, PartialEq, Eq, Structural, Clone, Copy)]
pub enum RunState {
    /// Run the scheduler again at once.
    GoAgain,
    /// Wait for a new permit, then run the scheduler again.
    ReqNewPermit,
    /// Stop, and hand the data back.
    Finish,
}

/// Where a simple agent's loop stands.
#[derive(Debug, PartialEq, Eq, Structural, Clone, Copy)]
pub enum SimplePhase {
    AwaitingPermit,
    Scheduling,
    Finished,
}

/// What the thread running a simple agent must do next.
#[derive(Debug, PartialEq, Eq, Structural, Clone, Copy)]
pub enum SimpleAction {
    AcquirePermit,
    RunScheduler,
    ReturnData,
}

/// What the thread running a simple agent reports back.
#[derive(Debug, PartialEq, Eq, Structural, Clone, Copy)]
pub enum SimpleEvent {
    PermitAcquired,
    Scheduled(RunState),
}

pub open spec fn simple_phase_action(p: SimplePhase) -> SimpleAction {
    match p {
        SimplePhase::AwaitingPermit => SimpleAction::AcquirePermit,
        SimplePhase::Scheduling => SimpleAction::RunScheduler,
        SimplePhase::Finished => SimpleAction::ReturnData,
    }
}

/// The phase after an event; an event that does not answer the pending
/// action leaves the phase as it is.
pub open spec fn simple_next_phase(p: SimplePhase, e: SimpleEvent) -> SimplePhase {
    match (p, e) {
        (SimplePhase::AwaitingPermit, SimpleEvent::PermitAcquired) => SimplePhase::Scheduling,
        (SimplePhase::Scheduling, SimpleEvent::Scheduled(r)) => match r {
            RunState::GoAgain => SimplePhase::Scheduling,
            RunState::ReqNewPermit => SimplePhase::AwaitingPermit,
            RunState::Finish => SimplePhase::Finished,
        },
        (p, _) => p,
    }
}

/// The phase after a sequence of events, together with the number of permits
/// the loop took and the number of new permits the scheduler asked for.
pub open spec fn simple_run(p: SimplePhase, events: Seq<SimpleEvent>) -> (SimplePhase, nat, nat)
    decreases events.len(),
{
    if events.len() == 0 {
        (p, 0, 0)
    } else {
        let e = events[0];
        let rest = simple_run(simple_next_phase(p, e), events.drop_first());
        let took: nat = if p == SimplePhase::AwaitingPermit && e == SimpleEvent::PermitAcquired { 1 } else { 0 };
        let asked: nat = if p == SimplePhase::Scheduling && e == SimpleEvent::Scheduled(RunState::ReqNewPermit) { 1 } else { 0 };
        (rest.0, rest.1 + took, rest.2 + asked)
    }
}

/// Permits the loop still owes itself in a phase: one while it waits for one.
pub open spec fn permit_owed(p: SimplePhase) -> nat {
    if p == SimplePhase::AwaitingPermit { 1 } else { 0 }
}

/// Every request for a new permit is met by exactly one permit before the
/// scheduler runs again, and the loop starts on one permit of its own: from
/// any phase, the permits taken plus the permit owed at the start equal the
/// requests made plus the permit owed at the end.
pub proof fn lemma_one_permit_per_request(p: SimplePhase, events: Seq<SimpleEvent>)
    ensures
        ({
            let (q, took, asked) = simple_run(p, events);
            took + permit_owed(q) == asked + permit_owed(p)
        }),
    decreases events.len(),
{
    if events.len() > 0 {
        lemma_one_permit_per_request(simple_next_phase(p, events[0]), events.drop_first());
    }
}

/// A simple agent never runs its scheduler before it got a first permit: a
/// fresh loop schedules only after taking one more permit than it was asked for.
pub proof fn lemma_first_permit_before_scheduling(events: Seq<SimpleEvent>)
    ensures
        ({
            let (q, took, asked) = simple_run(SimplePhase::AwaitingPermit, events);
            q != SimplePhase::AwaitingPermit ==> took == asked + 1
        }),
{
    lemma_one_permit_per_request(SimplePhase::AwaitingPermit, events);
}

/// A finished loop stays finished, and takes no more permits.
pub proof fn lemma_simple_finished_is_final(events: Seq<SimpleEvent>)
    ensures
        simple_run(SimplePhase::Finished, events) == (SimplePhase::Finished, 0nat, 0nat),
    decreases events.len(),
{
    if events.len() > 0 {
        lemma_simple_finished_is_final(events.drop_first());
    }
}

/// The loop of one simple agent.
pub struct SimpleAgentLoop {
    phase: SimplePhase,
}

impl SimpleAgentLoop {
    pub closed spec fn phase(&self) -> SimplePhase {
        self.phase
    }

    /// A loop that waits for its first permit.
    pub fn new() -> (l: Self)
        ensures
            l.phase() == SimplePhase::AwaitingPermit,
    {
        SimpleAgentLoop { phase: SimplePhase::AwaitingPermit }
    }

    /// The action to perform next.
    pub fn next_action(&self) -> (a: SimpleAction)
        ensures
            a == simple_phase_action(self.phase()),
    {
        match self.phase {
            SimplePhase::AwaitingPermit => SimpleAction::AcquirePermit,
            SimplePhase::Scheduling => SimpleAction::RunScheduler,
            SimplePhase::Finished => SimpleAction::ReturnData,
        }
    }

    /// Takes in the outcome of the last action.
    pub fn step(&mut self, event: SimpleEvent)
        ensures
            final(self).phase() == simple_next_phase(old(self).phase(), event),
    {
        self.phase = match (self.phase, event) {
            (SimplePhase::AwaitingPermit, SimpleEvent::PermitAcquired) => SimplePhase::Scheduling,
            (SimplePhase::Scheduling, SimpleEvent::Scheduled(r)) => match r {
                RunState::GoAgain => SimplePhase::Scheduling,
                RunState::ReqNewPermit => SimplePhase::AwaitingPermit,
                RunState::Finish => SimplePhase::Finished,
            },
            (p, _) => p,
        };
    }
}

} // verus!
