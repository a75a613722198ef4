//! The states of an agent and the machine that steps through them.
use std::cell::RefCell;
use std::rc::Rc;
use std::sync::Arc;
use vstd::prelude::*;

verus! {

/// `RefCell` is carried through opaquely: a moved state is shared with the
/// caller that drives it, which borrows it at run time.
#[verifier::external_type_specification]
#[verifier::external_body]
#[verifier::reject_recursive_types(T)]
pub struct ExRefCell<T: ?Sized>(RefCell<T>);

/// A state of an agent's state machine. The scheduler calls
/// `pick_and_execute_an_action` on the current state; a state that has more
/// work returns the state to go to next (itself, to stay), and `None` once all
/// work in progress is done. A state can mark itself as terminal through
/// `is_abort_state`, which asks the scheduler to abort.
///
/// States should be lightweight: leaving a state drops all state-specific memory.
pub trait State<Data>: Sized {
    /// Performs one scheduler operation on the shared data.
    fn pick_and_execute_an_action(self: Arc<Self>, _data: &Arc<Data>) -> (next: Option<Arc<Self>>)
        default_ensures
            next is None,
    {
        None
    }

    /// Performs one scheduler operation on a state that is owned, not shared,
    /// and returns the state to go to next, if any.
    fn pick_and_execute_an_action_move(&mut self, _data: &Arc<Data>) -> (next: Option<Rc<RefCell<Self>>>)
        default_ensures
            next is None,
    {
        None
    }

    /// Whether reaching this state asks the agent to abort.
    fn is_abort_state(&self) -> (abort: bool)
        default_ensures
            !abort,
    {
        false
    }
}

/// Something that can be told that the state it watches has changed.
pub trait StateChanged {
    fn state_changed(&self);
}

/// What a scheduler operation hands back: the next state, if any.
pub type SchedulerReturn<S> = Option<Arc<S>>;

/// Holds the current state and moves it along by running the scheduler on it.
#[verifier::reject_recursive_types(T)]
pub struct AgentStateMachine<T, S: State<T>> {
    cur: Arc<S>,
    _data: core::marker::PhantomData<T>,
}

impl<T, S: State<T>> AgentStateMachine<T, S> {
    /// The state the machine is in.
    pub closed spec fn current(&self) -> Arc<S> {
        self.cur
    }

    pub fn new(start: Arc<S>) -> (machine: Self)
        ensures
            machine.current() == start,
    {
        AgentStateMachine { cur: start, _data: core::marker::PhantomData }
    }

    /// Moves to the state that a scheduler operation returned, if it returned one.
    /// Returns whether there is more work, that is, whether a next state came back.
    pub fn apply_transition(&mut self, next: SchedulerReturn<S>) -> (more: bool)
        ensures
            more == next.is_some(),
            final(self).current() == (match next {
                Some(s) => s,
                None => old(self).current(),
            }),
    {
        match next {
            Some(s) => {
                self.cur = s;
                true
            },
            None => false,
        }
    }

    /// Runs the scheduler operation of the current state (on a new reference to
    /// it) and moves to the state it returns. Returns whether a next state came
    /// back; when none did, the machine stays where it was.
    pub fn advance_state_clone(&mut self, data: &Arc<T>) -> (more: bool)
        ensures
            exists|next: SchedulerReturn<S>|
                #[trigger] call_ensures(S::pick_and_execute_an_action, (old(self).current(), data), next)
                && more == next.is_some()
                && final(self).current() == (match next {
                    Some(s) => s,
                    None => old(self).current(),
                }),
    {
        let next = self.cur.clone().pick_and_execute_an_action(data);
        self.apply_transition(next)
    }

    /// Whether the current state asks the agent to abort.
    pub fn is_abort_state(&self) -> (abort: bool)
        ensures
            call_ensures(S::is_abort_state, (&*self.current(),), abort),
    {
        self.cur.is_abort_state()
    }
}

/// A state machine for states that are moved, not shared; it keeps the states
/// it went through.
#[verifier::reject_recursive_types(T)]
pub struct MoveAgentStateMachine<T, S: State<T>> {
    cur: Arc<S>,
    history: Vec<Rc<S>>,
    _data: core::marker::PhantomData<T>,
}

impl<T, S: State<T>> MoveAgentStateMachine<T, S> {
    /// The state the machine is in.
    pub closed spec fn current(&self) -> Arc<S> {
        self.cur
    }

    /// The states the machine went through, oldest first.
    pub closed spec fn history(&self) -> Seq<Rc<S>> {
        self.history@
    }

    pub fn new(cur: Arc<S>) -> (machine: Self)
        ensures
            machine.current() == cur,
            machine.history() == Seq::<Rc<S>>::empty(),
    {
        MoveAgentStateMachine { cur, history: Vec::new(), _data: core::marker::PhantomData }
    }
}

} // verus!
