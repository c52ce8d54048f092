//! Supervision of the one backend process.
//!
//! A [`Supervisor`] is a single slot for the handle of the backend process.
//! It starts empty, takes a handle at most once, and keeps it when the
//! process is asked to terminate: there is no way back to the empty slot, so
//! no second process can be put under supervision.
//!
//! The handle is whatever the host uses to reach the process. The supervisor
//! never acts on it; when termination is requested it lends the handle out,
//! and the host sends the signal.

use vstd::prelude::*;

verus! {

/// The life of the supervised process, as far as the supervisor knows it.
#[derive(Clone, Copy, Debug, PartialEq, Eq, Structural)]
pub enum Phase {
    /// No process was put under supervision.
    Unspawned,
    /// A process is under supervision.
    Spawned,
    /// The process under supervision was asked to terminate.
    TerminationRequested,
}

/// The state of a supervisor, as a mathematical value.
pub struct SupervisorState<H> {
    /// The handle under supervision, if any.
    pub handle: Option<H>,
    /// The phase of the supervised process.
    pub phase: Phase,
}

/// What can be asked of a supervisor.
pub enum Operation<H> {
    /// Put the process behind this handle under supervision.
    Adopt(H),
    /// Ask the supervised process to terminate.
    RequestTermination,
}

impl<H> SupervisorState<H> {
    /// A handle is held exactly when a process was spawned.
    pub open spec fn wf(self) -> bool {
        self.phase == Phase::Unspawned <==> self.handle is None
    }

    /// The state of a supervisor that holds nothing.
    pub open spec fn empty() -> Self {
        SupervisorState { handle: None, phase: Phase::Unspawned }
    }

    /// The state after `handle` was offered: an empty supervisor takes it,
    /// any other keeps what it has.
    pub open spec fn adopt(self, handle: H) -> Self {
        if self.phase == Phase::Unspawned {
            SupervisorState { handle: Some(handle), phase: Phase::Spawned }
        } else {
            self
        }
    }

    /// The state after termination was requested: a held handle stays where
    /// it is, an empty supervisor stays empty.
    pub open spec fn request_termination(self) -> Self {
        if self.handle is Some {
            SupervisorState { handle: self.handle, phase: Phase::TerminationRequested }
        } else {
            self
        }
    }

    /// The state after one operation.
    pub open spec fn apply(self, operation: Operation<H>) -> Self {
        match operation {
            Operation::Adopt(handle) => self.adopt(handle),
            Operation::RequestTermination => self.request_termination(),
        }
    }

    /// The state after a sequence of operations.
    pub open spec fn apply_all(self, operations: Seq<Operation<H>>) -> Self
        decreases operations.len(),
    {
        if operations.len() == 0 {
            self
        } else {
            self.apply(operations[0]).apply_all(operations.skip(1))
        }
    }
}

/// How far a phase is along the life of the process.
pub open spec fn rank(phase: Phase) -> nat {
    match phase {
        Phase::Unspawned => 0,
        Phase::Spawned => 1,
        Phase::TerminationRequested => 2,
    }
}

/// The slot that holds the handle of the backend process.
pub struct Supervisor<H> {
    handle: Option<H>,
    terminating: bool,
}

impl<H> View for Supervisor<H> {
    type V = SupervisorState<H>;

    closed spec fn view(&self) -> SupervisorState<H> {
        SupervisorState {
            handle: self.handle,
            phase: match self.handle {
                None => Phase::Unspawned,
                Some(_) => if self.terminating {
                    Phase::TerminationRequested
                } else {
                    Phase::Spawned
                },
            },
        }
    }
}

impl<H> Supervisor<H> {
    /// The state of every supervisor is well formed.
    pub proof fn lemma_well_formed(&self)
        ensures
            self@.wf(),
    {
    }

    /// A supervisor that holds nothing.
    pub fn new() -> (supervisor: Self)
        ensures
            supervisor@ == SupervisorState::<H>::empty(),
    {
        Supervisor { handle: None, terminating: false }
    }

    /// The phase of the supervised process.
    pub fn phase(&self) -> (phase: Phase)
        ensures
            phase == self@.phase,
    {
        match self.handle {
            None => Phase::Unspawned,
            Some(_) => if self.terminating {
                Phase::TerminationRequested
            } else {
                Phase::Spawned
            },
        }
    }

    /// The handle under supervision, if any.
    pub fn handle(&self) -> (handle: Option<&H>)
        ensures
            handle is Some <==> self@.handle is Some,
            handle is Some ==> *handle.unwrap() == self@.handle.unwrap(),
    {
        self.handle.as_ref()
    }

    /// Puts the process behind `handle` under supervision. Only an empty
    /// supervisor takes a handle; any other hands it back and keeps what it
    /// has.
    pub fn adopt(&mut self, handle: H) -> (taken: Result<(), H>)
        ensures
            final(self)@ == old(self)@.adopt(handle),
            old(self)@.phase == Phase::Unspawned ==> taken is Ok,
            old(self)@.phase != Phase::Unspawned ==> taken == Err::<(), H>(handle),
    {
        if self.handle.is_none() {
            self.handle = Some(handle);
            self.terminating = false;
            Ok(())
        } else {
            Err(handle)
        }
    }

    /// Records that the supervised process is asked to terminate, and lends
    /// its handle out so that the host can send the signal. The handle stays
    /// in the slot whatever the host does with it. An empty supervisor stays
    /// as it is and lends nothing.
    pub fn request_termination(&mut self) -> (target: Option<&mut H>)
        ensures
            target is Some <==> old(self)@.handle is Some,
            target is Some ==> *target.unwrap() == old(self)@.handle.unwrap(),
            target is Some ==> final(self)@.handle == Some(*final(target.unwrap())),
            target is None ==> final(self)@.handle is None,
            final(self)@.phase == old(self)@.request_termination().phase,
    {
        if self.handle.is_some() {
            self.terminating = true;
        }
        self.handle.as_mut()
    }
}

/// A handle offered to an empty supervisor is the one handle it holds.
pub proof fn law_adopt_holds_handle<H>(state: SupervisorState<H>, handle: H)
    requires
        state.wf(),
        state.phase == Phase::Unspawned,
    ensures
        state.adopt(handle).handle == Some(handle),
        state.adopt(handle).phase == Phase::Spawned,
{
}

/// A termination request keeps the handle in the slot, and a supervisor that
/// was asked to terminate its process takes no other.
pub proof fn law_termination_keeps_slot<H>(state: SupervisorState<H>, other: H)
    requires
        state.wf(),
        state.handle is Some,
    ensures
        state.request_termination().handle == state.handle,
        state.request_termination().phase == Phase::TerminationRequested,
        state.request_termination().adopt(other) == state.request_termination(),
{
}

/// Requesting termination again changes nothing more, and requesting it of
/// an empty supervisor changes nothing at all.
pub proof fn law_termination_repeats<H>(state: SupervisorState<H>)
    requires
        state.wf(),
    ensures
        state.request_termination().request_termination() == state.request_termination(),
        state.handle is None ==> state.request_termination() == state,
{
}

/// Whatever is asked of a supervisor, and in whatever order, its phase never
/// moves backwards and a handle it holds is never dropped or replaced.
pub proof fn law_phases_only_advance<H>(state: SupervisorState<H>, operations: Seq<Operation<H>>)
    requires
        state.wf(),
    ensures
        state.apply_all(operations).wf(),
        rank(state.phase) <= rank(state.apply_all(operations).phase),
        state.handle is Some ==> state.apply_all(operations).handle == state.handle,
    decreases operations.len(),
{
    if operations.len() > 0 {
        law_phases_only_advance(state.apply(operations[0]), operations.skip(1));
    }
}

} // verus!
