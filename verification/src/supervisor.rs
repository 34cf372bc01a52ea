//! The handle slot and the operations that fill and empty it.
//!
//! A [`Supervisor`] owns the one place where the handle of the running helper
//! process is kept. It never touches a process itself: it tells the host when
//! to launch one, takes the launched handle in, and gives the handle out
//! again when the helper is to be shut down. The host keeps the supervisor
//! behind its lock, so that each operation below is one uninterrupted step.

use vstd::prelude::*;
use crate::error::SupervisorError;

verus! {

/// What the slot holds, as the contracts see it.
pub enum SlotState<H> {
    /// The slot has not been set up yet.
    Uninitialized,
    /// The slot is set up and holds no handle.
    Empty,
    /// The slot holds the handle of the one helper believed alive.
    Running(H),
    /// The application is exiting: the slot is gone for good.
    Closed,
}

/// The answer to "may a helper be launched now?".
#[derive(Debug, Clone, Copy, PartialEq, Eq, Structural)]
pub enum StartPlan {
    /// A helper is already in the slot: nothing is to be launched, and the
    /// start counts as done.
    AlreadyRunning,
    /// No helper is in the slot: launch one and hand the result to
    /// [`Supervisor::complete_start`], without letting another request in
    /// between.
    Launch,
    /// The application is exiting: nothing may be launched any more.
    Refused,
}

/// What became of a launch.
#[derive(Debug, PartialEq, Eq)]
pub enum StartOutcome<H> {
    /// The child is in the slot; the host now relays its output.
    Started,
    /// No child is left over: the start ends with this error.
    Failed(SupervisorError),
    /// The slot could not take the child. The host terminates it at once and
    /// then ends the start with `error`, or with success where there is none.
    Discarded { child: H, error: Option<SupervisorError> },
}

impl StartPlan {
    /// How a start ends when nothing is to be launched: with success where a
    /// helper is already running, with an error where the slot is closed.
    /// `None` where the start goes on with a launch.
    pub open spec fn verdict(self) -> Option<Result<(), SupervisorError>> {
        match self {
            StartPlan::AlreadyRunning => Some(Ok(())),
            StartPlan::Refused => Some(Err(SupervisorError::Configuration)),
            StartPlan::Launch => None,
        }
    }

    /// The result of a start that launches nothing, and `None` for a start
    /// that launches.
    pub fn early_result(self) -> (result: Option<Result<(), SupervisorError>>)
        ensures
            result == self.verdict(),
    {
        match self {
            StartPlan::AlreadyRunning => Some(Ok(())),
            StartPlan::Refused => Some(Err(SupervisorError::Configuration)),
            StartPlan::Launch => None,
        }
    }
}

impl<H> StartOutcome<H> {
    /// The child that the host has to terminate, if there is one.
    pub open spec fn surplus(self) -> Option<H> {
        match self {
            StartOutcome::Discarded { child, .. } => Some(child),
            _ => None,
        }
    }

    /// How the start ends.
    pub open spec fn verdict(self) -> Result<(), SupervisorError> {
        match self {
            StartOutcome::Started => Ok(()),
            StartOutcome::Failed(error) => Err(error),
            StartOutcome::Discarded { error: Some(error), .. } => Err(error),
            StartOutcome::Discarded { error: None, .. } => Ok(()),
        }
    }

    /// Whether the child went into the slot, so that its output is to be
    /// relayed.
    pub fn is_started(&self) -> (started: bool)
        ensures
            started == (*self is Started),
    {
        match self {
            StartOutcome::Started => true,
            _ => false,
        }
    }

    /// Parts the outcome into the child to terminate and the result of the
    /// start.
    pub fn settle(self) -> (parts: (Option<H>, Result<(), SupervisorError>))
        ensures
            parts.0 == self.surplus(),
            parts.1 == self.verdict(),
    {
        match self {
            StartOutcome::Started => (None, Ok(())),
            StartOutcome::Failed(error) => (None, Err(error)),
            StartOutcome::Discarded { child, error: Some(error) } => (Some(child), Err(error)),
            StartOutcome::Discarded { child, error: None } => (Some(child), Ok(())),
        }
    }
}

/// The confirmation that a start request is answered with.
pub fn start_confirmation() -> (text: String)
    ensures
        text@ == "Sidecar has been started and monitoring has started"@,
{
    String::from_str("Sidecar has been started and monitoring has started")
}

impl<H> SlotState<H> {
    /// Whether a handle is in the slot.
    pub open spec fn occupied(self) -> bool {
        self is Running
    }

    /// The answer of [`Supervisor::plan_start`] in this state.
    pub open spec fn plan(self) -> StartPlan {
        match self {
            SlotState::Running(_) => StartPlan::AlreadyRunning,
            SlotState::Closed => StartPlan::Refused,
            _ => StartPlan::Launch,
        }
    }

    /// The state after a launch that ended with `launched` was handed in.
    /// Only an empty slot changes, and only on a successful launch.
    pub open spec fn after_start(self, launched: Result<H, String>) -> SlotState<H> {
        match (self, launched) {
            (SlotState::Empty, Ok(child)) => SlotState::Running(child),
            _ => self,
        }
    }

    /// What [`Supervisor::complete_start`] answers in this state.
    pub open spec fn start_outcome(self, launched: Result<H, String>) -> StartOutcome<H> {
        match launched {
            Err(reason) => StartOutcome::Failed(SupervisorError::Launch(reason)),
            Ok(child) => match self {
                SlotState::Empty => StartOutcome::Started,
                SlotState::Running(_) => StartOutcome::Discarded { child, error: None },
                _ => StartOutcome::Discarded {
                    child,
                    error: Some(SupervisorError::Configuration),
                },
            },
        }
    }

    /// The handle that leaves the slot, or the reason why none does.
    pub open spec fn released(self) -> Result<H, SupervisorError> {
        match self {
            SlotState::Running(child) => Ok(child),
            SlotState::Empty => Err(SupervisorError::NoActiveProcess),
            _ => Err(SupervisorError::Configuration),
        }
    }

    /// The state after a shutdown request: a running slot is empty, every
    /// other state is as before.
    pub open spec fn after_shutdown(self) -> SlotState<H> {
        match self {
            SlotState::Running(_) => SlotState::Empty,
            _ => self,
        }
    }
}

/// The owner of the handle slot. `H` is the host's handle of a child process;
/// the supervisor only stores it.
pub struct Supervisor<H> {
    state: SlotState<H>,
}

impl<H> Supervisor<H> {
    /// The state of the slot.
    pub closed spec fn view(&self) -> SlotState<H> {
        self.state
    }

    /// A supervisor whose slot has not been set up. Every operation on it
    /// that needs the slot ends with [`SupervisorError::Configuration`].
    pub fn uninitialized() -> (supervisor: Supervisor<H>)
        ensures
            supervisor@ == SlotState::<H>::Uninitialized,
    {
        Supervisor { state: SlotState::Uninitialized }
    }

    /// A supervisor with an empty slot, as the application sets it up.
    pub fn new() -> (supervisor: Supervisor<H>)
        ensures
            supervisor@ == SlotState::<H>::Empty,
    {
        Supervisor { state: SlotState::Empty }
    }

    /// Sets up the slot if that has not happened yet. A slot that is set up,
    /// or closed, stays as it is.
    pub fn initialize(&mut self)
        ensures
            final(self)@ == match old(self)@ {
                SlotState::Uninitialized => SlotState::Empty,
                other => other,
            },
    {
        let mut state = SlotState::Closed;
        core::mem::swap(&mut self.state, &mut state);
        self.state = match state {
            SlotState::Uninitialized => SlotState::Empty,
            other => other,
        };
    }

    /// Whether a helper is in the slot.
    pub fn is_running(&self) -> (running: bool)
        ensures
            running == self@.occupied(),
    {
        match &self.state {
            SlotState::Running(_) => true,
            _ => false,
        }
    }

    /// Decides whether the host is to launch a helper. The slot is only
    /// looked at. A launch is planned for an empty slot, and also for a slot
    /// that has not been set up: there the launched child cannot be kept, and
    /// [`Supervisor::complete_start`] hands it back with
    /// [`SupervisorError::Configuration`].
    pub fn plan_start(&self) -> (plan: StartPlan)
        ensures
            plan == self@.plan(),
    {
        match &self.state {
            SlotState::Running(_) => StartPlan::AlreadyRunning,
            SlotState::Closed => StartPlan::Refused,
            _ => StartPlan::Launch,
        }
    }

    /// Takes in the result of a launch. A child goes into the slot only if
    /// the slot is set up and empty; a child that cannot go in is handed back
    /// for termination, so that no process is left without an owner.
    pub fn complete_start(&mut self, launched: Result<H, String>) -> (outcome: StartOutcome<H>)
        ensures
            final(self)@ == old(self)@.after_start(launched),
            outcome == old(self)@.start_outcome(launched),
    {
        match launched {
            Err(reason) => StartOutcome::Failed(SupervisorError::Launch(reason)),
            Ok(child) => {
                let mut state = SlotState::Closed;
                core::mem::swap(&mut self.state, &mut state);
                match state {
                    SlotState::Empty => {
                        self.state = SlotState::Running(child);
                        StartOutcome::Started
                    },
                    SlotState::Running(current) => {
                        self.state = SlotState::Running(current);
                        StartOutcome::Discarded { child, error: None }
                    },
                    other => {
                        self.state = other;
                        StartOutcome::Discarded {
                            child,
                            error: Some(SupervisorError::Configuration),
                        }
                    },
                }
            },
        }
    }

    /// Takes the handle out of the slot for a shutdown. The slot is empty as
    /// soon as this returns, before anything is written to the helper.
    pub fn begin_shutdown(&mut self) -> (taken: Result<H, SupervisorError>)
        ensures
            final(self)@ == old(self)@.after_shutdown(),
            taken == old(self)@.released(),
    {
        let mut state = SlotState::Empty;
        core::mem::swap(&mut self.state, &mut state);
        match state {
            SlotState::Running(child) => Ok(child),
            SlotState::Empty => Err(SupervisorError::NoActiveProcess),
            other => {
                self.state = other;
                Err(SupervisorError::Configuration)
            },
        }
    }

    /// Closes the slot for the exit of the application and takes out the
    /// handle that is left in it. No launch is planned after this.
    pub fn begin_exit(&mut self) -> (taken: Result<H, SupervisorError>)
        ensures
            final(self)@ == SlotState::<H>::Closed,
            taken == old(self)@.released(),
    {
        let mut state = SlotState::Closed;
        core::mem::swap(&mut self.state, &mut state);
        match state {
            SlotState::Running(child) => Ok(child),
            SlotState::Empty => Err(SupervisorError::NoActiveProcess),
            _ => Err(SupervisorError::Configuration),
        }
    }
}

} // verus!
