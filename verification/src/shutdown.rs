//! The shutdown coordinator: whichever comes first of the accept loop
//! ending, the audit writer ending, or an external interrupt starts the
//! teardown — stop accepting, close pipeline intake, drain, then exit. The
//! first error surfaced becomes the process's failure cause; an interrupt is
//! not an error. The exit decision can only be made once drain completion
//! has been observed.

use vstd::prelude::*;

verus! {

/// What woke the coordinator.
#[derive(Debug, Clone, PartialEq, Eq)]
pub enum Trigger {
    /// The transport engine's accept loop ended, with its error if it
    /// failed.
    EngineStopped { failure: Option<String> },
    /// The audit writer ended on its own, with its error if it failed.
    WriterStopped { failure: Option<String> },
    /// The external interrupt fired: a requested, clean shutdown.
    Interrupt,
}

/// The error a trigger surfaces, if any.
pub open spec fn trigger_failure(t: Trigger) -> Option<Seq<char>> {
    match t {
        Trigger::EngineStopped { failure: Some(m) } => Some(m@),
        Trigger::WriterStopped { failure: Some(m) } => Some(m@),
        _ => None,
    }
}

/// Where the process stands in its teardown.
#[derive(Debug, Clone, Copy, PartialEq, Eq, Structural)]
pub enum RunState {
    /// Accepting connections.
    Running,
    /// Intake is to be closed and the queue drained; no exit yet.
    Draining,
    /// Drain completion was observed; the process may exit.
    Finished,
}

/// Orchestrates process-wide teardown order.
pub struct ShutdownCoordinator {
    state: RunState,
    failure: Option<String>,
}

impl ShutdownCoordinator {
    /// Where the teardown stands.
    pub closed spec fn run_state(self) -> RunState {
        self.state
    }

    /// The first error surfaced so far, if any.
    pub closed spec fn failure_view(self) -> Option<Seq<char>> {
        match self.failure {
            Some(m) => Some(m@),
            None => None,
        }
    }

    /// A coordinator for a freshly started process.
    pub fn new() -> (coordinator: ShutdownCoordinator)
        ensures
            coordinator.run_state() == RunState::Running,
            coordinator.failure_view() is None,
    {
        ShutdownCoordinator { state: RunState::Running, failure: None }
    }

    /// The first of the raced events has occurred: the process stops
    /// accepting connections and must close pipeline intake and drain. A
    /// failing engine or writer becomes the failure cause; an interrupt
    /// leaves the run clean.
    pub fn on_trigger(&mut self, trigger: Trigger)
        requires
            old(self).run_state() == RunState::Running,
        ensures
            final(self).run_state() == RunState::Draining,
            final(self).failure_view() == trigger_failure(trigger),
    {
        self.state = RunState::Draining;
        match trigger {
            Trigger::EngineStopped { failure } => {
                self.failure = failure;
            },
            Trigger::WriterStopped { failure } => {
                self.failure = failure;
            },
            Trigger::Interrupt => {
                self.failure = None;
            },
        }
    }

    /// Drain completion was observed — only now may the process exit. A
    /// failure during the drain is surfaced unless an earlier one already
    /// was; the exit is clean exactly when nothing failed anywhere.
    pub fn on_drain_complete(&mut self, drain_failure: Option<String>) -> (clean: bool)
        requires
            old(self).run_state() == RunState::Draining,
        ensures
            final(self).run_state() == RunState::Finished,
            final(self).failure_view() == if old(self).failure_view() is Some {
                old(self).failure_view()
            } else {
                match drain_failure {
                    Some(m) => Some::<Seq<char>>(m@),
                    None => None::<Seq<char>>,
                }
            },
            clean == (final(self).failure_view() is None),
    {
        self.state = RunState::Finished;
        if self.failure.is_none() {
            self.failure = drain_failure;
        }
        self.failure.is_none()
    }

    /// Where the teardown stands, for the caller driving it.
    pub fn current_state(&self) -> (state: RunState)
        ensures
            state == self.run_state(),
    {
        self.state
    }

    /// The failure cause to report on exit, if any.
    pub fn failure_message(&self) -> (message: &Option<String>)
        ensures
            match message {
                Some(m) => self.failure_view() == Some::<Seq<char>>(m@),
                None => self.failure_view() is None,
            },
    {
        &self.failure
    }
}

} // verus!
