//! The state machine of one step.
//!
//! A step passes through
//! `Pending -> PreRunning -> MainAttempting -> (Succeeded | Failed | TimedOut)
//! -> PostRunning -> Done`. The machine never runs anything itself: it is
//! told what happened and says what is to be done next. While a command is
//! running the machine rests in `PreRunning`, `MainAttempting` or
//! `PostRunning` and waits for that command's outcome; from every other
//! state but `Done` it moves on by itself.

use vstd::prelude::*;
use crate::model::{Step, StepView};
use crate::outcome::{Cause, Outcome, OutcomeView};

verus! {

/// Which of a step's commands is meant.
#[derive(Clone, Copy, Debug, PartialEq, Eq, Structural)]
pub enum Slot {
    Pre,
    Main,
    Post,
}

/// Why a step failed.
#[derive(Clone, Copy, Debug, PartialEq, Eq, Structural)]
pub enum Failure {
    /// The pre-hook failed; the main command was never started.
    Hook { cause: Cause },
    /// The main command failed on its last permitted attempt.
    Step { cause: Cause },
    /// The main command ran past its deadline on its last permitted attempt.
    Timeout,
}

/// How a step ended.
#[derive(Clone, Copy, Debug, PartialEq, Eq, Structural)]
pub enum StepResult {
    /// The main command succeeded. `post_hook` holds the cause where the
    /// post-hook then failed, which does not take the success back.
    Completed { post_hook: Option<Cause> },
    /// The step failed; its post-hook was not run.
    Aborted { failure: Failure },
}

/// The state of a step.
#[derive(Clone, Copy, Debug, PartialEq, Eq, Structural)]
pub enum StepState {
    /// Nothing has been started.
    Pending,
    /// The pre-hook is running.
    PreRunning,
    /// The main command is running, after `failures` failed attempts: this
    /// is attempt number `failures + 1`.
    MainAttempting { failures: u64 },
    /// The main command has succeeded.
    Succeeded,
    /// The pre-hook has failed, or the main command on its last attempt.
    Failed { failure: Failure },
    /// The last attempt of the main command ran past its deadline.
    TimedOut,
    /// The post-hook is running.
    PostRunning,
    /// The step has ended.
    Done { result: StepResult },
}

/// What the machine is told.
#[derive(Clone, Debug, PartialEq, Eq)]
pub enum StepEvent {
    /// Nothing happened outside; the machine may move on by itself.
    Proceed,
    /// The command that was running has ended.
    Finished { outcome: Outcome },
}

/// The mathematical value of a [`StepEvent`].
pub enum StepEventView {
    Proceed,
    Finished { outcome: OutcomeView },
}

impl View for StepEvent {
    type V = StepEventView;

    open spec fn view(&self) -> StepEventView {
        match self {
            StepEvent::Proceed => StepEventView::Proceed,
            StepEvent::Finished { outcome } => StepEventView::Finished { outcome: outcome@ },
        }
    }
}

/// What the caller is to do next.
#[derive(Clone, Copy, Debug, PartialEq, Eq, Structural)]
pub enum StepAction {
    /// Run the command in `slot`, for at most `deadline` seconds where one is
    /// given, and report its outcome with `StepEvent::Finished`.
    Run { slot: Slot, deadline: Option<u64> },
    /// Nothing is to be run; hand in `StepEvent::Proceed`.
    Proceed,
    /// The step has ended.
    Stop,
}

impl StepState {
    /// The command that is running in this state, if one is.
    pub open spec fn running(self) -> Option<Slot> {
        match self {
            StepState::PreRunning => Some(Slot::Pre),
            StepState::MainAttempting { .. } => Some(Slot::Main),
            StepState::PostRunning => Some(Slot::Post),
            _ => None,
        }
    }

    /// The command that is running in this state, if one is.
    pub fn slot(&self) -> (slot: Option<Slot>)
        ensures
            slot == self.running(),
    {
        match self {
            StepState::PreRunning => Some(Slot::Pre),
            StepState::MainAttempting { .. } => Some(Slot::Main),
            StepState::PostRunning => Some(Slot::Post),
            _ => None,
        }
    }
}

/// The step of the machine that needs no outside work.
///
/// A pending step starts its pre-hook where it has one and its first main
/// attempt where it has none. After success the post-hook starts, or the
/// step is done where there is none. A failed or timed-out step is done
/// without its post-hook. Every other state stays as it is.
pub open spec fn settled(step: StepView, state: StepState) -> StepState {
    match state {
        StepState::Pending => if step.pre is Some {
            StepState::PreRunning
        } else {
            StepState::MainAttempting { failures: 0 }
        },
        StepState::Succeeded => if step.post is Some {
            StepState::PostRunning
        } else {
            StepState::Done { result: StepResult::Completed { post_hook: None } }
        },
        StepState::Failed { failure } => StepState::Done { result: StepResult::Aborted { failure } },
        StepState::TimedOut => StepState::Done {
            result: StepResult::Aborted { failure: Failure::Timeout },
        },
        _ => state,
    }
}

/// The step of the machine on the outcome of the command that was running.
///
/// A failed pre-hook fails the step at once. A failed main attempt is
/// retried while fewer attempts have failed before it than `retries` allows;
/// the last one leaves the step timed out where it ran past its deadline and
/// failed otherwise. The post-hook ends the step whatever its outcome. In a
/// state in which nothing is running the outcome changes nothing.
pub open spec fn observed(step: StepView, state: StepState, outcome: OutcomeView) -> StepState {
    match state {
        StepState::PreRunning => match outcome.failure() {
            None => StepState::MainAttempting { failures: 0 },
            Some(cause) => StepState::Failed { failure: Failure::Hook { cause } },
        },
        StepState::MainAttempting { failures } => match outcome.failure() {
            None => StepState::Succeeded,
            Some(cause) => if failures < step.retries {
                StepState::MainAttempting { failures: (failures + 1) as u64 }
            } else if cause == Cause::Deadline {
                StepState::TimedOut
            } else {
                StepState::Failed { failure: Failure::Step { cause } }
            },
        },
        StepState::PostRunning => StepState::Done {
            result: StepResult::Completed { post_hook: outcome.failure() },
        },
        _ => state,
    }
}

/// The state after an event.
pub open spec fn step_next(step: StepView, state: StepState, event: StepEventView) -> StepState {
    match event {
        StepEventView::Proceed => settled(step, state),
        StepEventView::Finished { outcome } => observed(step, state, outcome),
    }
}

/// What a state asks of the caller. Only the main command has a deadline:
/// the step's timeout.
pub open spec fn step_action(step: StepView, state: StepState) -> StepAction {
    match state {
        StepState::PreRunning => StepAction::Run { slot: Slot::Pre, deadline: None },
        StepState::MainAttempting { .. } => StepAction::Run {
            slot: Slot::Main,
            deadline: step.timeout,
        },
        StepState::PostRunning => StepAction::Run { slot: Slot::Post, deadline: None },
        StepState::Done { .. } => StepAction::Stop,
        _ => StepAction::Proceed,
    }
}

impl Step {
    /// Moves a state on without outside work.
    pub fn settle(&self, state: StepState) -> (next: StepState)
        ensures
            next == settled(self@, state),
    {
        match state {
            StepState::Pending => {
                if self.pre.is_some() {
                    StepState::PreRunning
                } else {
                    StepState::MainAttempting { failures: 0 }
                }
            },
            StepState::Succeeded => {
                if self.post.is_some() {
                    StepState::PostRunning
                } else {
                    StepState::Done { result: StepResult::Completed { post_hook: None } }
                }
            },
            StepState::Failed { failure } => StepState::Done {
                result: StepResult::Aborted { failure },
            },
            StepState::TimedOut => StepState::Done {
                result: StepResult::Aborted { failure: Failure::Timeout },
            },
            _ => state,
        }
    }

    /// Moves a state on by the outcome of the command that was running.
    pub fn observe(&self, state: StepState, outcome: &Outcome) -> (next: StepState)
        ensures
            next == observed(self@, state, outcome@),
    {
        match state {
            StepState::PreRunning => match outcome.failure() {
                None => StepState::MainAttempting { failures: 0 },
                Some(cause) => StepState::Failed { failure: Failure::Hook { cause } },
            },
            StepState::MainAttempting { failures } => match outcome.failure() {
                None => StepState::Succeeded,
                Some(cause) => {
                    if failures < self.retries {
                        StepState::MainAttempting { failures: failures + 1 }
                    } else {
                        match cause {
                            Cause::Deadline => StepState::TimedOut,
                            _ => StepState::Failed { failure: Failure::Step { cause } },
                        }
                    }
                },
            },
            StepState::PostRunning => StepState::Done {
                result: StepResult::Completed { post_hook: outcome.failure() },
            },
            _ => state,
        }
    }

    /// What a state asks of the caller.
    pub fn action(&self, state: StepState) -> (action: StepAction)
        ensures
            action == step_action(self@, state),
    {
        match state {
            StepState::PreRunning => StepAction::Run { slot: Slot::Pre, deadline: None },
            StepState::MainAttempting { .. } => StepAction::Run {
                slot: Slot::Main,
                deadline: self.timeout,
            },
            StepState::PostRunning => StepAction::Run { slot: Slot::Post, deadline: None },
            StepState::Done { .. } => StepAction::Stop,
            _ => StepAction::Proceed,
        }
    }

    /// One step of the machine: from a state and an event to the next state
    /// and what the caller is to do in it.
    pub fn advance(&self, state: StepState, event: &StepEvent) -> (moved: (StepState, StepAction))
        ensures
            moved.0 == step_next(self@, state, event@),
            moved.1 == step_action(self@, moved.0),
    {
        let next = match event {
            StepEvent::Proceed => self.settle(state),
            StepEvent::Finished { outcome } => self.observe(state, outcome),
        };
        (next, self.action(next))
    }
}

} // verus!
