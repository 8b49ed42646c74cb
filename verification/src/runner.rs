//! The runner: the steps of a pipeline, one after the other.
//!
//! The runner is a state machine over the step machine. [`begin`] gives the
//! first state, [`invocation`] says which command a state is waiting for,
//! and [`advance`] takes the outcome of that command to the next state. A
//! run ends with the first step that fails, or after the last step. Each
//! move also yields the [`Notice`]s that a presentation layer may show.

use vstd::prelude::*;
use crate::machine::{observed, settled, Failure, Slot, StepResult, StepState};
use crate::model::{environment_of, Environment, Exec, ExecView, Pipeline, PipelineView, StepView};
use crate::outcome::{Cause, Outcome, OutcomeView};

verus! {

/// How a run ended.
#[derive(Clone, Copy, Debug, PartialEq, Eq, Structural)]
pub enum RunResult {
    /// Every step succeeded.
    Succeeded,
    /// The step at `index` failed, and no later step was started.
    Failed { index: usize, failure: Failure },
}

/// The state of a run.
#[derive(Clone, Copy, Debug, PartialEq, Eq, Structural)]
pub enum RunState {
    /// The step at `index` is under way and in state `step`.
    Running { index: usize, step: StepState },
    /// The run is over.
    Finished { result: RunResult },
}

/// Something that happened in a run, for a presentation layer to show.
#[derive(Clone, Debug, PartialEq, Eq)]
pub enum Notice {
    /// The run of the pipeline has begun.
    PipelineStarted,
    /// The step at `index` has begun.
    StepStarted { index: usize },
    /// A command printed `text`.
    Output { text: String },
    /// The command in `slot` of the step at `index` failed; `retrying` says
    /// whether it is attempted again.
    AttemptFailed { index: usize, slot: Slot, cause: Cause, retrying: bool },
    /// The run is over.
    PipelineFinished { result: RunResult },
}

/// The mathematical value of a [`Notice`].
pub enum NoticeView {
    PipelineStarted,
    StepStarted { index: usize },
    Output { text: Seq<char> },
    AttemptFailed { index: usize, slot: Slot, cause: Cause, retrying: bool },
    PipelineFinished { result: RunResult },
}

impl View for Notice {
    type V = NoticeView;

    open spec fn view(&self) -> NoticeView {
        match self {
            Notice::PipelineStarted => NoticeView::PipelineStarted,
            Notice::StepStarted { index } => NoticeView::StepStarted { index: *index },
            Notice::Output { text } => NoticeView::Output { text: text@ },
            Notice::AttemptFailed { index, slot, cause, retrying } => NoticeView::AttemptFailed {
                index: *index,
                slot: *slot,
                cause: *cause,
                retrying: *retrying,
            },
            Notice::PipelineFinished { result } => NoticeView::PipelineFinished { result: *result },
        }
    }
}

/// The views of a list of notices, element by element.
pub open spec fn notice_views(items: Seq<Notice>) -> Seq<NoticeView> {
    Seq::new(items.len(), |i: int| items[i]@)
}

/// A command to run, with the bounds to run it in.
#[derive(Clone, Copy, Debug, PartialEq, Eq)]
pub struct Invocation<'a> {
    /// The step that the command belongs to.
    pub index: usize,
    pub slot: Slot,
    pub command: &'a Exec,
    /// Seconds after which the command is to be terminated.
    pub deadline: Option<u64>,
    pub environment: Environment,
}

/// The mathematical value of an [`Invocation`].
pub struct InvocationView {
    pub index: usize,
    pub slot: Slot,
    pub command: ExecView,
    pub deadline: Option<u64>,
    pub environment: Environment,
}

impl<'a> View for Invocation<'a> {
    type V = InvocationView;

    open spec fn view(&self) -> InvocationView {
        InvocationView {
            index: self.index,
            slot: self.slot,
            command: self.command@,
            deadline: self.deadline,
            environment: self.environment,
        }
    }
}

/// The command of a step that stands in a slot.
pub open spec fn command_in(step: StepView, slot: Slot) -> Option<ExecView> {
    match slot {
        Slot::Pre => step.pre,
        Slot::Main => Some(step.main),
        Slot::Post => step.post,
    }
}

/// The state in which the step at `index` begins: its first command is
/// running. Past the last step the run has succeeded.
pub open spec fn entered(pipeline: PipelineView, index: int) -> RunState {
    if 0 <= index < pipeline.steps.len() {
        RunState::Running {
            index: index as usize,
            step: settled(pipeline.steps[index], StepState::Pending),
        }
    } else {
        RunState::success()
    }
}

impl RunState {
    /// The state of a run that has succeeded.
    pub open spec fn success() -> RunState {
        RunState::Finished { result: RunResult::Succeeded }
    }

    /// Whether the state belongs to a run of `pipeline`: while running, the
    /// step exists and the command that it waits for stands in the step.
    pub open spec fn fits(self, pipeline: PipelineView) -> bool {
        match self {
            RunState::Running { index, step } => {
                &&& index < pipeline.steps.len()
                &&& step.running() matches Some(slot)
                &&& command_in(pipeline.steps[index as int], slot) is Some
            },
            RunState::Finished { .. } => true,
        }
    }
}

/// The state of the run once the step at `index` has reached `step` and
/// moved on as far as it can by itself: a step that is done hands over to
/// the next one or ends the run.
pub open spec fn resumed(pipeline: PipelineView, index: usize, step: StepState) -> RunState {
    match settled(pipeline.steps[index as int], step) {
        StepState::Done { result: StepResult::Completed { .. } } => entered(pipeline, index + 1),
        StepState::Done { result: StepResult::Aborted { failure } } => RunState::Finished {
            result: RunResult::Failed { index, failure },
        },
        next => RunState::Running { index, step: next },
    }
}

/// The first state of a run.
pub open spec fn begun(pipeline: PipelineView) -> RunState {
    entered(pipeline, 0)
}

/// The state after the outcome of the command that `state` was waiting for.
/// A state that does not fit the pipeline, or in which the run is over,
/// stays as it is.
pub open spec fn advanced(pipeline: PipelineView, state: RunState, outcome: OutcomeView) -> RunState {
    match state {
        RunState::Running { index, step } => if state.fits(pipeline) {
            resumed(pipeline, index, observed(pipeline.steps[index as int], step, outcome))
        } else {
            state
        },
        RunState::Finished { .. } => state,
    }
}

/// The command that a state is waiting for: none once the run is over, or
/// where the state does not fit the pipeline.
pub open spec fn awaited(pipeline: PipelineView, state: RunState) -> Option<InvocationView> {
    match state {
        RunState::Running { index, step } => if state.fits(pipeline) {
            let slot = step.running()->0;
            Some(
                InvocationView {
                    index,
                    slot,
                    command: command_in(pipeline.steps[index as int], slot)->0,
                    deadline: if slot == Slot::Main {
                        pipeline.steps[index as int].timeout
                    } else {
                        None
                    },
                    environment: environment_of(pipeline.use_env),
                },
            )
        } else {
            None
        },
        RunState::Finished { .. } => None,
    }
}

/// The notices of the text that a command printed.
pub open spec fn output_notices(outcome: OutcomeView) -> Seq<NoticeView> {
    match outcome.text() {
        Some(text) => seq![NoticeView::Output { text }],
        None => seq![],
    }
}

/// Whether a command that failed in `slot` of the step at `index` is
/// attempted again in `next`: the same step is at its main command still.
pub open spec fn retried(index: usize, slot: Slot, next: RunState) -> bool {
    &&& slot == Slot::Main
    &&& next matches RunState::Running { index: now, step: StepState::MainAttempting { .. } }
    &&& now == index
}

/// The notice of a failed command.
pub open spec fn failure_notices(
    index: usize,
    slot: Slot,
    outcome: OutcomeView,
    next: RunState,
) -> Seq<NoticeView> {
    match outcome.failure() {
        Some(cause) => seq![
            NoticeView::AttemptFailed {
                index,
                slot,
                cause,
                retrying: retried(index, slot, next),
            },
        ],
        None => seq![],
    }
}

/// The notices of where a run has come to from the step at `index`: a
/// later step has begun, or the run is over.
pub open spec fn progress_notices(index: int, next: RunState) -> Seq<NoticeView> {
    match next {
        RunState::Running { index: now, .. } => if now != index {
            seq![NoticeView::StepStarted { index: now }]
        } else {
            seq![]
        },
        RunState::Finished { result } => seq![NoticeView::PipelineFinished { result }],
    }
}

/// The notices of the beginning of a run.
pub open spec fn begin_notices(pipeline: PipelineView) -> Seq<NoticeView> {
    seq![NoticeView::PipelineStarted] + progress_notices(-1, begun(pipeline))
}

/// The notices of one move of the run: what the command printed, then its
/// failure, then where the run has come to. A move that changes nothing
/// has none.
pub open spec fn advance_notices(
    pipeline: PipelineView,
    state: RunState,
    outcome: OutcomeView,
) -> Seq<NoticeView> {
    match state {
        RunState::Running { index, step } => if state.fits(pipeline) {
            let next = advanced(pipeline, state, outcome);
            output_notices(outcome) + failure_notices(index, step.running()->0, outcome, next)
                + progress_notices(index as int, next)
        } else {
            seq![]
        },
        RunState::Finished { .. } => seq![],
    }
}

/// Enters the step at `index`, or ends the run after the last step.
fn enter(pipeline: &Pipeline, index: usize) -> (state: RunState)
    ensures
        state == entered(pipeline@, index as int),
        state.fits(pipeline@),
{
    if index < pipeline.steps.len() {
        let step = &pipeline.steps[index];
        RunState::Running { index, step: step.settle(StepState::Pending) }
    } else {
        RunState::Finished { result: RunResult::Succeeded }
    }
}

/// Whether a state is waiting for a command of the pipeline.
fn fitting(pipeline: &Pipeline, state: &RunState) -> (ok: bool)
    ensures
        ok == (state is Running && state.fits(pipeline@)),
{
    match state {
        RunState::Running { index, step } => {
            if *index < pipeline.steps.len() {
                match step.slot() {
                    Some(Slot::Pre) => pipeline.steps[*index].pre.is_some(),
                    Some(Slot::Main) => true,
                    Some(Slot::Post) => pipeline.steps[*index].post.is_some(),
                    None => false,
                }
            } else {
                false
            }
        },
        RunState::Finished { .. } => false,
    }
}

/// Appends the notice of where the run has come to.
fn push_progress(notices: &mut Vec<Notice>, from: Option<usize>, next: &RunState)
    ensures
        notice_views(final(notices)@) == notice_views(old(notices)@) + progress_notices(
            match from {
                Some(index) => index as int,
                None => -1,
            },
            *next,
        ),
{
    let ghost before = notice_views(notices@);
    match next {
        RunState::Running { index: now, .. } => {
            let same = match from {
                Some(index) => index == *now,
                None => false,
            };
            if !same {
                notices.push(Notice::StepStarted { index: *now });
                assert(notice_views(notices@) == before + seq![
                    NoticeView::StepStarted { index: *now },
                ]);
            } else {
                assert(notice_views(notices@) == before + Seq::<NoticeView>::empty());
            }
        },
        RunState::Finished { result } => {
            notices.push(Notice::PipelineFinished { result: *result });
            assert(notice_views(notices@) == before + seq![
                NoticeView::PipelineFinished { result: *result },
            ]);
        },
    }
}

/// Begins a run: the first state, and the notices of the beginning.
pub fn begin(pipeline: &Pipeline) -> (start: (RunState, Vec<Notice>))
    ensures
        start.0 == begun(pipeline@),
        start.0.fits(pipeline@),
        notice_views(start.1@) == begin_notices(pipeline@),
{
    let state = enter(pipeline, 0);
    let mut notices: Vec<Notice> = Vec::new();
    notices.push(Notice::PipelineStarted);
    assert(notice_views(notices@) == seq![NoticeView::PipelineStarted]);
    push_progress(&mut notices, None, &state);
    (state, notices)
}

/// The command that a state is waiting for, if it is waiting for one. The
/// main command carries the step's timeout as its deadline; hooks run
/// without one.
pub fn invocation<'a>(pipeline: &'a Pipeline, state: &RunState) -> (call: Option<Invocation<'a>>)
    ensures
        match call {
            Some(invocation) => awaited(pipeline@, *state) == Some(invocation@),
            None => awaited(pipeline@, *state) is None,
        },
{
    if !fitting(pipeline, state) {
        return None;
    }
    match state {
        RunState::Running { index, step } => {
            let environment = pipeline.environment();
            let stage = &pipeline.steps[*index];
            match step.slot() {
                Some(Slot::Pre) => match &stage.pre {
                    Some(command) => Some(
                        Invocation {
                            index: *index,
                            slot: Slot::Pre,
                            command,
                            deadline: None,
                            environment,
                        },
                    ),
                    None => None,
                },
                Some(Slot::Main) => Some(
                    Invocation {
                        index: *index,
                        slot: Slot::Main,
                        command: &stage.main,
                        deadline: stage.timeout,
                        environment,
                    },
                ),
                Some(Slot::Post) => match &stage.post {
                    Some(command) => Some(
                        Invocation {
                            index: *index,
                            slot: Slot::Post,
                            command,
                            deadline: None,
                            environment,
                        },
                    ),
                    None => None,
                },
                None => None,
            }
        },
        RunState::Finished { .. } => None,
    }
}

/// One move of the run: from a state and the outcome of the command that
/// the state was waiting for to the next state, with the notices of the
/// move.
pub fn advance(pipeline: &Pipeline, state: RunState, outcome: Outcome) -> (moved: (
    RunState,
    Vec<Notice>,
))
    ensures
        moved.0 == advanced(pipeline@, state, outcome@),
        state.fits(pipeline@) ==> moved.0.fits(pipeline@),
        notice_views(moved.1@) == advance_notices(pipeline@, state, outcome@),
{
    let mut notices: Vec<Notice> = Vec::new();
    assert(notice_views(notices@) == Seq::<NoticeView>::empty());
    if !fitting(pipeline, &state) {
        return (state, notices);
    }
    match state {
        RunState::Running { index, step } => {
            let count = pipeline.steps.len();
            assert(index < count);
            let stage = &pipeline.steps[index];
            let slot = match step.slot() {
                Some(slot) => slot,
                None => Slot::Main,
            };
            let after = stage.settle(stage.observe(step, &outcome));
            let next = match after {
                StepState::Done { result: StepResult::Completed { .. } } => enter(
                    pipeline,
                    index + 1,
                ),
                StepState::Done { result: StepResult::Aborted { failure } } => RunState::Finished {
                    result: RunResult::Failed { index, failure },
                },
                _ => RunState::Running { index, step: after },
            };
            let failure = outcome.failure();
            match outcome {
                Outcome::Succeeded { text } => {
                    notices.push(Notice::Output { text });
                },
                Outcome::NonZeroExit { text, .. } => {
                    notices.push(Notice::Output { text });
                },
                _ => {},
            }
            assert(notice_views(notices@) == output_notices(outcome@));
            match failure {
                Some(cause) => {
                    let retrying = match (slot, &next) {
                        (
                            Slot::Main,
                            RunState::Running { index: now, step: StepState::MainAttempting { .. } },
                        ) => *now == index,
                        _ => false,
                    };
                    notices.push(Notice::AttemptFailed { index, slot, cause, retrying });
                    assert(notice_views(notices@) == output_notices(outcome@) + seq![
                        NoticeView::AttemptFailed { index, slot, cause, retrying },
                    ]);
                },
                None => {
                    assert(notice_views(notices@) == output_notices(outcome@)
                        + Seq::<NoticeView>::empty());
                },
            }
            assert(notice_views(notices@) == output_notices(outcome@) + failure_notices(
                index,
                slot,
                outcome@,
                next,
            ));
            push_progress(&mut notices, Some(index), &next);
            (next, notices)
        },
        RunState::Finished { .. } => (state, notices),
    }
}

impl RunState {
    /// How the run ended, once it is over.
    pub fn result(&self) -> (result: Option<RunResult>)
        ensures
            result == match *self {
                RunState::Finished { result } => Some(result),
                RunState::Running { .. } => None,
            },
    {
        match self {
            RunState::Finished { result } => Some(*result),
            RunState::Running { .. } => None,
        }
    }
}

impl RunResult {
    /// The exit status that stands for this result: zero for success and
    /// one for failure.
    pub fn exit_code(&self) -> (code: u8)
        ensures
            code == (if *self == RunResult::Succeeded { 0u8 } else { 1u8 }),
    {
        match self {
            RunResult::Succeeded => 0,
            RunResult::Failed { .. } => 1,
        }
    }
}

} // verus!
