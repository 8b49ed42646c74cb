//! What holds of every run.
//!
//! A run is modelled by the outcomes that the commands come to, in the order
//! in which they end. [`launches`] is the sequence of commands that the
//! runner asks for along the way, and [`run_after`] the state it ends in.

use vstd::prelude::*;
use crate::machine::{Failure, Slot, StepState};
use crate::model::{PipelineView, StepView};
use crate::outcome::{classified, Cause, CompletionView, OutcomeView};
use crate::runner::{advanced, awaited, begun, entered, RunResult, RunState};

verus! {

/// A command that the runner asked for: the slot of a step.
pub struct Launch {
    pub index: usize,
    pub slot: Slot,
}

/// The state that a run is in after the commands have come to `outcomes`,
/// one after the other.
pub open spec fn run_after(
    pipeline: PipelineView,
    state: RunState,
    outcomes: Seq<OutcomeView>,
) -> RunState
    decreases outcomes.len(),
{
    if outcomes.len() == 0 {
        state
    } else {
        run_after(pipeline, advanced(pipeline, state, outcomes.first()), outcomes.drop_first())
    }
}

/// The commands that the runner asks for, from `state` on, while the
/// commands come to `outcomes`: the one that `state` waits for, then those
/// of the states that follow.
pub open spec fn launches(
    pipeline: PipelineView,
    state: RunState,
    outcomes: Seq<OutcomeView>,
) -> Seq<Launch>
    decreases outcomes.len(),
{
    match awaited(pipeline, state) {
        None => seq![],
        Some(call) => {
            let first = seq![Launch { index: call.index, slot: call.slot }];
            if outcomes.len() == 0 {
                first
            } else {
                first + launches(
                    pipeline,
                    advanced(pipeline, state, outcomes.first()),
                    outcomes.drop_first(),
                )
            }
        },
    }
}

/// The hook in `slot`, where the step has one.
pub open spec fn hook_plan(present: bool, index: usize, slot: Slot) -> Seq<Launch> {
    if present {
        seq![Launch { index, slot }]
    } else {
        seq![]
    }
}

/// The commands of one step in the order in which they run when nothing
/// fails: the pre-hook, the main command, the post-hook.
pub open spec fn step_plan(step: StepView, index: usize) -> Seq<Launch> {
    hook_plan(step.pre is Some, index, Slot::Pre) + seq![Launch { index, slot: Slot::Main }]
        + hook_plan(step.post is Some, index, Slot::Post)
}

/// The commands of the steps from `index` on, step after step.
pub open spec fn plan_from(pipeline: PipelineView, index: int) -> Seq<Launch>
    decreases pipeline.steps.len() - index,
{
    if 0 <= index < pipeline.steps.len() {
        step_plan(pipeline.steps[index], index as usize) + plan_from(pipeline, index + 1)
    } else {
        seq![]
    }
}

/// The commands of a whole pipeline, step after step.
pub open spec fn plan(pipeline: PipelineView) -> Seq<Launch> {
    plan_from(pipeline, 0)
}

/// No outcome in the sequence is a failure.
pub open spec fn all_succeed(outcomes: Seq<OutcomeView>) -> bool {
    forall|i: int| 0 <= i < outcomes.len() ==> (#[trigger] outcomes[i]).failure() is None
}

/// Every outcome in the sequence is a failure.
pub open spec fn all_fail(outcomes: Seq<OutcomeView>) -> bool {
    forall|i: int| 0 <= i < outcomes.len() ==> (#[trigger] outcomes[i]).failure() is Some
}

/// What is left of the plan in a state: the command that is running, the
/// rest of its step, and the steps after it.
pub open spec fn plan_left(pipeline: PipelineView, state: RunState) -> Seq<Launch> {
    match state {
        RunState::Running { index, step } => {
            let stage = pipeline.steps[index as int];
            let main = seq![Launch { index, slot: Slot::Main }];
            let post = hook_plan(stage.post is Some, index, Slot::Post);
            let later = plan_from(pipeline, index + 1);
            match step {
                StepState::PreRunning => seq![Launch { index, slot: Slot::Pre }] + main + post
                    + later,
                StepState::MainAttempting { .. } => main + post + later,
                StepState::PostRunning => post + later,
                _ => seq![],
            }
        },
        RunState::Finished { .. } => seq![],
    }
}

/// How far a running step is from its end when nothing fails.
spec fn commands_left(step: StepState) -> nat {
    match step {
        StepState::PreRunning => 3,
        StepState::MainAttempting { .. } => 2,
        StepState::PostRunning => 1,
        _ => 0,
    }
}

proof fn lemma_entered_plan(pipeline: PipelineView, index: int)
    requires
        0 <= index,
        pipeline.steps.len() <= usize::MAX,
    ensures
        entered(pipeline, index).fits(pipeline),
        plan_left(pipeline, entered(pipeline, index)) == plan_from(pipeline, index),
{
    if index < pipeline.steps.len() {
        let stage = pipeline.steps[index];
        if stage.pre is Some {
            assert(hook_plan(true, index as usize, Slot::Pre) == seq![
                Launch { index: index as usize, slot: Slot::Pre },
            ]);
        } else {
            assert(hook_plan(false, index as usize, Slot::Pre) + seq![
                Launch { index: index as usize, slot: Slot::Main },
            ] == seq![Launch { index: index as usize, slot: Slot::Main }]);
        }
    }
}

/// Once a run is over, no outcome changes its state, and nothing is asked
/// for any more.
proof fn lemma_finished_stays(pipeline: PipelineView, state: RunState, outcomes: Seq<OutcomeView>)
    requires
        state is Finished,
    ensures
        launches(pipeline, state, outcomes) == Seq::<Launch>::empty(),
        run_after(pipeline, state, outcomes) == state,
    decreases outcomes.len(),
{
    if outcomes.len() > 0 {
        lemma_finished_stays(pipeline, state, outcomes.drop_first());
    }
}

proof fn lemma_success_from(pipeline: PipelineView, state: RunState, outcomes: Seq<OutcomeView>)
    requires
        pipeline.steps.len() <= usize::MAX,
        state.fits(pipeline),
        state is Running || state == RunState::success(),
        all_succeed(outcomes),
        outcomes.len() >= plan_left(pipeline, state).len(),
    ensures
        launches(pipeline, state, outcomes) == plan_left(pipeline, state),
        run_after(pipeline, state, outcomes) == RunState::success(),
    decreases
            match state {
                RunState::Running { index, .. } => pipeline.steps.len() - index,
                RunState::Finished { .. } => 0,
            },
            match state {
                RunState::Running { step, .. } => commands_left(step),
                RunState::Finished { .. } => 0,
            },
{
    match state {
        RunState::Finished { .. } => {
            lemma_finished_stays(pipeline, state, outcomes);
        },
        RunState::Running { index, step } => {
            let outcome = outcomes.first();
            assert(outcome.failure() is None);
            let next = advanced(pipeline, state, outcome);
            let rest = outcomes.drop_first();
            assert(all_succeed(rest)) by {
                assert forall|i: int| 0 <= i < rest.len() implies (#[trigger] rest[i]).failure()
                    is None by {
                    assert(rest[i] == outcomes[i + 1]);
                }
            }
            lemma_entered_plan(pipeline, index + 1);
            assert(plan_left(pipeline, state) =~= seq![
                Launch { index, slot: step.running()->0 },
            ] + plan_left(pipeline, next));
            lemma_success_from(pipeline, next, rest);
        },
    }
}

/// Where no command fails, the runner asks for the commands of every step
/// once, step after step in the declared order, and the run succeeds.
pub proof fn law_run_without_failures(pipeline: PipelineView, outcomes: Seq<OutcomeView>)
    requires
        pipeline.steps.len() <= usize::MAX,
        all_succeed(outcomes),
        outcomes.len() >= plan(pipeline).len(),
    ensures
        launches(pipeline, begun(pipeline), outcomes) == plan(pipeline),
        run_after(pipeline, begun(pipeline), outcomes) == RunState::success(),
{
    lemma_entered_plan(pipeline, 0);
    lemma_success_from(pipeline, begun(pipeline), outcomes);
}

/// The failure that a step ends with when its last main attempt fails.
pub open spec fn last_failure(cause: Cause) -> Failure {
    if cause == Cause::Deadline {
        Failure::Timeout
    } else {
        Failure::Step { cause }
    }
}

/// The main command of the step at `index`, `count` times over.
pub open spec fn main_attempts(index: usize, count: nat) -> Seq<Launch> {
    Seq::new(count, |i: int| Launch { index, slot: Slot::Main })
}

proof fn lemma_failing_from(
    pipeline: PipelineView,
    index: usize,
    failures: u64,
    outcomes: Seq<OutcomeView>,
)
    requires
        index < pipeline.steps.len(),
        failures <= pipeline.steps[index as int].retries,
        all_fail(outcomes),
        outcomes.len() > pipeline.steps[index as int].retries - failures,
    ensures
        ({
            let state = RunState::Running { index, step: StepState::MainAttempting { failures } };
            let left = (pipeline.steps[index as int].retries - failures + 1) as nat;
            &&& launches(pipeline, state, outcomes) == main_attempts(index, left)
            &&& run_after(pipeline, state, outcomes) == RunState::Finished {
                result: RunResult::Failed {
                    index,
                    failure: last_failure(outcomes[left - 1].failure()->0),
                },
            }
        }),
    decreases pipeline.steps[index as int].retries - failures,
{
    let state = RunState::Running { index, step: StepState::MainAttempting { failures } };
    let retries = pipeline.steps[index as int].retries;
    let left = (retries - failures + 1) as nat;
    let outcome = outcomes.first();
    let rest = outcomes.drop_first();
    let next = advanced(pipeline, state, outcome);
    assert(outcome.failure() is Some);
    if failures < retries {
        assert(all_fail(rest)) by {
            assert forall|i: int| 0 <= i < rest.len() implies (#[trigger] rest[i]).failure()
                is Some by {
                assert(rest[i] == outcomes[i + 1]);
            }
        }
        lemma_failing_from(pipeline, index, (failures + 1) as u64, rest);
        assert(rest[left - 2] == outcomes[left - 1]);
        assert(main_attempts(index, left) =~= seq![Launch { index, slot: Slot::Main }]
            + main_attempts(index, (left - 1) as nat));
    } else {
        lemma_finished_stays(pipeline, next, rest);
        assert(main_attempts(index, left) =~= seq![Launch { index, slot: Slot::Main }]);
    }
}

/// A main command that fails every time is attempted once and then once
/// more for each retry that the step allows, `retries + 1` times in all,
/// and nothing else is started. The run then ends in failure at that step:
/// timed out where the last attempt ran past its deadline, failed with the
/// cause of the last attempt otherwise.
pub proof fn law_always_failing_main(
    pipeline: PipelineView,
    index: usize,
    outcomes: Seq<OutcomeView>,
)
    requires
        index < pipeline.steps.len(),
        all_fail(outcomes),
        outcomes.len() > pipeline.steps[index as int].retries,
    ensures
        ({
            let state = RunState::Running {
                index,
                step: StepState::MainAttempting { failures: 0 },
            };
            let attempts = (pipeline.steps[index as int].retries + 1) as nat;
            &&& launches(pipeline, state, outcomes) == main_attempts(index, attempts)
            &&& run_after(pipeline, state, outcomes) == RunState::Finished {
                result: RunResult::Failed {
                    index,
                    failure: last_failure(outcomes[attempts - 1].failure()->0),
                },
            }
        }),
{
    lemma_failing_from(pipeline, index, 0, outcomes);
}

/// A pre-hook that fails ends the run in failure at its step at once:
/// whatever the later outcomes would be, neither the main command nor the
/// post-hook of the step is started, nor any later step.
pub proof fn law_failed_pre_hook(
    pipeline: PipelineView,
    index: usize,
    outcome: OutcomeView,
    later: Seq<OutcomeView>,
)
    requires
        index < pipeline.steps.len(),
        pipeline.steps[index as int].pre is Some,
        outcome.failure() is Some,
    ensures
        ({
            let state = RunState::Running { index, step: StepState::PreRunning };
            let end = RunState::Finished {
                result: RunResult::Failed {
                    index,
                    failure: Failure::Hook { cause: outcome.failure()->0 },
                },
            };
            &&& advanced(pipeline, state, outcome) == end
            &&& run_after(pipeline, state, seq![outcome] + later) == end
            &&& launches(pipeline, state, seq![outcome] + later) == seq![
                Launch { index, slot: Slot::Pre },
            ]
        }),
{
    let state = RunState::Running { index, step: StepState::PreRunning };
    let outcomes = seq![outcome] + later;
    assert(outcomes.first() == outcome);
    assert(outcomes.drop_first() =~= later);
    lemma_finished_stays(pipeline, advanced(pipeline, state, outcome), later);
}

/// A main command that runs past its deadline counts as a failed attempt.
/// The runner hands out the step's timeout as the deadline of every main
/// attempt; a process that was stopped at its deadline is classified as
/// timed out; and such an attempt is retried while retries are left, and
/// otherwise leaves the run failed at that step with a timeout.
pub proof fn law_timed_out_attempt(pipeline: PipelineView, index: usize, failures: u64)
    requires
        index < pipeline.steps.len(),
    ensures
        ({
            let step = pipeline.steps[index as int];
            let state = RunState::Running { index, step: StepState::MainAttempting { failures } };
            &&& awaited(pipeline, state) matches Some(call)
            &&& call.slot == Slot::Main
            &&& call.deadline == step.timeout
            &&& classified(CompletionView::DeadlineElapsed) == OutcomeView::TimedOut
            &&& advanced(pipeline, state, OutcomeView::TimedOut) == if failures < step.retries {
                RunState::Running {
                    index,
                    step: StepState::MainAttempting { failures: (failures + 1) as u64 },
                }
            } else {
                RunState::Finished { result: RunResult::Failed { index, failure: Failure::Timeout } }
            }
        }),
{
}

/// Steps run in the declared order, one at a time: a move of the run stays
/// at its step or goes on to the very next one, it goes on only when the
/// command that ended was the step's last, and a failed command never
/// takes the run to the next step unless it was the post-hook.
pub proof fn law_steps_in_order(pipeline: PipelineView, state: RunState, outcome: OutcomeView)
    requires
        pipeline.steps.len() <= usize::MAX,
        state.fits(pipeline),
        state is Running,
    ensures
        advanced(pipeline, state, outcome).fits(pipeline),
        advanced(pipeline, state, outcome) matches RunState::Running { index: now, step } ==> {
            ||| now == state->index
            ||| {
                &&& now == state->index + 1
                &&& step == StepState::PreRunning || step == (StepState::MainAttempting {
                    failures: 0,
                })
                &&& state->step is PostRunning || (state->step is MainAttempting
                    && outcome.failure() is None && pipeline.steps[state->index as int].post
                    is None)
            }
        },
{
}

/// The main commands among some launches, in their order.
pub open spec fn main_commands(launched: Seq<Launch>) -> Seq<Launch> {
    launched.filter(|launch: Launch| launch.slot == Slot::Main)
}

/// The main commands of the steps from `index` on, one for each step.
pub open spec fn mains_from(pipeline: PipelineView, index: int) -> Seq<Launch> {
    Seq::new(
        (pipeline.steps.len() - index) as nat,
        |i: int| Launch { index: (index + i) as usize, slot: Slot::Main },
    )
}

proof fn lemma_plan_mains(pipeline: PipelineView, index: int)
    requires
        0 <= index <= pipeline.steps.len() <= usize::MAX,
    ensures
        main_commands(plan_from(pipeline, index)) == mains_from(pipeline, index),
    decreases pipeline.steps.len() - index,
{
    broadcast use Seq::filter_distributes_over_add;

    reveal(Seq::filter);
    if index < pipeline.steps.len() {
        lemma_plan_mains(pipeline, index + 1);
        let at = index as usize;
        let stage = pipeline.steps[index];
        let pre = hook_plan(stage.pre is Some, at, Slot::Pre);
        let main = seq![Launch { index: at, slot: Slot::Main }];
        let post = hook_plan(stage.post is Some, at, Slot::Post);
        assert(main_commands(pre) == Seq::<Launch>::empty()) by {
            if stage.pre is Some {
                assert(pre.drop_last() == Seq::<Launch>::empty());
            }
        }
        assert(main_commands(post) == Seq::<Launch>::empty()) by {
            if stage.post is Some {
                assert(post.drop_last() == Seq::<Launch>::empty());
            }
        }
        assert(main_commands(main) == main) by {
            assert(main.drop_last() == Seq::<Launch>::empty());
        }
        assert(main_commands(plan_from(pipeline, index)) == main + mains_from(
            pipeline,
            index + 1,
        ));
        assert(main + mains_from(pipeline, index + 1) =~= mains_from(pipeline, index));
    } else {
        assert(mains_from(pipeline, index) =~= Seq::<Launch>::empty());
    }
}

/// The plan of a pipeline holds the main command of every step exactly
/// once, and in the declared order of the steps.
pub proof fn law_plan_runs_each_step_once(pipeline: PipelineView)
    requires
        pipeline.steps.len() <= usize::MAX,
    ensures
        main_commands(plan(pipeline)) == mains_from(pipeline, 0),
        main_commands(plan(pipeline)).len() == pipeline.steps.len(),
{
    lemma_plan_mains(pipeline, 0);
}

} // verus!
