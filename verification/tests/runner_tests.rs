use pipeline_runner::machine::{Failure, Slot, StepState};
use pipeline_runner::model::{Environment, Exec, Output, Pipeline, Step};
use pipeline_runner::outcome::{classify, Cause, Completion, Outcome};
use pipeline_runner::render::render;
use pipeline_runner::runner::{advance, begin, invocation, Notice, RunResult, RunState};

fn exec_of(program: &str) -> Exec {
    Exec { program: program.to_string(), args: None, output: Output::Stdout }
}

fn step_of(name: &str, pre: bool, post: bool, retries: u64, timeout: Option<u64>) -> Step {
    Step {
        name: if name.is_empty() { None } else { Some(name.to_string()) },
        description: None,
        main: exec_of("main"),
        pre: if pre { Some(exec_of("pre")) } else { None },
        post: if post { Some(exec_of("post")) } else { None },
        retries,
        timeout,
    }
}

fn pipeline_of(steps: Vec<Step>) -> Pipeline {
    Pipeline { name: "demo".to_string(), description: None, use_env: false, steps }
}

fn printed(text: &str) -> Outcome {
    Outcome::Succeeded { text: text.to_string() }
}

/// Drives a run: the command that is asked for at each turn gets the
/// outcome that `answer` gives for it. Returns what was asked for, the
/// notices, and the last state.
fn drive(
    pipeline: &Pipeline,
    answer: &dyn Fn(usize, Slot, usize) -> Outcome,
) -> (Vec<(usize, Slot)>, Vec<Notice>, RunState) {
    let (mut state, mut notices) = begin(pipeline);
    let mut asked: Vec<(usize, Slot)> = Vec::new();
    loop {
        let call = match invocation(pipeline, &state) {
            Some(call) => call,
            None => break,
        };
        let turn = asked.len();
        asked.push((call.index, call.slot));
        let (next, more) = advance(pipeline, state, answer(call.index, call.slot, turn));
        state = next;
        notices.extend(more);
        assert!(asked.len() < 1000);
    }
    (asked, notices, state)
}

#[test]
fn a_run_without_failures_runs_every_step_once_in_order() {
    let pipeline = pipeline_of(vec![
        step_of("", false, false, 0, None),
        step_of("", true, false, 2, None),
        step_of("", false, true, 1, Some(3)),
        step_of("", true, true, 0, None),
    ]);
    let (asked, _, state) = drive(&pipeline, &|_, _, _| printed(""));
    assert_eq!(
        asked,
        vec![
            (0, Slot::Main),
            (1, Slot::Pre),
            (1, Slot::Main),
            (2, Slot::Main),
            (2, Slot::Post),
            (3, Slot::Pre),
            (3, Slot::Main),
            (3, Slot::Post),
        ]
    );
    assert_eq!(state, RunState::Finished { result: RunResult::Succeeded });
}

#[test]
fn a_pipeline_without_steps_succeeds_at_once() {
    let pipeline = pipeline_of(Vec::new());
    let (state, notices) = begin(&pipeline);
    assert_eq!(state, RunState::Finished { result: RunResult::Succeeded });
    assert_eq!(
        notices,
        vec![Notice::PipelineStarted, Notice::PipelineFinished { result: RunResult::Succeeded }]
    );
    assert_eq!(invocation(&pipeline, &state), None);
}

#[test]
fn a_main_command_that_always_fails_is_attempted_retries_plus_one_times() {
    for retries in [0u64, 1, 2, 5] {
        let pipeline = pipeline_of(vec![
            step_of("", false, false, 0, None),
            step_of("", false, true, retries, None),
            step_of("", false, false, 0, None),
        ]);
        let (asked, _, state) = drive(&pipeline, &|index, _, _| {
            if index == 1 {
                Outcome::NonZeroExit { code: Some(1), text: String::new() }
            } else {
                printed("")
            }
        });
        let attempts = asked.iter().filter(|call| **call == (1, Slot::Main)).count();
        assert_eq!(attempts as u64, retries + 1);
        assert_eq!(asked.len() as u64, retries + 2);
        assert_eq!(
            state,
            RunState::Finished {
                result: RunResult::Failed {
                    index: 1,
                    failure: Failure::Step { cause: Cause::Exit { code: Some(1) } },
                }
            }
        );
    }
}

#[test]
fn a_missing_binary_with_two_retries_is_spawned_three_times() {
    let pipeline = pipeline_of(vec![step_of("", false, false, 2, None)]);
    let (asked, notices, state) = drive(&pipeline, &|_, _, _| classify(Completion::NotStarted));
    assert_eq!(asked, vec![(0, Slot::Main), (0, Slot::Main), (0, Slot::Main)]);
    let result = state.result().unwrap();
    assert_eq!(
        result,
        RunResult::Failed { index: 0, failure: Failure::Step { cause: Cause::Spawn } }
    );
    assert_ne!(result.exit_code(), 0);
    assert_eq!(
        notices,
        vec![
            Notice::PipelineStarted,
            Notice::StepStarted { index: 0 },
            Notice::AttemptFailed { index: 0, slot: Slot::Main, cause: Cause::Spawn, retrying: true },
            Notice::AttemptFailed { index: 0, slot: Slot::Main, cause: Cause::Spawn, retrying: true },
            Notice::AttemptFailed { index: 0, slot: Slot::Main, cause: Cause::Spawn, retrying: false },
            Notice::PipelineFinished { result },
        ]
    );
}

#[test]
fn a_retry_that_succeeds_lets_the_run_go_on() {
    let pipeline =
        pipeline_of(vec![step_of("", false, false, 3, None), step_of("", false, false, 0, None)]);
    let (asked, _, state) = drive(&pipeline, &|_, _, turn| {
        if turn < 2 {
            Outcome::EncodingError
        } else {
            printed("")
        }
    });
    assert_eq!(asked, vec![(0, Slot::Main), (0, Slot::Main), (0, Slot::Main), (1, Slot::Main)]);
    assert_eq!(state.result(), Some(RunResult::Succeeded));
}

#[test]
fn a_failing_pre_hook_keeps_main_and_post_from_running() {
    let pipeline =
        pipeline_of(vec![step_of("", true, true, 4, None), step_of("", false, false, 0, None)]);
    let (asked, notices, state) = drive(&pipeline, &|_, _, _| Outcome::SpawnError);
    assert_eq!(asked, vec![(0, Slot::Pre)]);
    let result = RunResult::Failed { index: 0, failure: Failure::Hook { cause: Cause::Spawn } };
    assert_eq!(state, RunState::Finished { result });
    assert_eq!(
        notices,
        vec![
            Notice::PipelineStarted,
            Notice::StepStarted { index: 0 },
            Notice::AttemptFailed { index: 0, slot: Slot::Pre, cause: Cause::Spawn, retrying: false },
            Notice::PipelineFinished { result },
        ]
    );
}

#[test]
fn a_failing_post_hook_is_reported_and_the_run_goes_on() {
    let pipeline =
        pipeline_of(vec![step_of("", false, true, 2, None), step_of("", false, false, 0, None)]);
    let (asked, notices, state) = drive(&pipeline, &|_, slot, _| {
        if slot == Slot::Post {
            Outcome::NonZeroExit { code: Some(7), text: "bye".to_string() }
        } else {
            printed("")
        }
    });
    assert_eq!(asked, vec![(0, Slot::Main), (0, Slot::Post), (1, Slot::Main)]);
    assert_eq!(state.result(), Some(RunResult::Succeeded));
    assert!(notices.contains(&Notice::AttemptFailed {
        index: 0,
        slot: Slot::Post,
        cause: Cause::Exit { code: Some(7) },
        retrying: false,
    }));
    assert!(notices.contains(&Notice::Output { text: "bye".to_string() }));
}

#[test]
fn a_timed_out_attempt_counts_as_failed_and_ends_in_timeout() {
    let pipeline = pipeline_of(vec![step_of("slow", false, true, 1, Some(2))]);
    let (asked, notices, state) = drive(&pipeline, &|_, _, _| classify(Completion::DeadlineElapsed));
    assert_eq!(asked, vec![(0, Slot::Main), (0, Slot::Main)]);
    let result = RunResult::Failed { index: 0, failure: Failure::Timeout };
    assert_eq!(state, RunState::Finished { result });
    assert_eq!(
        notices[2],
        Notice::AttemptFailed { index: 0, slot: Slot::Main, cause: Cause::Deadline, retrying: true }
    );
    assert_eq!(
        notices[3],
        Notice::AttemptFailed { index: 0, slot: Slot::Main, cause: Cause::Deadline, retrying: false }
    );
}

#[test]
fn the_main_command_is_handed_out_with_the_timeout_as_deadline() {
    let pipeline = pipeline_of(vec![step_of("", true, true, 0, Some(9))]);
    let (state, _) = begin(&pipeline);
    let pre = invocation(&pipeline, &state).unwrap();
    assert_eq!(pre.slot, Slot::Pre);
    assert_eq!(pre.command.program, "pre");
    assert_eq!(pre.deadline, None);
    let (state, _) = advance(&pipeline, state, printed(""));
    let main = invocation(&pipeline, &state).unwrap();
    assert_eq!(main.slot, Slot::Main);
    assert_eq!(main.command.program, "main");
    assert_eq!(main.deadline, Some(9));
    let (state, _) = advance(&pipeline, state, printed(""));
    let post = invocation(&pipeline, &state).unwrap();
    assert_eq!(post.slot, Slot::Post);
    assert_eq!(post.command.program, "post");
    assert_eq!(post.deadline, None);
}

#[test]
fn use_env_chooses_the_environment() {
    let mut pipeline = pipeline_of(vec![step_of("", false, false, 0, None)]);
    assert_eq!(pipeline.environment(), Environment::PathOnly);
    let (state, _) = begin(&pipeline);
    assert_eq!(invocation(&pipeline, &state).unwrap().environment, Environment::PathOnly);
    pipeline.use_env = true;
    assert_eq!(pipeline.environment(), Environment::Inherited);
    assert_eq!(invocation(&pipeline, &state).unwrap().environment, Environment::Inherited);
}

#[test]
fn the_demo_pipeline_prints_banner_label_and_text_and_exits_with_zero() {
    let pipeline = Pipeline {
        name: "demo".to_string(),
        description: None,
        use_env: false,
        steps: vec![Step {
            name: None,
            description: None,
            main: Exec {
                program: "echo".to_string(),
                args: Some(vec!["hi".to_string()]),
                output: Output::Stdout,
            },
            pre: None,
            post: None,
            retries: 0,
            timeout: None,
        }],
    };
    let echoed = Completion::Exited { code: Some(0), stdout: b"hi\n".to_vec() };
    let (asked, notices, state) = drive(&pipeline, &|_, _, _| classify(echoed.clone()));
    assert_eq!(asked, vec![(0, Slot::Main)]);
    let lines: Vec<String> = notices.iter().map(|notice| render(&pipeline, notice)).collect();
    assert_eq!(
        lines,
        vec![
            "Pipeline: <demo> is started".to_string(),
            "\tStep [1]".to_string(),
            "\t\thi\n".to_string(),
            "Pipeline: <demo> succeeded".to_string(),
        ]
    );
    assert_eq!(state.result().unwrap().exit_code(), 0);
}

#[test]
fn a_finished_run_ignores_further_outcomes() {
    let pipeline = pipeline_of(vec![step_of("", false, false, 0, None)]);
    let done = RunState::Finished { result: RunResult::Succeeded };
    let (state, notices) = advance(&pipeline, done, Outcome::SpawnError);
    assert_eq!(state, done);
    assert!(notices.is_empty());
    assert_eq!(invocation(&pipeline, &done), None);
}

#[test]
fn a_state_that_does_not_fit_the_pipeline_is_left_alone() {
    let pipeline = pipeline_of(vec![step_of("", false, false, 0, None)]);
    let strays = [
        RunState::Running { index: 1, step: StepState::MainAttempting { failures: 0 } },
        RunState::Running { index: 0, step: StepState::PreRunning },
        RunState::Running { index: 0, step: StepState::PostRunning },
        RunState::Running { index: 0, step: StepState::Pending },
    ];
    for stray in strays {
        assert_eq!(invocation(&pipeline, &stray), None);
        let (state, notices) = advance(&pipeline, stray, printed("x"));
        assert_eq!(state, stray);
        assert!(notices.is_empty());
    }
}

#[test]
fn the_result_is_known_only_when_the_run_is_over() {
    let running = RunState::Running { index: 0, step: StepState::PreRunning };
    assert_eq!(running.result(), None);
    let failed = RunResult::Failed { index: 2, failure: Failure::Timeout };
    assert_eq!(RunState::Finished { result: failed }.result(), Some(failed));
    assert_eq!(RunResult::Succeeded.exit_code(), 0);
    assert_eq!(failed.exit_code(), 1);
}
