//! The data model: commands, steps and pipelines, each with its view.

use vstd::prelude::*;

verus! {

/// Where the captured output of a command goes.
#[non_exhaustive]
#[derive(Clone, Copy, Debug, PartialEq, Eq, Structural)]
pub enum Output {
    /// The decoded text is written to the console.
    Stdout,
}

impl Default for Output {
    fn default() -> (out: Output)
        ensures
            out == Output::Stdout,
    {
        Output::Stdout
    }
}

/// One external command: a program, its arguments and its output mode.
#[derive(Clone, Debug, PartialEq, Eq)]
pub struct Exec {
    pub program: String,
    pub args: Option<Vec<String>>,
    pub output: Output,
}

/// The mathematical value of an [`Exec`].
pub struct ExecView {
    pub program: Seq<char>,
    pub args: Option<Seq<Seq<char>>>,
    pub output: Output,
}

/// The views of a list of strings, element by element.
pub open spec fn texts(items: Seq<String>) -> Seq<Seq<char>> {
    Seq::new(items.len(), |i: int| items[i]@)
}

impl View for Exec {
    type V = ExecView;

    open spec fn view(&self) -> ExecView {
        ExecView {
            program: self.program@,
            args: match self.args {
                Some(items) => Some(texts(items@)),
                None => None,
            },
            output: self.output,
        }
    }
}

/// A stage of a pipeline: hooks around a main command, and the policy under
/// which the main command is attempted.
#[derive(Clone, Debug, PartialEq, Eq)]
pub struct Step {
    pub name: Option<String>,
    pub description: Option<String>,
    pub main: Exec,
    pub pre: Option<Exec>,
    pub post: Option<Exec>,
    /// Additional attempts allowed after a failed main command.
    pub retries: u64,
    /// Seconds a main attempt may run; where set, it is positive.
    pub timeout: Option<u64>,
}

/// The mathematical value of a [`Step`].
pub struct StepView {
    pub name: Option<Seq<char>>,
    pub description: Option<Seq<char>>,
    pub main: ExecView,
    pub pre: Option<ExecView>,
    pub post: Option<ExecView>,
    pub retries: u64,
    pub timeout: Option<u64>,
}

/// The view of an optional string.
pub open spec fn text_of(value: Option<String>) -> Option<Seq<char>> {
    match value {
        Some(s) => Some(s@),
        None => None,
    }
}

/// The view of an optional command.
pub open spec fn exec_of(value: Option<Exec>) -> Option<ExecView> {
    match value {
        Some(e) => Some(e@),
        None => None,
    }
}

impl View for Step {
    type V = StepView;

    open spec fn view(&self) -> StepView {
        StepView {
            name: text_of(self.name),
            description: text_of(self.description),
            main: self.main@,
            pre: exec_of(self.pre),
            post: exec_of(self.post),
            retries: self.retries,
            timeout: self.timeout,
        }
    }
}

impl StepView {
    /// A timeout, where set, is a positive number of seconds.
    pub open spec fn well_formed(self) -> bool {
        self.timeout matches Some(t) ==> t > 0
    }
}

/// A named, ordered list of steps.
#[derive(Clone, Debug, PartialEq, Eq)]
pub struct Pipeline {
    pub name: String,
    pub description: Option<String>,
    /// Whether child processes inherit the whole environment of the runner.
    pub use_env: bool,
    /// The steps, in the order in which they run.
    pub steps: Vec<Step>,
}

/// The mathematical value of a [`Pipeline`].
pub struct PipelineView {
    pub name: Seq<char>,
    pub description: Option<Seq<char>>,
    pub use_env: bool,
    pub steps: Seq<StepView>,
}

/// The views of a list of steps, element by element.
pub open spec fn step_views(items: Seq<Step>) -> Seq<StepView> {
    Seq::new(items.len(), |i: int| items[i]@)
}

impl View for Pipeline {
    type V = PipelineView;

    open spec fn view(&self) -> PipelineView {
        PipelineView {
            name: self.name@,
            description: text_of(self.description),
            use_env: self.use_env,
            steps: step_views(self.steps@),
        }
    }
}

impl PipelineView {
    /// Every step is well formed.
    pub open spec fn well_formed(self) -> bool {
        forall|i: int| 0 <= i < self.steps.len() ==> (#[trigger] self.steps[i]).well_formed()
    }
}

impl Step {
    /// Whether the timeout, where set, is positive.
    pub fn is_well_formed(&self) -> (ok: bool)
        ensures
            ok == self@.well_formed(),
    {
        match self.timeout {
            Some(seconds) => seconds > 0,
            None => true,
        }
    }
}

impl Pipeline {
    /// Whether every step is well formed.
    pub fn is_well_formed(&self) -> (ok: bool)
        ensures
            ok == self@.well_formed(),
    {
        let mut at: usize = 0;
        while at < self.steps.len()
            invariant
                at <= self.steps.len(),
                forall|i: int| 0 <= i < at ==> (#[trigger] self@.steps[i]).well_formed(),
            decreases self.steps.len() - at,
        {
            if !self.steps[at].is_well_formed() {
                assert(!self@.steps[at as int].well_formed());
                return false;
            }
            at = at + 1;
        }
        true
    }
}

/// The environment that child processes are started with.
#[derive(Clone, Copy, Debug, PartialEq, Eq, Structural)]
pub enum Environment {
    /// Every variable of the runner's own environment.
    Inherited,
    /// Only `PATH` is passed on, so that programs are still found by name
    /// while nothing else of the caller's environment leaks into a run.
    PathOnly,
}

impl Pipeline {
    /// The environment of this pipeline's child processes: the runner's own
    /// where `use_env` is set, and otherwise `PATH` alone.
    pub fn environment(&self) -> (env: Environment)
        ensures
            env == environment_of(self@.use_env),
    {
        if self.use_env {
            Environment::Inherited
        } else {
            Environment::PathOnly
        }
    }
}

/// The environment that goes with a value of `use_env`.
pub open spec fn environment_of(use_env: bool) -> Environment {
    if use_env {
        Environment::Inherited
    } else {
        Environment::PathOnly
    }
}

} // verus!
