//! The presentation of a run: each notice as a line of text.
//!
//! Progress and the output of commands belong on the standard stream,
//! diagnostics on the error stream; [`Notice::is_diagnostic`] tells them
//! apart.

use vstd::prelude::*;
use vstd::string::StringExecFns;
use crate::machine::{Failure, Slot};
use crate::model::{Pipeline, PipelineView};
use crate::numeral::{decimal, decimal_text, signed_decimal, signed_text};
use crate::outcome::Cause;
use crate::runner::{Notice, NoticeView, RunResult};
use crate::schema::{Field, ParseError, Problem};
use crate::yaml::LoadError;

verus! {

/// The label of the step at `index`: its name where it has one, and
/// otherwise its position, counted from one.
pub open spec fn label_text(pipeline: PipelineView, index: usize) -> Seq<char> {
    if index < pipeline.steps.len() && pipeline.steps[index as int].name is Some {
        pipeline.steps[index as int].name->0
    } else {
        decimal_text((index + 1) as nat)
    }
}

/// What a slot is called in a diagnostic.
pub open spec fn slot_text(slot: Slot) -> Seq<char> {
    match slot {
        Slot::Pre => "pre-hook"@,
        Slot::Main => "main command"@,
        Slot::Post => "post-hook"@,
    }
}

/// What a cause is called in a diagnostic.
pub open spec fn cause_text(cause: Cause) -> Seq<char> {
    match cause {
        Cause::Spawn => "could not be started"@,
        Cause::Encoding => "printed what is not valid text"@,
        Cause::Exit { code: Some(code) } => "exited with status "@ + signed_text(code as int),
        Cause::Exit { code: None } => "ended without an exit status"@,
        Cause::Deadline => "ran past its deadline"@,
    }
}

/// What a failure is called in a diagnostic.
pub open spec fn failure_text(failure: Failure) -> Seq<char> {
    match failure {
        Failure::Hook { cause } => "pre-hook "@ + cause_text(cause),
        Failure::Step { cause } => "main command "@ + cause_text(cause),
        Failure::Timeout => "main command timed out"@,
    }
}

/// The line of a notice.
pub open spec fn rendered(pipeline: PipelineView, notice: NoticeView) -> Seq<char> {
    match notice {
        NoticeView::PipelineStarted => "Pipeline: <"@ + pipeline.name + "> is started"@,
        NoticeView::StepStarted { index } => "\tStep ["@ + label_text(pipeline, index) + "]"@,
        NoticeView::Output { text } => "\t\t"@ + text,
        NoticeView::AttemptFailed { index, slot, cause, retrying } => "\tStep ["@ + label_text(
            pipeline,
            index,
        ) + "] "@ + slot_text(slot) + " "@ + cause_text(cause) + if retrying {
            ", retrying"@
        } else {
            ""@
        },
        NoticeView::PipelineFinished { result: RunResult::Succeeded } => "Pipeline: <"@
            + pipeline.name + "> succeeded"@,
        NoticeView::PipelineFinished { result: RunResult::Failed { index, failure } } =>
            "Pipeline: <"@ + pipeline.name + "> failed at step ["@ + label_text(pipeline, index)
                + "]: "@ + failure_text(failure),
    }
}

impl NoticeView {
    /// Whether the notice reports a failure.
    pub open spec fn is_diagnostic(self) -> bool {
        match self {
            NoticeView::AttemptFailed { .. } => true,
            NoticeView::PipelineFinished { result: RunResult::Failed { .. } } => true,
            _ => false,
        }
    }
}

impl Notice {
    /// Whether the notice reports a failure and so belongs on the error
    /// stream.
    pub fn is_diagnostic(&self) -> (diagnostic: bool)
        ensures
            diagnostic == self@.is_diagnostic(),
    {
        match self {
            Notice::AttemptFailed { .. } => true,
            Notice::PipelineFinished { result: RunResult::Failed { .. } } => true,
            _ => false,
        }
    }
}

/// The label of the step at `index`.
pub fn label(pipeline: &Pipeline, index: usize) -> (text: String)
    ensures
        text@ == label_text(pipeline@, index),
{
    if index < pipeline.steps.len() {
        match &pipeline.steps[index].name {
            Some(name) => {
                return name.clone();
            },
            None => {},
        }
    }
    decimal(index as u128 + 1)
}

fn slot_name(slot: Slot) -> (text: &'static str)
    ensures
        text@ == slot_text(slot),
{
    match slot {
        Slot::Pre => "pre-hook",
        Slot::Main => "main command",
        Slot::Post => "post-hook",
    }
}

fn describe_cause(cause: Cause) -> (text: String)
    ensures
        text@ == cause_text(cause),
{
    match cause {
        Cause::Spawn => String::from_str("could not be started"),
        Cause::Encoding => String::from_str("printed what is not valid text"),
        Cause::Exit { code: Some(code) } => String::from_str("exited with status ").concat(
            signed_decimal(code as i64).as_str(),
        ),
        Cause::Exit { code: None } => String::from_str("ended without an exit status"),
        Cause::Deadline => String::from_str("ran past its deadline"),
    }
}

fn describe_failure(failure: Failure) -> (text: String)
    ensures
        text@ == failure_text(failure),
{
    match failure {
        Failure::Hook { cause } => String::from_str("pre-hook ").concat(
            describe_cause(cause).as_str(),
        ),
        Failure::Step { cause } => String::from_str("main command ").concat(
            describe_cause(cause).as_str(),
        ),
        Failure::Timeout => String::from_str("main command timed out"),
    }
}

/// Writes the line of a notice of a run of `pipeline`.
pub fn render(pipeline: &Pipeline, notice: &Notice) -> (line: String)
    ensures
        line@ == rendered(pipeline@, notice@),
{
    match notice {
        Notice::PipelineStarted => {
            let mut line = String::from_str("Pipeline: <");
            line.append(pipeline.name.as_str());
            line.append("> is started");
            line
        },
        Notice::StepStarted { index } => {
            let mut line = String::from_str("\tStep [");
            line.append(label(pipeline, *index).as_str());
            line.append("]");
            line
        },
        Notice::Output { text } => {
            let mut line = String::from_str("\t\t");
            line.append(text.as_str());
            line
        },
        Notice::AttemptFailed { index, slot, cause, retrying } => {
            let mut line = String::from_str("\tStep [");
            line.append(label(pipeline, *index).as_str());
            line.append("] ");
            line.append(slot_name(*slot));
            line.append(" ");
            line.append(describe_cause(*cause).as_str());
            if *retrying {
                line.append(", retrying");
            } else {
                line.append("");
            }
            line
        },
        Notice::PipelineFinished { result: RunResult::Succeeded } => {
            let mut line = String::from_str("Pipeline: <");
            line.append(pipeline.name.as_str());
            line.append("> succeeded");
            line
        },
        Notice::PipelineFinished { result: RunResult::Failed { index, failure } } => {
            let mut line = String::from_str("Pipeline: <");
            line.append(pipeline.name.as_str());
            line.append("> failed at step [");
            line.append(label(pipeline, *index).as_str());
            line.append("]: ");
            line.append(describe_failure(*failure).as_str());
            line
        },
    }
}

/// What a field is called in a diagnostic.
pub open spec fn field_text(field: Field) -> Seq<char> {
    match field {
        Field::Document => "document"@,
        Field::Name => "name"@,
        Field::Description => "description"@,
        Field::UseEnv => "use_env"@,
        Field::Steps => "steps"@,
        Field::Step => "step"@,
        Field::Command => "command"@,
        Field::Retries => "retries"@,
        Field::Timeout => "timeout"@,
        Field::Program => "exec"@,
        Field::Args => "args"@,
        Field::Arg => "argument"@,
        Field::Output => "output"@,
    }
}

/// What a problem is called in a diagnostic.
pub open spec fn problem_text(problem: Problem) -> Seq<char> {
    match problem {
        Problem::MissingField => "is missing"@,
        Problem::WrongType => "is of the wrong type"@,
        Problem::MalformedList => "is not a list"@,
        Problem::UnknownValue => "is not a known value"@,
        Problem::NotPositive => "must be positive"@,
    }
}

/// The step that a place lies in, counted from one.
pub open spec fn step_prefix(step: Option<usize>) -> Seq<char> {
    match step {
        Some(index) => "step "@ + decimal_text((index + 1) as nat) + ", "@,
        None => ""@,
    }
}

/// The command that a place lies in.
pub open spec fn slot_prefix(slot: Option<Slot>) -> Seq<char> {
    match slot {
        Some(slot) => slot_text(slot) + ", "@,
        None => ""@,
    }
}

/// The diagnostic of a violation of the schema.
pub open spec fn parse_error_text(error: ParseError) -> Seq<char> {
    step_prefix(error.place.step) + slot_prefix(error.place.slot) + field_text(error.place.field)
        + " "@ + problem_text(error.problem)
}

fn field_name(field: Field) -> (text: &'static str)
    ensures
        text@ == field_text(field),
{
    match field {
        Field::Document => "document",
        Field::Name => "name",
        Field::Description => "description",
        Field::UseEnv => "use_env",
        Field::Steps => "steps",
        Field::Step => "step",
        Field::Command => "command",
        Field::Retries => "retries",
        Field::Timeout => "timeout",
        Field::Program => "exec",
        Field::Args => "args",
        Field::Arg => "argument",
        Field::Output => "output",
    }
}

fn problem_name(problem: Problem) -> (text: &'static str)
    ensures
        text@ == problem_text(problem),
{
    match problem {
        Problem::MissingField => "is missing",
        Problem::WrongType => "is of the wrong type",
        Problem::MalformedList => "is not a list",
        Problem::UnknownValue => "is not a known value",
        Problem::NotPositive => "must be positive",
    }
}

impl ParseError {
    /// The diagnostic of this violation: where it lies and what it is.
    pub fn message(&self) -> (text: String)
        ensures
            text@ == parse_error_text(*self),
    {
        let mut text = match self.place.step {
            Some(index) => {
                let mut prefix = String::from_str("step ");
                prefix.append(decimal(index as u128 + 1).as_str());
                prefix.append(", ");
                prefix
            },
            None => String::from_str(""),
        };
        match self.place.slot {
            Some(slot) => {
                let mut prefix = String::from_str(slot_name(slot));
                prefix.append(", ");
                text.append(prefix.as_str());
            },
            None => {
                text.append("");
            },
        }
        text.append(field_name(self.place.field));
        text.append(" ");
        text.append(problem_name(self.problem));
        text
    }
}

/// The diagnostic of a definition that could not be loaded.
pub open spec fn load_error_text(error: LoadError) -> Seq<char> {
    match error {
        LoadError::Syntax { message } => "invalid YAML: "@ + message@,
        LoadError::Schema { error } => "invalid definition: "@ + parse_error_text(error),
    }
}

impl LoadError {
    /// The diagnostic of this error.
    pub fn message(&self) -> (text: String)
        ensures
            text@ == load_error_text(*self),
    {
        match self {
            LoadError::Syntax { message } => String::from_str("invalid YAML: ").concat(
                message.as_str(),
            ),
            LoadError::Schema { error } => String::from_str("invalid definition: ").concat(
                error.message().as_str(),
            ),
        }
    }
}

} // verus!
