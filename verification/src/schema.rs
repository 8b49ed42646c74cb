//! The schema of a pipeline definition: reading a pipeline from a document.
//!
//! ```text
//! name: string (required)
//! description: string
//! use_env: bool (default false)
//! steps: (required)
//!   - name: string
//!     description: string
//!     main: { exec: string (required), args: [string], output: "STDOUT" }
//!     pre: like main
//!     post: like main
//!     retries: non-negative integer (default 0)
//!     timeout: positive integer, in seconds
//! ```
//!
//! A key that is missing and a key that holds null both count as absent;
//! keys that the schema does not know are passed over. The fields are
//! checked in the order in which they stand above, steps and arguments from
//! the first to the last, and the first violation is the error.

use vstd::prelude::*;
use crate::document::{present, tree, trees, Node, Tree};
use crate::machine::Slot;
use crate::model::{texts, step_views, Exec, ExecView, Output, Pipeline, PipelineView, Step, StepView};
use crate::numeral::{numeral_u64, parse_decimal};
use crate::text::same_text;

verus! {

/// How a document violates the schema.
#[derive(Clone, Copy, Debug, PartialEq, Eq, Structural)]
pub enum Problem {
    /// A required field is absent.
    MissingField,
    /// A value is of another kind than the schema asks for.
    WrongType,
    /// A field that is to hold a list holds something else.
    MalformedList,
    /// A text names no value that the schema knows.
    UnknownValue,
    /// A number that must be positive is zero.
    NotPositive,
}

/// A field of the schema.
#[derive(Clone, Copy, Debug, PartialEq, Eq, Structural)]
pub enum Field {
    /// The document as a whole.
    Document,
    Name,
    Description,
    UseEnv,
    Steps,
    /// One element of `steps`.
    Step,
    /// The command of a step; the place says which.
    Command,
    Retries,
    Timeout,
    /// The field `exec` of a command.
    Program,
    Args,
    /// One element of `args`.
    Arg,
    Output,
}

/// Where in a document a violation was found.
#[derive(Clone, Copy, Debug, PartialEq, Eq, Structural)]
pub struct Place {
    /// The position of the step, where the field lies in one.
    pub step: Option<usize>,
    /// The command of the step, where the field lies in one.
    pub slot: Option<Slot>,
    pub field: Field,
}

/// A violation of the schema.
#[derive(Clone, Copy, Debug, PartialEq, Eq, Structural)]
pub struct ParseError {
    pub problem: Problem,
    pub place: Place,
}

/// The error of a problem at a field.
pub open spec fn fault(problem: Problem, step: Option<usize>, slot: Option<Slot>, field: Field) -> ParseError {
    ParseError { problem, place: Place { step, slot, field } }
}

/// A value that must not be absent.
pub open spec fn required<T>(value: Result<Option<T>, ParseError>, place: Place) -> Result<
    T,
    ParseError,
> {
    match value {
        Ok(Some(found)) => Ok(found),
        Ok(None) => Err(ParseError { problem: Problem::MissingField, place }),
        Err(error) => Err(error),
    }
}

/// A field that holds a text, where it is present.
pub open spec fn as_text(found: Option<Tree>, place: Place) -> Result<Option<Seq<char>>, ParseError> {
    match found {
        None => Ok(None),
        Some(Tree::Text(text)) => Ok(Some(text)),
        Some(_) => Err(ParseError { problem: Problem::WrongType, place }),
    }
}

/// A field that holds a truth value, where it is present.
pub open spec fn as_flag(found: Option<Tree>, place: Place) -> Result<Option<bool>, ParseError> {
    match found {
        None => Ok(None),
        Some(Tree::Bool(flag)) => Ok(Some(flag)),
        Some(_) => Err(ParseError { problem: Problem::WrongType, place }),
    }
}

/// A field that holds a non-negative integer of at most 64 bits, where it
/// is present.
pub open spec fn as_count(found: Option<Tree>, place: Place) -> Result<Option<u64>, ParseError> {
    match found {
        None => Ok(None),
        Some(Tree::Number(text)) => match numeral_u64(text) {
            Some(count) => Ok(Some(count)),
            None => Err(ParseError { problem: Problem::WrongType, place }),
        },
        Some(_) => Err(ParseError { problem: Problem::WrongType, place }),
    }
}

/// A field that holds the name of an output mode, where it is present.
pub open spec fn as_output(found: Option<Tree>, place: Place) -> Result<Option<Output>, ParseError> {
    match found {
        None => Ok(None),
        Some(Tree::Text(text)) => if text == "STDOUT"@ {
            Ok(Some(Output::Stdout))
        } else {
            Err(ParseError { problem: Problem::UnknownValue, place })
        },
        Some(_) => Err(ParseError { problem: Problem::WrongType, place }),
    }
}

/// The first `count` arguments of a command.
pub open spec fn decoded_args(
    items: Seq<Tree>,
    count: int,
    step: Option<usize>,
    slot: Option<Slot>,
) -> Result<Seq<Seq<char>>, ParseError>
    decreases count,
{
    if count <= 0 {
        Ok(seq![])
    } else {
        match decoded_args(items, count - 1, step, slot) {
            Err(error) => Err(error),
            Ok(before) => match items[count - 1] {
                Tree::Text(text) => Ok(before.push(text)),
                _ => Err(fault(Problem::WrongType, step, slot, Field::Arg)),
            },
        }
    }
}

/// A field that holds a list of texts, where it is present.
pub open spec fn as_args(found: Option<Tree>, step: Option<usize>, slot: Option<Slot>) -> Result<
    Option<Seq<Seq<char>>>,
    ParseError,
> {
    match found {
        None => Ok(None),
        Some(Tree::List(items)) => match decoded_args(items, items.len() as int, step, slot) {
            Ok(args) => Ok(Some(args)),
            Err(error) => Err(error),
        },
        Some(_) => Err(fault(Problem::MalformedList, step, slot, Field::Args)),
    }
}

/// The command that a node describes.
pub open spec fn decoded_exec(node: Tree, step: Option<usize>, slot: Option<Slot>) -> Result<
    ExecView,
    ParseError,
> {
    match node {
        Tree::Dict(entries) => {
            let program_at = Place { step, slot, field: Field::Program };
            let output_at = Place { step, slot, field: Field::Output };
            match required(as_text(present(entries, "exec"@), program_at), program_at) {
                Err(error) => Err(error),
                Ok(program) => match as_args(present(entries, "args"@), step, slot) {
                    Err(error) => Err(error),
                    Ok(args) => match as_output(present(entries, "output"@), output_at) {
                        Err(error) => Err(error),
                        Ok(output) => Ok(
                            ExecView {
                                program,
                                args,
                                output: match output {
                                    Some(output) => output,
                                    None => Output::Stdout,
                                },
                            },
                        ),
                    },
                },
            }
        },
        _ => Err(fault(Problem::WrongType, step, slot, Field::Command)),
    }
}

/// A field that holds a command, where it is present.
pub open spec fn as_exec(found: Option<Tree>, step: Option<usize>, slot: Slot) -> Result<
    Option<ExecView>,
    ParseError,
> {
    match found {
        None => Ok(None),
        Some(node) => match decoded_exec(node, step, Some(slot)) {
            Ok(command) => Ok(Some(command)),
            Err(error) => Err(error),
        },
    }
}

/// A timeout must be positive.
pub open spec fn positive(value: Result<Option<u64>, ParseError>, place: Place) -> Result<
    Option<u64>,
    ParseError,
> {
    match value {
        Ok(Some(count)) => if count == 0 {
            Err(ParseError { problem: Problem::NotPositive, place })
        } else {
            Ok(Some(count))
        },
        other => other,
    }
}

/// The step that the node at position `index` of `steps` describes.
pub open spec fn decoded_step(node: Tree, index: usize) -> Result<StepView, ParseError> {
    let step = Some(index);
    match node {
        Tree::Dict(entries) => {
            let name_at = Place { step, slot: None, field: Field::Name };
            let description_at = Place { step, slot: None, field: Field::Description };
            let main_at = Place { step, slot: Some(Slot::Main), field: Field::Command };
            let retries_at = Place { step, slot: None, field: Field::Retries };
            let timeout_at = Place { step, slot: None, field: Field::Timeout };
            match as_text(present(entries, "name"@), name_at) {
                Err(error) => Err(error),
                Ok(name) => match as_text(present(entries, "description"@), description_at) {
                    Err(error) => Err(error),
                    Ok(description) => match required(
                        as_exec(present(entries, "main"@), step, Slot::Main),
                        main_at,
                    ) {
                        Err(error) => Err(error),
                        Ok(main) => match as_exec(present(entries, "pre"@), step, Slot::Pre) {
                            Err(error) => Err(error),
                            Ok(pre) => match as_exec(present(entries, "post"@), step, Slot::Post) {
                                Err(error) => Err(error),
                                Ok(post) => match as_count(
                                    present(entries, "retries"@),
                                    retries_at,
                                ) {
                                    Err(error) => Err(error),
                                    Ok(retries) => match positive(
                                        as_count(present(entries, "timeout"@), timeout_at),
                                        timeout_at,
                                    ) {
                                        Err(error) => Err(error),
                                        Ok(timeout) => Ok(
                                            StepView {
                                                name,
                                                description,
                                                main,
                                                pre,
                                                post,
                                                retries: match retries {
                                                    Some(count) => count,
                                                    None => 0,
                                                },
                                                timeout,
                                            },
                                        ),
                                    },
                                },
                            },
                        },
                    },
                },
            }
        },
        _ => Err(fault(Problem::WrongType, step, None, Field::Step)),
    }
}

/// The first `count` steps of a pipeline.
pub open spec fn decoded_steps(items: Seq<Tree>, count: int) -> Result<Seq<StepView>, ParseError>
    decreases count,
{
    if count <= 0 {
        Ok(seq![])
    } else {
        match decoded_steps(items, count - 1) {
            Err(error) => Err(error),
            Ok(before) => match decoded_step(items[count - 1], (count - 1) as usize) {
                Ok(step) => Ok(before.push(step)),
                Err(error) => Err(error),
            },
        }
    }
}

/// A field that holds the list of steps, where it is present.
pub open spec fn as_steps(found: Option<Tree>) -> Result<Option<Seq<StepView>>, ParseError> {
    match found {
        None => Ok(None),
        Some(Tree::List(items)) => match decoded_steps(items, items.len() as int) {
            Ok(steps) => Ok(Some(steps)),
            Err(error) => Err(error),
        },
        Some(_) => Err(fault(Problem::MalformedList, None, None, Field::Steps)),
    }
}

/// The pipeline that a document describes, or the first violation of the
/// schema in it.
pub open spec fn decoded(document: Tree) -> Result<PipelineView, ParseError> {
    match document {
        Tree::Dict(entries) => {
            let name_at = Place { step: None, slot: None, field: Field::Name };
            let description_at = Place { step: None, slot: None, field: Field::Description };
            let use_env_at = Place { step: None, slot: None, field: Field::UseEnv };
            let steps_at = Place { step: None, slot: None, field: Field::Steps };
            match required(as_text(present(entries, "name"@), name_at), name_at) {
                Err(error) => Err(error),
                Ok(name) => match as_text(present(entries, "description"@), description_at) {
                    Err(error) => Err(error),
                    Ok(description) => match as_flag(present(entries, "use_env"@), use_env_at) {
                        Err(error) => Err(error),
                        Ok(use_env) => match required(
                            as_steps(present(entries, "steps"@)),
                            steps_at,
                        ) {
                            Err(error) => Err(error),
                            Ok(steps) => Ok(
                                PipelineView {
                                    name,
                                    description,
                                    use_env: match use_env {
                                        Some(flag) => flag,
                                        None => false,
                                    },
                                    steps,
                                },
                            ),
                        },
                    },
                },
            }
        },
        _ => Err(fault(Problem::WrongType, None, None, Field::Document)),
    }
}

/// The tree of an optional node.
pub open spec fn found_tree(found: Option<&Node>) -> Option<Tree> {
    match found {
        Some(node) => Some(node@),
        None => None,
    }
}

/// What reading a text came to, against what the schema says.
pub open spec fn text_matches(read: Result<Option<String>, ParseError>, said: Result<Option<Seq<char>>, ParseError>) -> bool {
    match read {
        Ok(Some(text)) => said == Ok::<Option<Seq<char>>, ParseError>(Some(text@)),
        Ok(None) => said == Ok::<Option<Seq<char>>, ParseError>(None),
        Err(error) => said == Err::<Option<Seq<char>>, ParseError>(error),
    }
}

fn read_text(found: Option<&Node>, place: Place) -> (read: Result<Option<String>, ParseError>)
    ensures
        text_matches(read, as_text(found_tree(found), place)),
{
    match found {
        None => Ok(None),
        Some(Node::Text(text)) => Ok(Some(text.clone())),
        Some(_) => Err(ParseError { problem: Problem::WrongType, place }),
    }
}

fn read_flag(found: Option<&Node>, place: Place) -> (read: Result<Option<bool>, ParseError>)
    ensures
        read == as_flag(found_tree(found), place),
{
    match found {
        None => Ok(None),
        Some(Node::Bool(flag)) => Ok(Some(*flag)),
        Some(_) => Err(ParseError { problem: Problem::WrongType, place }),
    }
}

fn read_count(found: Option<&Node>, place: Place) -> (read: Result<Option<u64>, ParseError>)
    ensures
        read == as_count(found_tree(found), place),
{
    match found {
        None => Ok(None),
        Some(Node::Number(text)) => match parse_decimal(text.as_str()) {
            Some(count) => Ok(Some(count)),
            None => Err(ParseError { problem: Problem::WrongType, place }),
        },
        Some(_) => Err(ParseError { problem: Problem::WrongType, place }),
    }
}

fn read_output(found: Option<&Node>, place: Place) -> (read: Result<Option<Output>, ParseError>)
    ensures
        read == as_output(found_tree(found), place),
{
    match found {
        None => Ok(None),
        Some(Node::Text(text)) => {
            if same_text(text.as_str(), "STDOUT") {
                Ok(Some(Output::Stdout))
            } else {
                Err(ParseError { problem: Problem::UnknownValue, place })
            }
        },
        Some(_) => Err(ParseError { problem: Problem::WrongType, place }),
    }
}

/// What reading the arguments came to, against what the schema says.
pub open spec fn args_match(
    read: Result<Option<Vec<String>>, ParseError>,
    said: Result<Option<Seq<Seq<char>>>, ParseError>,
) -> bool {
    match read {
        Ok(Some(args)) => said == Ok::<Option<Seq<Seq<char>>>, ParseError>(Some(texts(args@))),
        Ok(None) => said == Ok::<Option<Seq<Seq<char>>>, ParseError>(None),
        Err(error) => said == Err::<Option<Seq<Seq<char>>>, ParseError>(error),
    }
}

fn read_args(found: Option<&Node>, step: Option<usize>, slot: Option<Slot>) -> (read: Result<
    Option<Vec<String>>,
    ParseError,
>)
    ensures
        args_match(read, as_args(found_tree(found), step, slot)),
{
    match found {
        None => Ok(None),
        Some(Node::List(items)) => {
            let ghost all = trees(items@);
            let mut args: Vec<String> = Vec::new();
            let mut at: usize = 0;
            assert(texts(args@) =~= Seq::<Seq<char>>::empty());
            while at < items.len()
                invariant
                    at <= items.len(),
                    all == trees(items@),
                    found_tree(found) == Some(Tree::List(all)),
                    decoded_args(all, at as int, step, slot) == Ok::<Seq<Seq<char>>, ParseError>(
                        texts(args@),
                    ),
                decreases items.len() - at,
            {
                let ghost before = texts(args@);
                match &items[at] {
                    Node::Text(text) => {
                        args.push(text.clone());
                        assert(texts(args@) =~= before.push(text@));
                    },
                    _ => {
                        proof {
                            assert(all[at as int] == tree(items@[at as int]));
                            assert(decoded_args(all, at + 1, step, slot) is Err);
                            lemma_args_error_stays(all, at + 1, all.len() as int, step, slot);
                        }
                        return Err(
                            ParseError {
                                problem: Problem::WrongType,
                                place: Place { step, slot, field: Field::Arg },
                            },
                        );
                    },
                }
                at = at + 1;
            }
            Ok(Some(args))
        },
        Some(_) => Err(
            ParseError {
                problem: Problem::MalformedList,
                place: Place { step, slot, field: Field::Args },
            },
        ),
    }
}

/// Once the arguments up to some position have an error, so has every
/// longer beginning of the list, and the same one.
proof fn lemma_args_error_stays(
    items: Seq<Tree>,
    count: int,
    longer: int,
    step: Option<usize>,
    slot: Option<Slot>,
)
    requires
        count <= longer,
        decoded_args(items, count, step, slot) is Err,
    ensures
        decoded_args(items, longer, step, slot) == decoded_args(items, count, step, slot),
    decreases longer - count,
{
    if count < longer {
        lemma_args_error_stays(items, count, longer - 1, step, slot);
    }
}

/// Once the steps up to some position have an error, so has every longer
/// beginning of the list, and the same one.
proof fn lemma_steps_error_stays(items: Seq<Tree>, count: int, longer: int)
    requires
        count <= longer,
        decoded_steps(items, count) is Err,
    ensures
        decoded_steps(items, longer) == decoded_steps(items, count),
    decreases longer - count,
{
    if count < longer {
        lemma_steps_error_stays(items, count, longer - 1);
    }
}

/// What reading a command came to, against what the schema says.
pub open spec fn exec_matches(read: Result<Exec, ParseError>, said: Result<ExecView, ParseError>) -> bool {
    match read {
        Ok(command) => said == Ok::<ExecView, ParseError>(command@),
        Err(error) => said == Err::<ExecView, ParseError>(error),
    }
}

/// Reads a command from a node of a document.
pub fn decode_exec(node: &Node, step: Option<usize>, slot: Option<Slot>) -> (read: Result<
    Exec,
    ParseError,
>)
    ensures
        exec_matches(read, decoded_exec(node@, step, slot)),
{
    match node {
        Node::Dict(_) => {},
        _ => {
            return Err(
                ParseError {
                    problem: Problem::WrongType,
                    place: Place { step, slot, field: Field::Command },
                },
            );
        },
    }
    let program_at = Place { step, slot, field: Field::Program };
    let output_at = Place { step, slot, field: Field::Output };
    let program = match read_text(node.get("exec"), program_at) {
        Err(error) => {
            return Err(error);
        },
        Ok(None) => {
            return Err(ParseError { problem: Problem::MissingField, place: program_at });
        },
        Ok(Some(program)) => program,
    };
    let args = match read_args(node.get("args"), step, slot) {
        Err(error) => {
            return Err(error);
        },
        Ok(args) => args,
    };
    let output = match read_output(node.get("output"), output_at) {
        Err(error) => {
            return Err(error);
        },
        Ok(Some(output)) => output,
        Ok(None) => Output::Stdout,
    };
    Ok(Exec { program, args, output })
}

/// What reading an optional command came to, against what the schema says.
pub open spec fn hook_matches(
    read: Result<Option<Exec>, ParseError>,
    said: Result<Option<ExecView>, ParseError>,
) -> bool {
    match read {
        Ok(Some(command)) => said == Ok::<Option<ExecView>, ParseError>(Some(command@)),
        Ok(None) => said == Ok::<Option<ExecView>, ParseError>(None),
        Err(error) => said == Err::<Option<ExecView>, ParseError>(error),
    }
}

fn read_exec(found: Option<&Node>, step: Option<usize>, slot: Slot) -> (read: Result<
    Option<Exec>,
    ParseError,
>)
    ensures
        hook_matches(read, as_exec(found_tree(found), step, slot)),
{
    match found {
        None => Ok(None),
        Some(node) => match decode_exec(node, step, Some(slot)) {
            Ok(command) => Ok(Some(command)),
            Err(error) => Err(error),
        },
    }
}

/// What reading a step came to, against what the schema says.
pub open spec fn step_matches(read: Result<Step, ParseError>, said: Result<StepView, ParseError>) -> bool {
    match read {
        Ok(step) => said == Ok::<StepView, ParseError>(step@) && step@.well_formed(),
        Err(error) => said == Err::<StepView, ParseError>(error),
    }
}

/// Reads the step at position `index` from a node of a document.
pub fn decode_step(node: &Node, index: usize) -> (read: Result<Step, ParseError>)
    ensures
        step_matches(read, decoded_step(node@, index)),
{
    let step = Some(index);
    match node {
        Node::Dict(_) => {},
        _ => {
            return Err(
                ParseError {
                    problem: Problem::WrongType,
                    place: Place { step, slot: None, field: Field::Step },
                },
            );
        },
    }
    let name_at = Place { step, slot: None, field: Field::Name };
    let description_at = Place { step, slot: None, field: Field::Description };
    let main_at = Place { step, slot: Some(Slot::Main), field: Field::Command };
    let retries_at = Place { step, slot: None, field: Field::Retries };
    let timeout_at = Place { step, slot: None, field: Field::Timeout };
    let name = match read_text(node.get("name"), name_at) {
        Err(error) => {
            return Err(error);
        },
        Ok(name) => name,
    };
    let description = match read_text(node.get("description"), description_at) {
        Err(error) => {
            return Err(error);
        },
        Ok(description) => description,
    };
    let main = match read_exec(node.get("main"), step, Slot::Main) {
        Err(error) => {
            return Err(error);
        },
        Ok(None) => {
            return Err(ParseError { problem: Problem::MissingField, place: main_at });
        },
        Ok(Some(main)) => main,
    };
    let pre = match read_exec(node.get("pre"), step, Slot::Pre) {
        Err(error) => {
            return Err(error);
        },
        Ok(pre) => pre,
    };
    let post = match read_exec(node.get("post"), step, Slot::Post) {
        Err(error) => {
            return Err(error);
        },
        Ok(post) => post,
    };
    let retries = match read_count(node.get("retries"), retries_at) {
        Err(error) => {
            return Err(error);
        },
        Ok(Some(count)) => count,
        Ok(None) => 0,
    };
    let timeout = match read_count(node.get("timeout"), timeout_at) {
        Err(error) => {
            return Err(error);
        },
        Ok(Some(0)) => {
            return Err(ParseError { problem: Problem::NotPositive, place: timeout_at });
        },
        Ok(timeout) => timeout,
    };
    Ok(Step { name, description, main, pre, post, retries, timeout })
}

/// What reading the steps came to, against what the schema says.
pub open spec fn steps_match(
    read: Result<Option<Vec<Step>>, ParseError>,
    said: Result<Option<Seq<StepView>>, ParseError>,
) -> bool {
    match read {
        Ok(Some(steps)) => {
            &&& said == Ok::<Option<Seq<StepView>>, ParseError>(Some(step_views(steps@)))
            &&& forall|i: int| 0 <= i < steps@.len() ==> (#[trigger] steps@[i])@.well_formed()
        },
        Ok(None) => said == Ok::<Option<Seq<StepView>>, ParseError>(None),
        Err(error) => said == Err::<Option<Seq<StepView>>, ParseError>(error),
    }
}

fn read_steps(found: Option<&Node>) -> (read: Result<Option<Vec<Step>>, ParseError>)
    ensures
        steps_match(read, as_steps(found_tree(found))),
{
    match found {
        None => Ok(None),
        Some(Node::List(items)) => {
            let ghost all = trees(items@);
            let mut steps: Vec<Step> = Vec::new();
            let mut at: usize = 0;
            assert(step_views(steps@) =~= Seq::<StepView>::empty());
            while at < items.len()
                invariant
                    at <= items.len(),
                    all == trees(items@),
                    found_tree(found) == Some(Tree::List(all)),
                    decoded_steps(all, at as int) == Ok::<Seq<StepView>, ParseError>(
                        step_views(steps@),
                    ),
                    forall|i: int| 0 <= i < steps@.len() ==> (#[trigger] steps@[i])@.well_formed(),
                decreases items.len() - at,
            {
                let ghost before = step_views(steps@);
                match decode_step(&items[at], at) {
                    Ok(step) => {
                        let ghost view = step@;
                        steps.push(step);
                        assert(step_views(steps@) =~= before.push(view));
                    },
                    Err(error) => {
                        proof {
                            assert(all[at as int] == tree(items@[at as int]));
                            assert(decoded_steps(all, at + 1) is Err);
                            lemma_steps_error_stays(all, at + 1, all.len() as int);
                        }
                        return Err(error);
                    },
                }
                at = at + 1;
            }
            Ok(Some(steps))
        },
        Some(_) => Err(
            ParseError {
                problem: Problem::MalformedList,
                place: Place { step: None, slot: None, field: Field::Steps },
            },
        ),
    }
}

/// Reads a pipeline from a document. The result is the pipeline that the
/// schema finds in the document, or the first violation of the schema.
pub fn decode(document: &Node) -> (read: Result<Pipeline, ParseError>)
    ensures
        match read {
            Ok(pipeline) => decoded(document@) == Ok::<PipelineView, ParseError>(pipeline@)
                && pipeline@.well_formed(),
            Err(error) => decoded(document@) == Err::<PipelineView, ParseError>(error),
        },
{
    match document {
        Node::Dict(_) => {},
        _ => {
            return Err(
                ParseError {
                    problem: Problem::WrongType,
                    place: Place { step: None, slot: None, field: Field::Document },
                },
            );
        },
    }
    let name_at = Place { step: None, slot: None, field: Field::Name };
    let description_at = Place { step: None, slot: None, field: Field::Description };
    let use_env_at = Place { step: None, slot: None, field: Field::UseEnv };
    let steps_at = Place { step: None, slot: None, field: Field::Steps };
    let name = match read_text(document.get("name"), name_at) {
        Err(error) => {
            return Err(error);
        },
        Ok(None) => {
            return Err(ParseError { problem: Problem::MissingField, place: name_at });
        },
        Ok(Some(name)) => name,
    };
    let description = match read_text(document.get("description"), description_at) {
        Err(error) => {
            return Err(error);
        },
        Ok(description) => description,
    };
    let use_env = match read_flag(document.get("use_env"), use_env_at) {
        Err(error) => {
            return Err(error);
        },
        Ok(Some(flag)) => flag,
        Ok(None) => false,
    };
    let steps = match read_steps(document.get("steps")) {
        Err(error) => {
            return Err(error);
        },
        Ok(None) => {
            return Err(ParseError { problem: Problem::MissingField, place: steps_at });
        },
        Ok(Some(steps)) => steps,
    };
    Ok(Pipeline { name, description, use_env, steps })
}

} // verus!
