//! Writing a pipeline as a definition document, and the law that reading
//! the document gives the pipeline back.
//!
//! A field that the pipeline does not hold is left out of the document;
//! `use_env`, `retries` and `output` are always written.

use vstd::prelude::*;
use vstd::string::StringExecFns;
use crate::document::{entry_trees, field, tree, trees, Node, Tree};
use crate::machine::Slot;
use crate::model::{step_views, texts, Exec, ExecView, Output, Pipeline, PipelineView, Step, StepView};
use crate::numeral::{decimal, decimal_text, law_numeral_round_trip};
use crate::schema::{
    decoded, decoded_args, decoded_exec, decoded_step, decoded_steps, ParseError,
};

verus! {

/// The entries of a mapping with one more entry at their end.
pub open spec fn put(entries: Seq<(Tree, Tree)>, key: Seq<char>, value: Tree) -> Seq<(Tree, Tree)> {
    entries.push((Tree::Text(key), value))
}

/// The entries of a mapping with one more entry, where there is a value.
pub open spec fn put_some(entries: Seq<(Tree, Tree)>, key: Seq<char>, value: Option<Tree>) -> Seq<
    (Tree, Tree),
> {
    match value {
        Some(value) => put(entries, key, value),
        None => entries,
    }
}

/// An optional text as a node.
pub open spec fn text_tree(text: Option<Seq<char>>) -> Option<Tree> {
    match text {
        Some(text) => Some(Tree::Text(text)),
        None => None,
    }
}

/// An optional count as a node.
pub open spec fn count_tree(count: Option<u64>) -> Option<Tree> {
    match count {
        Some(count) => Some(Tree::Number(decimal_text(count as nat))),
        None => None,
    }
}

/// The name of an output mode in a document.
pub open spec fn output_name(output: Output) -> Seq<char> {
    match output {
        Output::Stdout => "STDOUT"@,
    }
}

/// The arguments of a command as nodes.
pub open spec fn encoded_args(args: Seq<Seq<char>>) -> Seq<Tree> {
    Seq::new(args.len(), |i: int| Tree::Text(args[i]))
}

/// The arguments of a command as a node, where it has any.
pub open spec fn args_tree(args: Option<Seq<Seq<char>>>) -> Option<Tree> {
    match args {
        Some(args) => Some(Tree::List(encoded_args(args))),
        None => None,
    }
}

/// A command as a node.
pub open spec fn encoded_exec(command: ExecView) -> Tree {
    let with_program = put(seq![], "exec"@, Tree::Text(command.program));
    let with_args = put_some(with_program, "args"@, args_tree(command.args));
    Tree::Dict(put(with_args, "output"@, Tree::Text(output_name(command.output))))
}

/// An optional command as a node.
pub open spec fn exec_tree(command: Option<ExecView>) -> Option<Tree> {
    match command {
        Some(command) => Some(encoded_exec(command)),
        None => None,
    }
}

/// A step as a node.
pub open spec fn encoded_step(step: StepView) -> Tree {
    let with_name = put_some(seq![], "name"@, text_tree(step.name));
    let with_description = put_some(with_name, "description"@, text_tree(step.description));
    let with_main = put(with_description, "main"@, encoded_exec(step.main));
    let with_pre = put_some(with_main, "pre"@, exec_tree(step.pre));
    let with_post = put_some(with_pre, "post"@, exec_tree(step.post));
    let with_retries = put(
        with_post,
        "retries"@,
        Tree::Number(decimal_text(step.retries as nat)),
    );
    Tree::Dict(put_some(with_retries, "timeout"@, count_tree(step.timeout)))
}

/// The steps of a pipeline as nodes.
pub open spec fn encoded_steps(steps: Seq<StepView>) -> Seq<Tree> {
    Seq::new(steps.len(), |i: int| encoded_step(steps[i]))
}

/// A pipeline as a document.
pub open spec fn encoded(pipeline: PipelineView) -> Tree {
    let with_name = put(seq![], "name"@, Tree::Text(pipeline.name));
    let with_description = put_some(with_name, "description"@, text_tree(pipeline.description));
    let with_use_env = put(with_description, "use_env"@, Tree::Bool(pipeline.use_env));
    Tree::Dict(put(with_use_env, "steps"@, Tree::List(encoded_steps(pipeline.steps))))
}

/// Appends an entry to the entries of a mapping.
fn push_entry(entries: &mut Vec<(Node, Node)>, key: &str, value: Node)
    ensures
        entry_trees(final(entries)@) == put(entry_trees(old(entries)@), key@, value@),
{
    let ghost before = entry_trees(entries@);
    let ghost added = value@;
    entries.push((Node::Text(String::from_str(key)), value));
    assert(entry_trees(entries@) =~= put(before, key@, added));
}

/// Appends an entry to the entries of a mapping, where there is a value.
fn push_some(entries: &mut Vec<(Node, Node)>, key: &str, value: Option<Node>)
    ensures
        entry_trees(final(entries)@) == put_some(
            entry_trees(old(entries)@),
            key@,
            match value {
                Some(node) => Some(node@),
                None => None,
            },
        ),
{
    match value {
        Some(node) => push_entry(entries, key, node),
        None => {},
    }
}

fn text_node(text: &Option<String>) -> (node: Option<Node>)
    ensures
        (match node {
            Some(node) => Some(node@),
            None => None,
        }) == text_tree(
            match *text {
                Some(text) => Some(text@),
                None => None,
            },
        ),
{
    match text {
        Some(text) => Some(Node::Text(text.clone())),
        None => None,
    }
}

fn output_text(output: Output) -> (name: &'static str)
    ensures
        name@ == output_name(output),
{
    match output {
        Output::Stdout => "STDOUT",
    }
}

/// Writes a command as a node of a document.
pub fn encode_exec(command: &Exec) -> (node: Node)
    ensures
        node@ == encoded_exec(command@),
{
    let mut entries: Vec<(Node, Node)> = Vec::new();
    assert(entry_trees(entries@) =~= Seq::<(Tree, Tree)>::empty());
    push_entry(&mut entries, "exec", Node::Text(command.program.clone()));
    let args = match &command.args {
        Some(args) => {
            let mut items: Vec<Node> = Vec::new();
            let mut at: usize = 0;
            while at < args.len()
                invariant
                    at <= args.len(),
                    items@.len() == at,
                    forall|i: int| 0 <= i < at ==> tree(#[trigger] items@[i]) == Tree::Text(args@[i]@),
                decreases args.len() - at,
            {
                items.push(Node::Text(args[at].clone()));
                at = at + 1;
            }
            assert(trees(items@) =~= encoded_args(texts(args@)));
            Some(Node::List(items))
        },
        None => None,
    };
    push_some(&mut entries, "args", args);
    push_entry(
        &mut entries,
        "output",
        Node::Text(String::from_str(output_text(command.output))),
    );
    Node::Dict(entries)
}

/// Writes a step as a node of a document.
pub fn encode_step(step: &Step) -> (node: Node)
    ensures
        node@ == encoded_step(step@),
{
    let mut entries: Vec<(Node, Node)> = Vec::new();
    assert(entry_trees(entries@) =~= Seq::<(Tree, Tree)>::empty());
    push_some(&mut entries, "name", text_node(&step.name));
    push_some(&mut entries, "description", text_node(&step.description));
    push_entry(&mut entries, "main", encode_exec(&step.main));
    let pre = match &step.pre {
        Some(command) => Some(encode_exec(command)),
        None => None,
    };
    push_some(&mut entries, "pre", pre);
    let post = match &step.post {
        Some(command) => Some(encode_exec(command)),
        None => None,
    };
    push_some(&mut entries, "post", post);
    push_entry(&mut entries, "retries", Node::Number(decimal(step.retries as u128)));
    let timeout = match step.timeout {
        Some(seconds) => Some(Node::Number(decimal(seconds as u128))),
        None => None,
    };
    push_some(&mut entries, "timeout", timeout);
    Node::Dict(entries)
}

/// Writes a pipeline as a document.
pub fn encode(pipeline: &Pipeline) -> (document: Node)
    ensures
        document@ == encoded(pipeline@),
{
    let mut entries: Vec<(Node, Node)> = Vec::new();
    assert(entry_trees(entries@) =~= Seq::<(Tree, Tree)>::empty());
    push_entry(&mut entries, "name", Node::Text(pipeline.name.clone()));
    push_some(&mut entries, "description", text_node(&pipeline.description));
    push_entry(&mut entries, "use_env", Node::Bool(pipeline.use_env));
    let mut items: Vec<Node> = Vec::new();
    let mut at: usize = 0;
    while at < pipeline.steps.len()
        invariant
            at <= pipeline.steps.len(),
            items@.len() == at,
            forall|i: int|
                0 <= i < at ==> tree(#[trigger] items@[i]) == encoded_step(pipeline.steps@[i]@),
        decreases pipeline.steps.len() - at,
    {
        items.push(encode_step(&pipeline.steps[at]));
        at = at + 1;
    }
    assert(trees(items@) =~= encoded_steps(step_views(pipeline.steps@)));
    push_entry(&mut entries, "steps", Node::List(items));
    Node::Dict(entries)
}

/// What a key holds after one more entry was put at the end: what it held
/// before, and otherwise the new value where the new entry has that key.
pub open spec fn field_after_put(
    entries: Seq<(Tree, Tree)>,
    key: Seq<char>,
    value: Tree,
    sought: Seq<char>,
) -> Option<Tree> {
    match field(entries, sought) {
        Some(found) => Some(found),
        None => if key == sought {
            Some(value)
        } else {
            None
        },
    }
}

proof fn lemma_field_put(entries: Seq<(Tree, Tree)>, key: Seq<char>, value: Tree, sought: Seq<char>)
    ensures
        field(put(entries, key, value), sought) == field_after_put(entries, key, value, sought),
    decreases entries.len(),
{
    let after = put(entries, key, value);
    if entries.len() == 0 {
        assert(after.first() == (Tree::Text(key), value));
        assert(after.drop_first() =~= Seq::<(Tree, Tree)>::empty());
        assert(field(after.drop_first(), sought) is None);
        assert(field(entries, sought) is None);
    } else {
        assert(after.first() == entries.first());
        assert(after.drop_first() =~= put(entries.drop_first(), key, value));
        lemma_field_put(entries.drop_first(), key, value, sought);
    }
}

proof fn lemma_field_put_all(entries: Seq<(Tree, Tree)>, key: Seq<char>, value: Tree)
    ensures
        forall|sought: Seq<char>| #[trigger]
            field(put(entries, key, value), sought) == field_after_put(
                entries,
                key,
                value,
                sought,
            ),
{
    assert forall|sought: Seq<char>| #[trigger]
        field(put(entries, key, value), sought) == field_after_put(
            entries,
            key,
            value,
            sought,
        ) by {
        lemma_field_put(entries, key, value, sought);
    }
}

proof fn lemma_field_put_some(entries: Seq<(Tree, Tree)>, key: Seq<char>, value: Option<Tree>)
    ensures
        forall|sought: Seq<char>| #[trigger]
            field(put_some(entries, key, value), sought) == match value {
                Some(value) => field_after_put(entries, key, value, sought),
                None => field(entries, sought),
            },
{
    if value is Some {
        lemma_field_put_all(entries, key, value->0);
    }
}

/// The keys of the schema differ from each other.
proof fn lemma_keys_differ()
    ensures
        "exec"@ != "args"@,
        "exec"@ != "output"@,
        "args"@ != "output"@,
        "name"@ != "description"@,
        "name"@ != "use_env"@,
        "name"@ != "steps"@,
        "description"@ != "use_env"@,
        "description"@ != "steps"@,
        "use_env"@ != "steps"@,
        "name"@ != "main"@,
        "name"@ != "pre"@,
        "name"@ != "post"@,
        "name"@ != "retries"@,
        "name"@ != "timeout"@,
        "description"@ != "main"@,
        "description"@ != "pre"@,
        "description"@ != "post"@,
        "description"@ != "retries"@,
        "description"@ != "timeout"@,
        "main"@ != "pre"@,
        "main"@ != "post"@,
        "main"@ != "retries"@,
        "main"@ != "timeout"@,
        "pre"@ != "post"@,
        "pre"@ != "retries"@,
        "pre"@ != "timeout"@,
        "post"@ != "retries"@,
        "post"@ != "timeout"@,
        "retries"@ != "timeout"@,
{
    reveal_strlit("exec");
    reveal_strlit("args");
    reveal_strlit("output");
    reveal_strlit("name");
    reveal_strlit("description");
    reveal_strlit("use_env");
    reveal_strlit("steps");
    reveal_strlit("main");
    reveal_strlit("pre");
    reveal_strlit("post");
    reveal_strlit("retries");
    reveal_strlit("timeout");
    assert("description"@.len() == 11);
    assert("steps"@.len() == 5);
    assert("pre"@.len() == 3);
    assert("name"@[0] != "main"@[0]);
    assert("name"@[0] != "post"@[0]);
    assert("main"@[0] != "post"@[0]);
    assert("exec"@[0] != "args"@[0]);
    assert("retries"@[0] != "timeout"@[0]);
    assert("use_env"@[0] != "retries"@[0]);
    assert("use_env"@[0] != "timeout"@[0]);
}

proof fn lemma_args_round_trip(
    args: Seq<Seq<char>>,
    count: int,
    step: Option<usize>,
    slot: Option<Slot>,
)
    requires
        0 <= count <= args.len(),
    ensures
        decoded_args(encoded_args(args), count, step, slot) == Ok::<Seq<Seq<char>>, ParseError>(
            args.take(count),
        ),
    decreases count,
{
    if count > 0 {
        lemma_args_round_trip(args, count - 1, step, slot);
        assert(args.take(count - 1).push(args[count - 1]) =~= args.take(count));
    } else {
        assert(args.take(0) =~= Seq::<Seq<char>>::empty());
    }
}

/// Reading a command that was written gives the command back.
pub proof fn law_exec_round_trip(command: ExecView, step: Option<usize>, slot: Option<Slot>)
    ensures
        decoded_exec(encoded_exec(command), step, slot) == Ok::<ExecView, ParseError>(command),
{
    lemma_keys_differ();
    let with_program = put(seq![], "exec"@, Tree::Text(command.program));
    let with_args = put_some(with_program, "args"@, args_tree(command.args));
    let entries = put(with_args, "output"@, Tree::Text(output_name(command.output)));
    lemma_field_put_all(seq![], "exec"@, Tree::Text(command.program));
    lemma_field_put_some(with_program, "args"@, args_tree(command.args));
    lemma_field_put_all(with_args, "output"@, Tree::Text(output_name(command.output)));
    assert(field(entries, "exec"@) == Some(Tree::Text(command.program)));
    assert(field(entries, "args"@) == args_tree(command.args));
    assert(field(entries, "output"@) == Some(Tree::Text(output_name(command.output))));
    if command.args is Some {
        let args = command.args->0;
        lemma_args_round_trip(args, args.len() as int, step, slot);
        assert(args.take(args.len() as int) =~= args);
    }
}

/// Reading a step that was written gives the step back, where its timeout
/// is positive if it has one.
pub proof fn law_step_round_trip(step: StepView, index: usize)
    requires
        step.well_formed(),
    ensures
        decoded_step(encoded_step(step), index) == Ok::<StepView, ParseError>(step),
{
    lemma_keys_differ();
    let with_name = put_some(seq![], "name"@, text_tree(step.name));
    let with_description = put_some(with_name, "description"@, text_tree(step.description));
    let with_main = put(with_description, "main"@, encoded_exec(step.main));
    let with_pre = put_some(with_main, "pre"@, exec_tree(step.pre));
    let with_post = put_some(with_pre, "post"@, exec_tree(step.post));
    let retries = Tree::Number(decimal_text(step.retries as nat));
    let with_retries = put(with_post, "retries"@, retries);
    let entries = put_some(with_retries, "timeout"@, count_tree(step.timeout));
    lemma_field_put_some(seq![], "name"@, text_tree(step.name));
    lemma_field_put_some(with_name, "description"@, text_tree(step.description));
    lemma_field_put_all(with_description, "main"@, encoded_exec(step.main));
    lemma_field_put_some(with_main, "pre"@, exec_tree(step.pre));
    lemma_field_put_some(with_pre, "post"@, exec_tree(step.post));
    lemma_field_put_all(with_post, "retries"@, retries);
    lemma_field_put_some(with_retries, "timeout"@, count_tree(step.timeout));
    assert(field(entries, "name"@) == text_tree(step.name));
    assert(field(entries, "description"@) == text_tree(step.description));
    assert(field(entries, "main"@) == Some(encoded_exec(step.main)));
    assert(field(entries, "pre"@) == exec_tree(step.pre));
    assert(field(entries, "post"@) == exec_tree(step.post));
    assert(field(entries, "retries"@) == Some(retries));
    assert(field(entries, "timeout"@) == count_tree(step.timeout));
    law_exec_round_trip(step.main, Some(index), Some(Slot::Main));
    if step.pre is Some {
        law_exec_round_trip(step.pre->0, Some(index), Some(Slot::Pre));
    }
    if step.post is Some {
        law_exec_round_trip(step.post->0, Some(index), Some(Slot::Post));
    }
    law_numeral_round_trip(step.retries as nat);
    if step.timeout is Some {
        law_numeral_round_trip(step.timeout->0 as nat);
    }
}

proof fn lemma_steps_round_trip(steps: Seq<StepView>, count: int)
    requires
        0 <= count <= steps.len(),
        forall|i: int| 0 <= i < steps.len() ==> (#[trigger] steps[i]).well_formed(),
    ensures
        decoded_steps(encoded_steps(steps), count) == Ok::<Seq<StepView>, ParseError>(
            steps.take(count),
        ),
    decreases count,
{
    if count > 0 {
        lemma_steps_round_trip(steps, count - 1);
        law_step_round_trip(steps[count - 1], (count - 1) as usize);
        assert(steps.take(count - 1).push(steps[count - 1]) =~= steps.take(count));
    } else {
        assert(steps.take(0) =~= Seq::<StepView>::empty());
    }
}

/// Reading a pipeline that was written gives the pipeline back, field by
/// field, where every timeout in it is positive.
pub proof fn law_round_trip(pipeline: PipelineView)
    requires
        pipeline.well_formed(),
    ensures
        decoded(encoded(pipeline)) == Ok::<PipelineView, ParseError>(pipeline),
{
    lemma_keys_differ();
    let steps = Tree::List(encoded_steps(pipeline.steps));
    let with_name = put(seq![], "name"@, Tree::Text(pipeline.name));
    let with_description = put_some(with_name, "description"@, text_tree(pipeline.description));
    let with_use_env = put(with_description, "use_env"@, Tree::Bool(pipeline.use_env));
    let entries = put(with_use_env, "steps"@, steps);
    lemma_field_put_all(seq![], "name"@, Tree::Text(pipeline.name));
    lemma_field_put_some(with_name, "description"@, text_tree(pipeline.description));
    lemma_field_put_all(with_description, "use_env"@, Tree::Bool(pipeline.use_env));
    lemma_field_put_all(with_use_env, "steps"@, steps);
    assert(field(entries, "name"@) == Some(Tree::Text(pipeline.name)));
    assert(field(entries, "description"@) == text_tree(pipeline.description));
    assert(field(entries, "use_env"@) == Some(Tree::Bool(pipeline.use_env)));
    assert(field(entries, "steps"@) == Some(steps));
    lemma_steps_round_trip(pipeline.steps, pipeline.steps.len() as int);
    assert(pipeline.steps.take(pipeline.steps.len() as int) =~= pipeline.steps);
}

} // verus!
