//! Definition files: from YAML text to a pipeline.
//!
//! The text is parsed by `serde_yaml`. What comes back is turned into a
//! [`Node`], node for node, and read against the schema by verified code.

use vstd::prelude::*;
use crate::document::{Node, Tree};
use crate::model::Pipeline;
use crate::schema::{decode, decoded, ParseError};

verus! {

#[verifier::external_type_specification]
#[verifier::external_body]
pub struct ExValue(serde_yaml::Value);

#[verifier::external_type_specification]
#[verifier::external_body]
pub struct ExError(serde_yaml::Error);

/// The tree that a parsed YAML value holds.
pub uninterp spec fn yaml_tree(value: serde_yaml::Value) -> Tree;

/// The tree that a YAML text describes; `None` for a text that is no
/// single YAML document.
pub uninterp spec fn yaml_document(text: Seq<char>) -> Option<Tree>;

/// Parses a text with `serde_yaml::from_str` into a `serde_yaml::Value`.
/// The contract only names the result: the outcome depends on the text
/// alone, and a text is rejected exactly where it describes no document.
#[verifier::external_body]
fn parse_value(text: &str) -> (parsed: Result<serde_yaml::Value, serde_yaml::Error>)
    ensures
        match parsed {
            Ok(value) => yaml_document(text@) == Some(yaml_tree(value)),
            Err(_) => yaml_document(text@) is None,
        },
{
    serde_yaml::from_str::<serde_yaml::Value>(text)
}

/// Copies a `serde_yaml::Value` into a [`Node`], variant for variant: a
/// number goes by the text that `serde_yaml` displays for it, a tag
/// likewise, and the entries of a mapping keep their order. The contract
/// names the tree that the value holds as the one that the copy shows.
#[verifier::external_body]
fn node_of(value: &serde_yaml::Value) -> (node: Node)
    ensures
        node@ == yaml_tree(*value),
{
    match value {
        serde_yaml::Value::Null => Node::Null,
        serde_yaml::Value::Bool(flag) => Node::Bool(*flag),
        serde_yaml::Value::Number(number) => Node::Number(number.to_string()),
        serde_yaml::Value::String(text) => Node::Text(text.clone()),
        serde_yaml::Value::Sequence(items) => Node::List(items.iter().map(node_of).collect()),
        serde_yaml::Value::Mapping(entries) => Node::Dict(
            entries.iter().map(|(key, value)| (node_of(key), node_of(value))).collect(),
        ),
        serde_yaml::Value::Tagged(tagged) => Node::Tagged(
            tagged.tag.to_string(),
            Box::new(node_of(&tagged.value)),
        ),
    }
}

/// The message of a `serde_yaml::Error`, as its `Display` writes it.
/// Nothing is claimed of the message.
#[verifier::external_body]
fn message_of(error: &serde_yaml::Error) -> (message: String) {
    error.to_string()
}

/// Why a definition could not be loaded.
#[derive(Debug, PartialEq, Eq)]
pub enum LoadError {
    /// The text is no YAML document; `message` says what the parser found.
    Syntax { message: String },
    /// The document violates the schema.
    Schema { error: ParseError },
}

/// Reads a YAML text as a document.
pub fn read_document(text: &str) -> (read: Result<Node, LoadError>)
    ensures
        match read {
            Ok(node) => yaml_document(text@) == Some(node@),
            Err(error) => error is Syntax && yaml_document(text@) is None,
        },
{
    match parse_value(text) {
        Ok(value) => Ok(node_of(&value)),
        Err(error) => Err(LoadError::Syntax { message: message_of(&error) }),
    }
}

/// What loading a text must come to, given the document that the text
/// describes: a syntax error where it describes none, and otherwise what
/// the schema finds in the document.
pub open spec fn loaded(document: Option<Tree>, read: Result<Pipeline, LoadError>) -> bool {
    match document {
        None => read matches Err(LoadError::Syntax { .. }),
        Some(tree) => match decoded(tree) {
            Ok(pipeline) => read matches Ok(found) && found@ == pipeline && pipeline.well_formed(),
            Err(error) => read matches Err(LoadError::Schema { error: found }) && found == error,
        },
    }
}

/// Loads a pipeline from the text of a definition file.
pub fn load(text: &str) -> (read: Result<Pipeline, LoadError>)
    ensures
        loaded(yaml_document(text@), read),
{
    match read_document(text) {
        Err(error) => Err(error),
        Ok(document) => match decode(&document) {
            Ok(pipeline) => Ok(pipeline),
            Err(error) => Err(LoadError::Schema { error }),
        },
    }
}

} // verus!
