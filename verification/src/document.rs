//! The document that a pipeline definition is read from: a tree of scalars,
//! lists and mappings, as a YAML text describes it.

use vstd::prelude::*;
use crate::text::same_text;

verus! {

/// A node of a definition document.
#[derive(Debug, PartialEq, Eq)]
pub enum Node {
    /// The null value; a field that holds it counts as absent.
    Null,
    Bool(bool),
    /// A number, by its canonical text: a non-negative integer is written
    /// in decimal digits without a sign.
    Number(String),
    Text(String),
    List(Vec<Node>),
    /// A mapping, as its entries of key and value in document order.
    Dict(Vec<(Node, Node)>),
    /// A node under an explicit tag.
    Tagged(String, Box<Node>),
}

/// The mathematical value of a [`Node`].
pub enum Tree {
    Null,
    Bool(bool),
    Number(Seq<char>),
    Text(Seq<char>),
    List(Seq<Tree>),
    Dict(Seq<(Tree, Tree)>),
    Tagged(Seq<char>, Box<Tree>),
}

/// The trees of a list of nodes, element by element.
pub open spec fn trees(items: Seq<Node>) -> Seq<Tree>
    decreases items,
{
    Seq::new(
        items.len(),
        |i: int|
            if 0 <= i < items.len() {
                tree(items[i])
            } else {
                Tree::Null
            },
    )
}

/// The trees of the entries of a mapping, entry by entry.
pub open spec fn entry_trees(entries: Seq<(Node, Node)>) -> Seq<(Tree, Tree)>
    decreases entries,
{
    Seq::new(
        entries.len(),
        |i: int|
            if 0 <= i < entries.len() {
                (tree(entries[i].0), tree(entries[i].1))
            } else {
                (Tree::Null, Tree::Null)
            },
    )
}

/// The tree that a node stands for.
pub open spec fn tree(node: Node) -> Tree
    decreases node,
{
    match node {
        Node::Null => Tree::Null,
        Node::Bool(b) => Tree::Bool(b),
        Node::Number(text) => Tree::Number(text@),
        Node::Text(text) => Tree::Text(text@),
        Node::List(items) => Tree::List(trees(items@)),
        Node::Dict(entries) => Tree::Dict(entry_trees(entries@)),
        Node::Tagged(tag, inner) => Tree::Tagged(tag@, Box::new(tree(*inner))),
    }
}

impl View for Node {
    type V = Tree;

    open spec fn view(&self) -> Tree {
        tree(*self)
    }
}

/// The value under `key` in the entries of a mapping: that of the first
/// entry whose key is the text `key`.
pub open spec fn field(entries: Seq<(Tree, Tree)>, key: Seq<char>) -> Option<Tree>
    decreases entries.len(),
{
    if entries.len() == 0 {
        None
    } else if entries.first().0 == Tree::Text(key) {
        Some(entries.first().1)
    } else {
        field(entries.drop_first(), key)
    }
}

/// The value under `key`, where it is present: a key that is missing and
/// a key that holds null both count as absent.
pub open spec fn present(entries: Seq<(Tree, Tree)>, key: Seq<char>) -> Option<Tree> {
    match field(entries, key) {
        Some(Tree::Null) => None,
        found => found,
    }
}

impl Node {
    /// The value under `key` in a mapping, where it is present. A node that
    /// is no mapping has no fields.
    pub fn get<'a>(&'a self, key: &str) -> (found: Option<&'a Node>)
        ensures
            match self@ {
                Tree::Dict(entries) => match found {
                    Some(node) => present(entries, key@) == Some(node@),
                    None => present(entries, key@) is None,
                },
                _ => found is None,
            },
    {
        match self {
            Node::Dict(entries) => {
                let ghost all = entry_trees(entries@);
                let mut at: usize = 0;
                assert(all.subrange(0, all.len() as int) =~= all);
                while at < entries.len()
                    invariant
                        at <= entries.len(),
                        all == entry_trees(entries@),
                        self@ == Tree::Dict(all),
                        field(all, key@) == field(all.subrange(at as int, all.len() as int), key@),
                    decreases entries.len() - at,
                {
                    let ghost rest = all.subrange(at as int, all.len() as int);
                    proof {
                        assert(rest.first() == all[at as int]);
                        assert(rest.drop_first() =~= all.subrange(at + 1, all.len() as int));
                    }
                    let entry = &entries[at];
                    let matches = match &entry.0 {
                        Node::Text(text) => same_text(text.as_str(), key),
                        _ => false,
                    };
                    if matches {
                        assert(rest.first().0 == Tree::Text(key@));
                        assert(field(all, key@) == Some(tree(entry.1)));
                        assert(tree(entry.1) is Null <==> entry.1 is Null);
                        return match &entry.1 {
                            Node::Null => None,
                            _ => Some(&entry.1),
                        };
                    }
                    at = at + 1;
                }
                assert(all.subrange(at as int, all.len() as int) =~= Seq::empty());
                None
            },
            _ => None,
        }
    }
}

} // verus!

