//! A runner for declarative pipelines of external commands.
//!
//! A pipeline is a named, ordered list of steps. Each step runs an optional
//! pre-hook, a main command under a retry and timeout policy, and an optional
//! post-hook. This library holds the data model, the rules that read a
//! pipeline from a definition document, and the state machines that decide
//! what to run next; spawning processes and printing are left to the caller.

pub mod model;
pub mod text;
pub mod numeral;
pub mod document;
pub mod outcome;
pub mod machine;
pub mod runner;
pub mod render;
pub mod laws;
pub mod schema;
pub mod encode;
pub mod yaml;
