//! Semantic analysis for a small procedural language.
//!
//! The crate takes a parsed syntax tree, resolves names against a chain of
//! lexical scopes, validates types and hands back the same tree with the
//! resolved type of every expression filled in, or the first semantic error.

pub mod ast;
pub mod check;
pub mod parser;
pub mod utility;
