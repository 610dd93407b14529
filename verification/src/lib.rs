//! Octizys: the front end of a small functional language.
//!
//! The library holds the source positions and spans, the comment model,
//! the lexer with its comment attachment, identifiers and logic paths,
//! the concrete syntax tree types and a generic tree used to compare trees.
use vstd::prelude::*;

pub mod span;
pub mod equivalence;
pub mod generic_tree;
pub mod text;
pub mod store;
pub mod matching;
pub mod identifier;
pub mod logic_path;
pub mod module_logic_path;
pub mod cst;
pub mod report;
pub mod parser;
pub mod language;
pub mod configuration;
pub mod newtype;
pub mod arguments;

verus! {

/// Adds two lengths.
pub fn add(left: usize, right: usize) -> (sum: usize)
    requires
        left + right <= usize::MAX,
    ensures
        sum == left + right,
{
    left + right
}

} // verus!
