//! The types of the core language.
use vstd::prelude::*;
use crate::language::common::{Identifier, Record, Variable};

verus! {

/// A type of the core language.
#[derive(Debug, PartialEq, Eq)]
pub enum Type {
    Unit,
    Uint,
    Int,
    String,
    Variable(Variable),
    /// A type with its number of bound variables: `Forall(0, t)` is `t`.
    Forall(u64, Box<Type>),
    Arrow(Box<Type>, Box<Type>),
    Record(Record<Type>),
    /// A recursive type with its number of bound variables.
    Recursive(u64, Box<Type>),
    Application(Box<Type>, Box<Type>),
    Tuple(Vec<Type>),
    /// A sum type: the index of a constructor is its place in the list.
    Sum(Identifier, Vec<Type>),
    NewType(Identifier, Box<Type>),
    Alias(Identifier, Box<Type>),
}

} // verus!
