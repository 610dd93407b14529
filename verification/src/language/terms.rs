//! The terms of the core language and the contexts that name them.
use vstd::prelude::*;
use crate::language::common::{Identifier, Record};
use crate::language::types::Type;

verus! {

/// An alternative of a case: the constructor it matches, the number of its
/// arguments and the term it gives.
#[derive(Debug, PartialEq, Eq)]
pub struct CaseAlternative {
    constructor: u64,
    arguments: u64,
    value: Term,
}

/// A term of the core language, with its type where it needs one.
#[derive(Debug, PartialEq, Eq)]
pub enum Term {
    Unit,
    Uint(u64),
    Int(i64),
    String(String),
    Variable(u64, Type),
    NamedVariable(Identifier),
    GlobalVariable(Identifier, Type),
    Function(Box<Term>, Type),
    Application(Box<Term>, Box<Term>, Type),
    Record(Record<Term>, Type),
    Tuple(Vec<Term>, Type),
    Case(Box<Term>, Vec<CaseAlternative>, Type),
}

/// The names bound inside a definition.
pub struct LocalContext();

/// The names that come from other modules.
pub struct ExternalContext();

/// The names of the current module.
pub struct ModuleContext();

/// All the names in scope.
pub struct Context<'a> {
    local: &'a LocalContext,
    external: &'a ExternalContext,
    module: &'a ModuleContext,
}

} // verus!
