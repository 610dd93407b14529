//! Types as they are written in the source.
use vstd::prelude::*;
use crate::cst::base::{
    Between, Braces, Comma, ImportedVariable, Parens, RightArrow, Token, TokenInfo, TrailingList,
    TrailingListItem,
};
use crate::identifier::Identifier;

verus! {

/// The built in types.
#[derive(Debug, Clone, Copy, PartialEq, Eq, Structural)]
pub enum TypeBase {
    U8,
    U16,
    U32,
    U64,
    I8,
    I16,
    I32,
    I64,
    F32,
    F64,
    Char,
    String,
}

/// How many times a value may be used: never, once or any number of times.
#[derive(Debug, Clone, Copy, PartialEq, Eq, Structural, PartialOrd, Ord, Hash)]
pub enum OwnershipLiteral {
    Zero,
    One,
    Inf,
}

impl Default for OwnershipLiteral {
    fn default() -> (r: Self)
        ensures
            r == OwnershipLiteral::Zero,
    {
        OwnershipLiteral::Zero
    }
}

/// A variable that stands for an ownership.
#[derive(Debug, Clone, Copy, PartialEq, Eq, Structural, PartialOrd, Ord, Hash)]
pub struct OwnershipVariable {
    pub variable: Identifier,
}

/// A field of a record type: `variable : expression`.
#[derive(Debug)]
pub struct TypeRecordItem {
    pub variable: Token<Identifier>,
    pub separator: TokenInfo,
    pub expression: Box<Type>,
}

/// A type as written in the source.
#[derive(Debug)]
pub enum Type {
    Base(Token<TypeBase>),
    LocalVariable(Token<Identifier>),
    ImportedVariable(Token<ImportedVariable>),
    Tuple(Between<TrailingList<Box<Type>, Comma>, Parens>),
    Record(Between<TrailingList<TypeRecordItem, Comma>, Braces>),
    Parens(Between<Box<Type>, Parens>),
    Application { start: Box<Type>, second: Box<Type>, remain: Vec<Type> },
    Arrow { first: Box<Type>, remain: Vec<TrailingListItem<Type, RightArrow>> },
    Scheme {
        forall: TokenInfo,
        first_variable: Token<Identifier>,
        remain_variables: Vec<Token<Identifier>>,
        dot: TokenInfo,
        expression: Box<Type>,
    },
}

impl Type {
    /// Whether the type needs parentheses as the argument of an application.
    pub fn need_parens_application(&self) -> (r: bool)
        ensures
            r <==> (self is Application || self is Arrow || self is Scheme),
    {
        match self {
            Type::Base(_) => false,
            Type::LocalVariable(_) => false,
            Type::ImportedVariable(_) => false,
            Type::Tuple(_) => false,
            Type::Record(_) => false,
            Type::Parens(_) => false,
            Type::Application { .. } => true,
            Type::Arrow { .. } => true,
            Type::Scheme { .. } => true,
        }
    }

    /// Whether the type needs parentheses as the argument of an arrow.
    pub fn need_parens_arrow(&self) -> (r: bool)
        ensures
            r <==> (self is Arrow || self is Scheme),
    {
        match self {
            Type::Base(_) => false,
            Type::LocalVariable(_) => false,
            Type::ImportedVariable(_) => false,
            Type::Tuple(_) => false,
            Type::Record(_) => false,
            Type::Parens(_) => false,
            Type::Application { .. } => false,
            Type::Arrow { .. } => true,
            Type::Scheme { .. } => true,
        }
    }
}

} // verus!
