//! Imports as written in the source.
use vstd::prelude::*;
use crate::cst::base::{
    Between, Comma, OperatorName, Parens, Token, TokenInfo, TokenInfoWithPhantom, TrailingList,
    UnqualifiedKeyword,
};
use crate::identifier::Identifier;
use crate::logic_path::LogicPath;

use crate::equivalence::Equivalence;
verus! {

/// The name that an import is known by: `as path`.
#[derive(Debug)]
pub struct AsPath {
    pub _as: TokenInfo,
    pub path: Token<LogicPath>,
}

/// One name of an import list: a variable, an operator, or a type
/// operator after the `type` keyword.
#[derive(Debug)]
pub enum ImportItem {
    Variable(Token<Identifier>),
    Operator(Token<OperatorName>),
    TypeOperator(TokenInfo, Token<OperatorName>),
}

/// `import unqualified some::path::(a, b, c) as other::name::`.
#[derive(Debug)]
pub struct Import {
    pub import: TokenInfo,
    pub unqualified: Option<TokenInfoWithPhantom<UnqualifiedKeyword>>,
    pub logic_path: Token<LogicPath>,
    pub import_list: Option<Between<TrailingList<Token<Identifier>, Comma>, Parens>>,
    pub qualified_path: Option<AsPath>,
}


impl Equivalence for AsPath {
    open spec fn equivalent_spec(&self, other: &Self) -> bool {
        self.path.equivalent_spec(&other.path)
    }

    fn equivalent(&self, other: &Self) -> (r: bool) {
        self.path.equivalent(&other.path)
    }
}

/// Imports are equivalent when their parts are; the `import` keyword does
/// not count.
impl Equivalence for Import {
    open spec fn equivalent_spec(&self, other: &Self) -> bool {
        &&& self.unqualified.equivalent_spec(&other.unqualified)
        &&& self.logic_path.equivalent_spec(&other.logic_path)
        &&& self.import_list.equivalent_spec(&other.import_list)
        &&& self.qualified_path.equivalent_spec(&other.qualified_path)
    }

    fn equivalent(&self, other: &Self) -> (r: bool) {
        self.unqualified.equivalent(&other.unqualified) && self.logic_path.equivalent(&other.logic_path)
            && self.import_list.equivalent(&other.import_list) && self.qualified_path.equivalent(
            &other.qualified_path,
        )
    }
}

} // verus!
