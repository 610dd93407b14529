//! The definitions at the top of a source file.
use vstd::prelude::*;
use crate::cst::base::{
    AliasKeyword, DataKeyword, NewTypeKeyword, Pipe, PublicKeyword, SemiColon, Token, TokenInfo,
    TokenInfoWithPhantom, TopTypeName, TrailingList,
};
use crate::cst::comments::Comment;
use crate::cst::imports::Import;
use crate::cst::types::Type;
use crate::identifier::Identifier;

use crate::equivalence::Equivalence;
verus! {

/// A constructor of a data type, with the type it holds, if any.
#[derive(Debug)]
pub struct Constructor {
    pub name: Token<Identifier>,
    pub type_: Option<Type>,
}

/// The constructors of a data type: `= A | B t`.
#[derive(Debug)]
pub struct DataConstructors {
    pub eq: TokenInfo,
    pub constructors: TrailingList<Constructor, Pipe>,
}

/// The start of the definition of a type: visibility, keyword, name and
/// variables.
#[derive(Debug)]
pub struct TopTypeDefinitionLeft<Keyword> where Keyword: TopTypeName {
    pub public: Option<TokenInfoWithPhantom<PublicKeyword>>,
    pub statement_keyword: TokenInfoWithPhantom<Keyword>,
    pub name: Token<Identifier>,
    pub variables: Vec<Token<Identifier>>,
}

/// `data Name variables = constructors`.
#[derive(Debug)]
pub struct Data {
    pub left_part: TopTypeDefinitionLeft<DataKeyword>,
    pub constructors: Option<DataConstructors>,
}

/// `alias Name variables = type`.
#[derive(Debug)]
pub struct Alias {
    pub left_part: TopTypeDefinitionLeft<AliasKeyword>,
    pub eq: TokenInfo,
    pub type_: Type,
}

/// `newtype Name variables = constructor`.
#[derive(Debug)]
pub struct NewType {
    pub left_part: TopTypeDefinitionLeft<NewTypeKeyword>,
    pub eq: TokenInfo,
    pub constructor: Constructor,
}

/// A definition at the top of a file.
#[derive(Debug)]
pub enum TopItem {
    Data(Data),
    Alias(Alias),
    NewType(NewType),
}

/// A source file: its imports, its definitions, and its last comment.
#[derive(Debug)]
pub struct Top {
    pub imports: Option<TrailingList<Import, SemiColon>>,
    pub items: Option<TrailingList<TopItem, SemiColon>>,
    pub last_comment: Option<Comment>,
}


/// The starts of type definitions are equivalent when their visibility,
/// names and variables are.
impl<Keyword: TopTypeName> Equivalence for TopTypeDefinitionLeft<Keyword> {
    open spec fn equivalent_spec(&self, other: &Self) -> bool {
        &&& self.public.equivalent_spec(&other.public)
        &&& self.statement_keyword.equivalent_spec(&other.statement_keyword)
        &&& self.name.equivalent_spec(&other.name)
        &&& self.variables.equivalent_spec(&other.variables)
    }

    fn equivalent(&self, other: &Self) -> (r: bool) {
        self.public.equivalent(&other.public) && self.statement_keyword.equivalent(&other.statement_keyword)
            && self.name.equivalent(&other.name) && self.variables.equivalent(&other.variables)
    }
}

} // verus!
