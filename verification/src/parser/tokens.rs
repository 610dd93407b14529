//! The tokens that the lexer produces.
use vstd::prelude::*;
use crate::cst::base::{Token as CstToken, TokenInfo};
use crate::cst::comments::{Comment, CommentBlock, CommentLine};
use crate::cst::literals::{
    InterpolationString, StringLiteral, UFloatingPointLiteral, UintLiteral,
};
use crate::cst::types::{OwnershipLiteral, OwnershipVariable};
use crate::identifier::Identifier;
use crate::parser::report::{LexerReportKind, OctizysParserReport, ParserReport};
use crate::report::ReportKind;
use crate::span::{HasLocation, Location};

verus! {

/// The tokens of the first phase of lexing: each one without its comments.
#[derive(Debug, Clone)]
pub enum BaseToken {
    Interrogation,
    Exclamation,
    Hash,
    Comma,
    Colon,
    StatementEnd,
    Dot,
    LogicPathSeparator,
    Minus,
    CompositionRight,
    CompositionLeft,
    Plus,
    Power,
    Star,
    Div,
    Module,
    ShiftLeft,
    ShiftRight,
    MapOperator,
    MapConstRight,
    MapConstLeft,
    Appliative,
    ApplicativeRight,
    ApplicativeLeft,
    Equality,
    NotEqual,
    LessOrEqual,
    MoreOrEqual,
    LessThan,
    MoreThan,
    And,
    Or,
    ReverseApplication,
    DollarApplication,
    Asignation,
    At,
    Pipe,
    Alternative,
    FlippedMap,
    Annotate,
    LParen,
    RParen,
    LBracket,
    RBracket,
    LBrace,
    RBrace,
    RightArrow,
    LeftArrow,
    LambdaStart,
    Let,
    In,
    Case,
    Of,
    Import,
    Data,
    Newtype,
    Class,
    Instance,
    Public,
    Alias,
    As,
    Unqualified,
    Forall,
    Type,
    LineComment(CommentLine),
    BlockComment(CommentBlock),
    UintLiteral(UintLiteral),
    UFloatLiteral(UFloatingPointLiteral),
    StringLiteral(StringLiteral),
    StringInterpolation(InterpolationString),
    Identifier(Identifier),
    InfixIdentifier(Identifier),
    Selector(Identifier),
    AnonHole,
    NamedHole(u64),
    OwnershipLiteral(OwnershipLiteral),
    OwnershipVariable(OwnershipVariable),
}

/// A token of the second phase of lexing: every token carries its
/// information (its comments and its place); the comments at the end of the
/// source, after the last token, make a token of their own.
#[derive(Debug, Clone, PartialEq, Eq)]
pub enum Token {
    Interrogation(TokenInfo),
    Exclamation(TokenInfo),
    Hash(TokenInfo),
    Comma(TokenInfo),
    Colon(TokenInfo),
    StatementEnd(TokenInfo),
    Dot(TokenInfo),
    ModuleSeparator(TokenInfo),
    Minus(TokenInfo),
    CompositionRight(TokenInfo),
    CompositionLeft(TokenInfo),
    Plus(TokenInfo),
    Power(TokenInfo),
    Star(TokenInfo),
    Div(TokenInfo),
    Module(TokenInfo),
    ShiftLeft(TokenInfo),
    ShiftRight(TokenInfo),
    MapOperator(TokenInfo),
    MapConstRight(TokenInfo),
    MapConstLeft(TokenInfo),
    Appliative(TokenInfo),
    ApplicativeRight(TokenInfo),
    ApplicativeLeft(TokenInfo),
    Equality(TokenInfo),
    NotEqual(TokenInfo),
    LessOrEqual(TokenInfo),
    MoreOrEqual(TokenInfo),
    LessThan(TokenInfo),
    MoreThan(TokenInfo),
    And(TokenInfo),
    Or(TokenInfo),
    ReverseApplication(TokenInfo),
    DollarApplication(TokenInfo),
    Asignation(TokenInfo),
    At(TokenInfo),
    Pipe(TokenInfo),
    Alternative(TokenInfo),
    FlippedMap(TokenInfo),
    Annotate(TokenInfo),
    LParen(TokenInfo),
    RParen(TokenInfo),
    LBracket(TokenInfo),
    RBracket(TokenInfo),
    LBrace(TokenInfo),
    RBrace(TokenInfo),
    RightArrow(TokenInfo),
    LeftArrow(TokenInfo),
    LambdaStart(TokenInfo),
    Let(TokenInfo),
    In(TokenInfo),
    Case(TokenInfo),
    Of(TokenInfo),
    Import(TokenInfo),
    Data(TokenInfo),
    Newtype(TokenInfo),
    Class(TokenInfo),
    Instance(TokenInfo),
    Public(TokenInfo),
    Alias(TokenInfo),
    As(TokenInfo),
    Unqualified(TokenInfo),
    Forall(TokenInfo),
    Type(TokenInfo),
    U8(TokenInfo),
    U16(TokenInfo),
    U32(TokenInfo),
    U64(TokenInfo),
    I8(TokenInfo),
    I16(TokenInfo),
    I32(TokenInfo),
    I64(TokenInfo),
    Float32(TokenInfo),
    Float64(TokenInfo),
    CharType(TokenInfo),
    StringType(TokenInfo),
    Comment(TokenInfo, Comment),
    StringLiteral(TokenInfo, StringLiteral),
    StringInterpolation(TokenInfo, InterpolationString),
    UintLiteral(TokenInfo, UintLiteral),
    UFloatLiteral(TokenInfo, UFloatingPointLiteral),
    Identifier(TokenInfo, Identifier),
    InfixIdentifier(TokenInfo, Identifier),
    Selector(TokenInfo, Identifier),
    AnonHole(TokenInfo),
    NamedHole(TokenInfo, u64),
    LastComments(TokenInfo, Vec<Comment>),
    OwnershipLiteral(TokenInfo, OwnershipLiteral),
    OwnershipVariable(TokenInfo, OwnershipVariable),
}

/// The information of a token.
pub open spec fn token_info(t: Token) -> TokenInfo {
    match t {
        Token::Interrogation(info) => info,
        Token::Exclamation(info) => info,
        Token::Hash(info) => info,
        Token::Comma(info) => info,
        Token::Colon(info) => info,
        Token::StatementEnd(info) => info,
        Token::Dot(info) => info,
        Token::ModuleSeparator(info) => info,
        Token::Minus(info) => info,
        Token::CompositionRight(info) => info,
        Token::CompositionLeft(info) => info,
        Token::Plus(info) => info,
        Token::Power(info) => info,
        Token::Star(info) => info,
        Token::Div(info) => info,
        Token::Module(info) => info,
        Token::ShiftLeft(info) => info,
        Token::ShiftRight(info) => info,
        Token::MapOperator(info) => info,
        Token::MapConstRight(info) => info,
        Token::MapConstLeft(info) => info,
        Token::Appliative(info) => info,
        Token::ApplicativeRight(info) => info,
        Token::ApplicativeLeft(info) => info,
        Token::Equality(info) => info,
        Token::NotEqual(info) => info,
        Token::LessOrEqual(info) => info,
        Token::MoreOrEqual(info) => info,
        Token::LessThan(info) => info,
        Token::MoreThan(info) => info,
        Token::And(info) => info,
        Token::Or(info) => info,
        Token::ReverseApplication(info) => info,
        Token::DollarApplication(info) => info,
        Token::Asignation(info) => info,
        Token::At(info) => info,
        Token::Pipe(info) => info,
        Token::Alternative(info) => info,
        Token::FlippedMap(info) => info,
        Token::Annotate(info) => info,
        Token::LParen(info) => info,
        Token::RParen(info) => info,
        Token::LBracket(info) => info,
        Token::RBracket(info) => info,
        Token::LBrace(info) => info,
        Token::RBrace(info) => info,
        Token::RightArrow(info) => info,
        Token::LeftArrow(info) => info,
        Token::LambdaStart(info) => info,
        Token::Let(info) => info,
        Token::In(info) => info,
        Token::Case(info) => info,
        Token::Of(info) => info,
        Token::Import(info) => info,
        Token::Data(info) => info,
        Token::Newtype(info) => info,
        Token::Class(info) => info,
        Token::Instance(info) => info,
        Token::Public(info) => info,
        Token::Alias(info) => info,
        Token::As(info) => info,
        Token::Unqualified(info) => info,
        Token::Forall(info) => info,
        Token::Type(info) => info,
        Token::U8(info) => info,
        Token::U16(info) => info,
        Token::U32(info) => info,
        Token::U64(info) => info,
        Token::I8(info) => info,
        Token::I16(info) => info,
        Token::I32(info) => info,
        Token::I64(info) => info,
        Token::Float32(info) => info,
        Token::Float64(info) => info,
        Token::CharType(info) => info,
        Token::StringType(info) => info,
        Token::Comment(info, _) => info,
        Token::StringLiteral(info, _) => info,
        Token::StringInterpolation(info, _) => info,
        Token::UintLiteral(info, _) => info,
        Token::UFloatLiteral(info, _) => info,
        Token::Identifier(info, _) => info,
        Token::InfixIdentifier(info, _) => info,
        Token::Selector(info, _) => info,
        Token::NamedHole(info, _) => info,
        Token::OwnershipLiteral(info, _) => info,
        Token::OwnershipVariable(info, _) => info,
        Token::AnonHole(info) => info,
        Token::LastComments(info, _) => info,
    }
}

/// The base token that a token was made of: `None` for the tokens that the
/// lexer does not make (the names of the base types and the last comments).
pub open spec fn token_base(t: Token) -> Option<BaseToken> {
    match t {
        Token::Interrogation(_) => Some(BaseToken::Interrogation),
        Token::Exclamation(_) => Some(BaseToken::Exclamation),
        Token::Hash(_) => Some(BaseToken::Hash),
        Token::Comma(_) => Some(BaseToken::Comma),
        Token::Colon(_) => Some(BaseToken::Colon),
        Token::StatementEnd(_) => Some(BaseToken::StatementEnd),
        Token::Dot(_) => Some(BaseToken::Dot),
        Token::ModuleSeparator(_) => Some(BaseToken::LogicPathSeparator),
        Token::Minus(_) => Some(BaseToken::Minus),
        Token::CompositionRight(_) => Some(BaseToken::CompositionRight),
        Token::CompositionLeft(_) => Some(BaseToken::CompositionLeft),
        Token::Plus(_) => Some(BaseToken::Plus),
        Token::Power(_) => Some(BaseToken::Power),
        Token::Star(_) => Some(BaseToken::Star),
        Token::Div(_) => Some(BaseToken::Div),
        Token::Module(_) => Some(BaseToken::Module),
        Token::ShiftLeft(_) => Some(BaseToken::ShiftLeft),
        Token::ShiftRight(_) => Some(BaseToken::ShiftRight),
        Token::MapOperator(_) => Some(BaseToken::MapOperator),
        Token::MapConstRight(_) => Some(BaseToken::MapConstRight),
        Token::MapConstLeft(_) => Some(BaseToken::MapConstLeft),
        Token::Appliative(_) => Some(BaseToken::Appliative),
        Token::ApplicativeRight(_) => Some(BaseToken::ApplicativeRight),
        Token::ApplicativeLeft(_) => Some(BaseToken::ApplicativeLeft),
        Token::Equality(_) => Some(BaseToken::Equality),
        Token::NotEqual(_) => Some(BaseToken::NotEqual),
        Token::LessOrEqual(_) => Some(BaseToken::LessOrEqual),
        Token::MoreOrEqual(_) => Some(BaseToken::MoreOrEqual),
        Token::LessThan(_) => Some(BaseToken::LessThan),
        Token::MoreThan(_) => Some(BaseToken::MoreThan),
        Token::And(_) => Some(BaseToken::And),
        Token::Or(_) => Some(BaseToken::Or),
        Token::ReverseApplication(_) => Some(BaseToken::ReverseApplication),
        Token::DollarApplication(_) => Some(BaseToken::DollarApplication),
        Token::Asignation(_) => Some(BaseToken::Asignation),
        Token::At(_) => Some(BaseToken::At),
        Token::Pipe(_) => Some(BaseToken::Pipe),
        Token::Alternative(_) => Some(BaseToken::Alternative),
        Token::FlippedMap(_) => Some(BaseToken::FlippedMap),
        Token::Annotate(_) => Some(BaseToken::Annotate),
        Token::LParen(_) => Some(BaseToken::LParen),
        Token::RParen(_) => Some(BaseToken::RParen),
        Token::LBracket(_) => Some(BaseToken::LBracket),
        Token::RBracket(_) => Some(BaseToken::RBracket),
        Token::LBrace(_) => Some(BaseToken::LBrace),
        Token::RBrace(_) => Some(BaseToken::RBrace),
        Token::RightArrow(_) => Some(BaseToken::RightArrow),
        Token::LeftArrow(_) => Some(BaseToken::LeftArrow),
        Token::LambdaStart(_) => Some(BaseToken::LambdaStart),
        Token::Let(_) => Some(BaseToken::Let),
        Token::In(_) => Some(BaseToken::In),
        Token::Case(_) => Some(BaseToken::Case),
        Token::Of(_) => Some(BaseToken::Of),
        Token::Import(_) => Some(BaseToken::Import),
        Token::Data(_) => Some(BaseToken::Data),
        Token::Newtype(_) => Some(BaseToken::Newtype),
        Token::Class(_) => Some(BaseToken::Class),
        Token::Instance(_) => Some(BaseToken::Instance),
        Token::Public(_) => Some(BaseToken::Public),
        Token::Alias(_) => Some(BaseToken::Alias),
        Token::As(_) => Some(BaseToken::As),
        Token::Unqualified(_) => Some(BaseToken::Unqualified),
        Token::Forall(_) => Some(BaseToken::Forall),
        Token::Type(_) => Some(BaseToken::Type),
        Token::U8(_) => None,
        Token::U16(_) => None,
        Token::U32(_) => None,
        Token::U64(_) => None,
        Token::I8(_) => None,
        Token::I16(_) => None,
        Token::I32(_) => None,
        Token::I64(_) => None,
        Token::Float32(_) => None,
        Token::Float64(_) => None,
        Token::CharType(_) => None,
        Token::StringType(_) => None,
        Token::Comment(_, Comment::Line(c)) => Some(BaseToken::LineComment(c)),
        Token::Comment(_, Comment::Block(c)) => Some(BaseToken::BlockComment(c)),
        Token::StringLiteral(_, x) => Some(BaseToken::StringLiteral(x)),
        Token::StringInterpolation(_, x) => Some(BaseToken::StringInterpolation(x)),
        Token::UintLiteral(_, x) => Some(BaseToken::UintLiteral(x)),
        Token::UFloatLiteral(_, x) => Some(BaseToken::UFloatLiteral(x)),
        Token::Identifier(_, x) => Some(BaseToken::Identifier(x)),
        Token::InfixIdentifier(_, x) => Some(BaseToken::InfixIdentifier(x)),
        Token::Selector(_, x) => Some(BaseToken::Selector(x)),
        Token::NamedHole(_, x) => Some(BaseToken::NamedHole(x)),
        Token::OwnershipLiteral(_, x) => Some(BaseToken::OwnershipLiteral(x)),
        Token::OwnershipVariable(_, x) => Some(BaseToken::OwnershipVariable(x)),
        Token::AnonHole(_) => Some(BaseToken::AnonHole),
        Token::LastComments(_, _) => None,
    }
}

impl Token {
    /// The information of the token.
    pub fn info(&self) -> (r: &TokenInfo)
        ensures
            *r == token_info(*self),
    {
        match self {
            Token::Interrogation(info) => info,
            Token::Exclamation(info) => info,
            Token::Hash(info) => info,
            Token::Comma(info) => info,
            Token::Colon(info) => info,
            Token::StatementEnd(info) => info,
            Token::Dot(info) => info,
            Token::ModuleSeparator(info) => info,
            Token::Minus(info) => info,
            Token::CompositionRight(info) => info,
            Token::CompositionLeft(info) => info,
            Token::Plus(info) => info,
            Token::Power(info) => info,
            Token::Star(info) => info,
            Token::Div(info) => info,
            Token::Module(info) => info,
            Token::ShiftLeft(info) => info,
            Token::ShiftRight(info) => info,
            Token::MapOperator(info) => info,
            Token::MapConstRight(info) => info,
            Token::MapConstLeft(info) => info,
            Token::Appliative(info) => info,
            Token::ApplicativeRight(info) => info,
            Token::ApplicativeLeft(info) => info,
            Token::Equality(info) => info,
            Token::NotEqual(info) => info,
            Token::LessOrEqual(info) => info,
            Token::MoreOrEqual(info) => info,
            Token::LessThan(info) => info,
            Token::MoreThan(info) => info,
            Token::And(info) => info,
            Token::Or(info) => info,
            Token::ReverseApplication(info) => info,
            Token::DollarApplication(info) => info,
            Token::Asignation(info) => info,
            Token::At(info) => info,
            Token::Pipe(info) => info,
            Token::Alternative(info) => info,
            Token::FlippedMap(info) => info,
            Token::Annotate(info) => info,
            Token::LParen(info) => info,
            Token::RParen(info) => info,
            Token::LBracket(info) => info,
            Token::RBracket(info) => info,
            Token::LBrace(info) => info,
            Token::RBrace(info) => info,
            Token::RightArrow(info) => info,
            Token::LeftArrow(info) => info,
            Token::LambdaStart(info) => info,
            Token::Let(info) => info,
            Token::In(info) => info,
            Token::Case(info) => info,
            Token::Of(info) => info,
            Token::Import(info) => info,
            Token::Data(info) => info,
            Token::Newtype(info) => info,
            Token::Class(info) => info,
            Token::Instance(info) => info,
            Token::Public(info) => info,
            Token::Alias(info) => info,
            Token::As(info) => info,
            Token::Unqualified(info) => info,
            Token::Forall(info) => info,
            Token::Type(info) => info,
            Token::U8(info) => info,
            Token::U16(info) => info,
            Token::U32(info) => info,
            Token::U64(info) => info,
            Token::I8(info) => info,
            Token::I16(info) => info,
            Token::I32(info) => info,
            Token::I64(info) => info,
            Token::Float32(info) => info,
            Token::Float64(info) => info,
            Token::CharType(info) => info,
            Token::StringType(info) => info,
            Token::Comment(info, _) => info,
            Token::StringLiteral(info, _) => info,
            Token::StringInterpolation(info, _) => info,
            Token::UintLiteral(info, _) => info,
            Token::UFloatLiteral(info, _) => info,
            Token::Identifier(info, _) => info,
            Token::InfixIdentifier(info, _) => info,
            Token::Selector(info, _) => info,
            Token::NamedHole(info, _) => info,
            Token::OwnershipLiteral(info, _) => info,
            Token::OwnershipVariable(info, _) => info,
            Token::AnonHole(info) => info,
            Token::LastComments(info, _) => info,
        }
    }
}

impl From<Token> for TokenInfo {
    fn from(value: Token) -> (r: TokenInfo) {
        match value {
            Token::Interrogation(info) => info,
            Token::Exclamation(info) => info,
            Token::Hash(info) => info,
            Token::Comma(info) => info,
            Token::Colon(info) => info,
            Token::StatementEnd(info) => info,
            Token::Dot(info) => info,
            Token::ModuleSeparator(info) => info,
            Token::Minus(info) => info,
            Token::CompositionRight(info) => info,
            Token::CompositionLeft(info) => info,
            Token::Plus(info) => info,
            Token::Power(info) => info,
            Token::Star(info) => info,
            Token::Div(info) => info,
            Token::Module(info) => info,
            Token::ShiftLeft(info) => info,
            Token::ShiftRight(info) => info,
            Token::MapOperator(info) => info,
            Token::MapConstRight(info) => info,
            Token::MapConstLeft(info) => info,
            Token::Appliative(info) => info,
            Token::ApplicativeRight(info) => info,
            Token::ApplicativeLeft(info) => info,
            Token::Equality(info) => info,
            Token::NotEqual(info) => info,
            Token::LessOrEqual(info) => info,
            Token::MoreOrEqual(info) => info,
            Token::LessThan(info) => info,
            Token::MoreThan(info) => info,
            Token::And(info) => info,
            Token::Or(info) => info,
            Token::ReverseApplication(info) => info,
            Token::DollarApplication(info) => info,
            Token::Asignation(info) => info,
            Token::At(info) => info,
            Token::Pipe(info) => info,
            Token::Alternative(info) => info,
            Token::FlippedMap(info) => info,
            Token::Annotate(info) => info,
            Token::LParen(info) => info,
            Token::RParen(info) => info,
            Token::LBracket(info) => info,
            Token::RBracket(info) => info,
            Token::LBrace(info) => info,
            Token::RBrace(info) => info,
            Token::RightArrow(info) => info,
            Token::LeftArrow(info) => info,
            Token::LambdaStart(info) => info,
            Token::Let(info) => info,
            Token::In(info) => info,
            Token::Case(info) => info,
            Token::Of(info) => info,
            Token::Import(info) => info,
            Token::Data(info) => info,
            Token::Newtype(info) => info,
            Token::Class(info) => info,
            Token::Instance(info) => info,
            Token::Public(info) => info,
            Token::Alias(info) => info,
            Token::As(info) => info,
            Token::Unqualified(info) => info,
            Token::Forall(info) => info,
            Token::Type(info) => info,
            Token::U8(info) => info,
            Token::U16(info) => info,
            Token::U32(info) => info,
            Token::U64(info) => info,
            Token::I8(info) => info,
            Token::I16(info) => info,
            Token::I32(info) => info,
            Token::I64(info) => info,
            Token::Float32(info) => info,
            Token::Float64(info) => info,
            Token::CharType(info) => info,
            Token::StringType(info) => info,
            Token::Comment(info, _) => info,
            Token::StringLiteral(info, _) => info,
            Token::StringInterpolation(info, _) => info,
            Token::UintLiteral(info, _) => info,
            Token::UFloatLiteral(info, _) => info,
            Token::Identifier(info, _) => info,
            Token::InfixIdentifier(info, _) => info,
            Token::Selector(info, _) => info,
            Token::NamedHole(info, _) => info,
            Token::OwnershipLiteral(info, _) => info,
            Token::OwnershipVariable(info, _) => info,
            Token::AnonHole(info) => info,
            Token::LastComments(info, _) => info,
        }
    }
}

impl vstd::std_specs::convert::FromSpecImpl<Token> for TokenInfo {
    open spec fn obeys_from_spec() -> bool {
        true
    }

    open spec fn from_spec(value: Token) -> TokenInfo {
        token_info(value)
    }
}

impl HasLocation for Token {
    fn get_location(&self) -> (r: Location)
        ensures
            r == Location::Span(token_info(*self).span),
    {
        Location::Span(self.info().span)
    }
}

/// Attaches the information to a base token: the token of the same kind
/// with that information.
pub fn aux_base_token_to_token(base_token: BaseToken, info: TokenInfo) -> (r: Token)
    ensures
        token_info(r) == info,
        token_base(r) == Some(base_token),
{
    match base_token {
        BaseToken::Interrogation => Token::Interrogation(info),
        BaseToken::Exclamation => Token::Exclamation(info),
        BaseToken::Hash => Token::Hash(info),
        BaseToken::Comma => Token::Comma(info),
        BaseToken::Colon => Token::Colon(info),
        BaseToken::StatementEnd => Token::StatementEnd(info),
        BaseToken::Dot => Token::Dot(info),
        BaseToken::LogicPathSeparator => Token::ModuleSeparator(info),
        BaseToken::Minus => Token::Minus(info),
        BaseToken::CompositionRight => Token::CompositionRight(info),
        BaseToken::CompositionLeft => Token::CompositionLeft(info),
        BaseToken::Plus => Token::Plus(info),
        BaseToken::Power => Token::Power(info),
        BaseToken::Star => Token::Star(info),
        BaseToken::Div => Token::Div(info),
        BaseToken::Module => Token::Module(info),
        BaseToken::ShiftLeft => Token::ShiftLeft(info),
        BaseToken::ShiftRight => Token::ShiftRight(info),
        BaseToken::MapOperator => Token::MapOperator(info),
        BaseToken::MapConstRight => Token::MapConstRight(info),
        BaseToken::MapConstLeft => Token::MapConstLeft(info),
        BaseToken::Appliative => Token::Appliative(info),
        BaseToken::ApplicativeRight => Token::ApplicativeRight(info),
        BaseToken::ApplicativeLeft => Token::ApplicativeLeft(info),
        BaseToken::Equality => Token::Equality(info),
        BaseToken::NotEqual => Token::NotEqual(info),
        BaseToken::LessOrEqual => Token::LessOrEqual(info),
        BaseToken::MoreOrEqual => Token::MoreOrEqual(info),
        BaseToken::LessThan => Token::LessThan(info),
        BaseToken::MoreThan => Token::MoreThan(info),
        BaseToken::And => Token::And(info),
        BaseToken::Or => Token::Or(info),
        BaseToken::ReverseApplication => Token::ReverseApplication(info),
        BaseToken::DollarApplication => Token::DollarApplication(info),
        BaseToken::Asignation => Token::Asignation(info),
        BaseToken::At => Token::At(info),
        BaseToken::Pipe => Token::Pipe(info),
        BaseToken::Alternative => Token::Alternative(info),
        BaseToken::FlippedMap => Token::FlippedMap(info),
        BaseToken::Annotate => Token::Annotate(info),
        BaseToken::LParen => Token::LParen(info),
        BaseToken::RParen => Token::RParen(info),
        BaseToken::LBracket => Token::LBracket(info),
        BaseToken::RBracket => Token::RBracket(info),
        BaseToken::LBrace => Token::LBrace(info),
        BaseToken::RBrace => Token::RBrace(info),
        BaseToken::RightArrow => Token::RightArrow(info),
        BaseToken::LeftArrow => Token::LeftArrow(info),
        BaseToken::LambdaStart => Token::LambdaStart(info),
        BaseToken::Let => Token::Let(info),
        BaseToken::In => Token::In(info),
        BaseToken::Case => Token::Case(info),
        BaseToken::Of => Token::Of(info),
        BaseToken::Import => Token::Import(info),
        BaseToken::Data => Token::Data(info),
        BaseToken::Newtype => Token::Newtype(info),
        BaseToken::Class => Token::Class(info),
        BaseToken::Instance => Token::Instance(info),
        BaseToken::Public => Token::Public(info),
        BaseToken::Alias => Token::Alias(info),
        BaseToken::As => Token::As(info),
        BaseToken::Unqualified => Token::Unqualified(info),
        BaseToken::Forall => Token::Forall(info),
        BaseToken::Type => Token::Type(info),
        BaseToken::LineComment(c) => Token::Comment(info, Comment::Line(c)),
        BaseToken::BlockComment(c) => Token::Comment(info, Comment::Block(c)),
        BaseToken::StringLiteral(x) => Token::StringLiteral(info, x),
        BaseToken::StringInterpolation(x) => Token::StringInterpolation(info, x),
        BaseToken::UintLiteral(x) => Token::UintLiteral(info, x),
        BaseToken::UFloatLiteral(x) => Token::UFloatLiteral(info, x),
        BaseToken::Identifier(x) => Token::Identifier(info, x),
        BaseToken::InfixIdentifier(x) => Token::InfixIdentifier(info, x),
        BaseToken::Selector(x) => Token::Selector(info, x),
        BaseToken::NamedHole(x) => Token::NamedHole(info, x),
        BaseToken::OwnershipLiteral(x) => Token::OwnershipLiteral(info, x),
        BaseToken::OwnershipVariable(x) => Token::OwnershipVariable(info, x),
        BaseToken::AnonHole => Token::AnonHole(info),
    }
}

/// The report that a token is not of the kind that the grammar expected.
pub open spec fn untranslatable(t: Token) -> OctizysParserReport {
    OctizysParserReport {
        kind: ReportKind::Error,
        report: ParserReport::Lexer(LexerReportKind::CantTranslateToToken(t)),
        location: Location::Span(token_info(t).span),
    }
}

/// Makes the report that a token is not of the kind that the grammar expected.
fn make_untranslatable(t: Token) -> (r: OctizysParserReport)
    ensures
        r == untranslatable(t),
{
    let span = t.info().span;
    OctizysParserReport {
        kind: ReportKind::Error,
        report: ParserReport::Lexer(LexerReportKind::CantTranslateToToken(t)),
        location: Location::Span(span),
    }
}

/// The identifier token as a syntax tree token, or the report that it is
/// another token.
pub fn identifier_token_to_token(t: Token) -> (r: Result<CstToken<Identifier>, OctizysParserReport>)
    ensures
        t matches Token::Identifier(info, value) ==> r == Ok::<CstToken<Identifier>, OctizysParserReport>(
            CstToken { value, info },
        ),
        !(t is Identifier) ==> r == Err::<CstToken<Identifier>, OctizysParserReport>(
            untranslatable(t),
        ),
{
    match t {
        Token::Identifier(info, value) => Ok(CstToken { value, info }),
        other => Err(make_untranslatable(other)),
    }
}

/// The stringliteral token as a syntax tree token, or the report that it is
/// another token.
pub fn string_token_to_token(t: Token) -> (r: Result<CstToken<StringLiteral>, OctizysParserReport>)
    ensures
        t matches Token::StringLiteral(info, value) ==> r == Ok::<CstToken<StringLiteral>, OctizysParserReport>(
            CstToken { value, info },
        ),
        !(t is StringLiteral) ==> r == Err::<CstToken<StringLiteral>, OctizysParserReport>(
            untranslatable(t),
        ),
{
    match t {
        Token::StringLiteral(info, value) => Ok(CstToken { value, info }),
        other => Err(make_untranslatable(other)),
    }
}

/// The uintliteral token as a syntax tree token, or the report that it is
/// another token.
pub fn uint_token_to_token(t: Token) -> (r: Result<CstToken<UintLiteral>, OctizysParserReport>)
    ensures
        t matches Token::UintLiteral(info, value) ==> r == Ok::<CstToken<UintLiteral>, OctizysParserReport>(
            CstToken { value, info },
        ),
        !(t is UintLiteral) ==> r == Err::<CstToken<UintLiteral>, OctizysParserReport>(
            untranslatable(t),
        ),
{
    match t {
        Token::UintLiteral(info, value) => Ok(CstToken { value, info }),
        other => Err(make_untranslatable(other)),
    }
}

/// The stringinterpolation token as a syntax tree token, or the report that it is
/// another token.
pub fn interpolation_token_to_token(t: Token) -> (r: Result<CstToken<InterpolationString>, OctizysParserReport>)
    ensures
        t matches Token::StringInterpolation(info, value) ==> r == Ok::<CstToken<InterpolationString>, OctizysParserReport>(
            CstToken { value, info },
        ),
        !(t is StringInterpolation) ==> r == Err::<CstToken<InterpolationString>, OctizysParserReport>(
            untranslatable(t),
        ),
{
    match t {
        Token::StringInterpolation(info, value) => Ok(CstToken { value, info }),
        other => Err(make_untranslatable(other)),
    }
}

/// The ufloatliteral token as a syntax tree token, or the report that it is
/// another token.
pub fn ufloat_token_to_token(t: Token) -> (r: Result<CstToken<UFloatingPointLiteral>, OctizysParserReport>)
    ensures
        t matches Token::UFloatLiteral(info, value) ==> r == Ok::<CstToken<UFloatingPointLiteral>, OctizysParserReport>(
            CstToken { value, info },
        ),
        !(t is UFloatLiteral) ==> r == Err::<CstToken<UFloatingPointLiteral>, OctizysParserReport>(
            untranslatable(t),
        ),
{
    match t {
        Token::UFloatLiteral(info, value) => Ok(CstToken { value, info }),
        other => Err(make_untranslatable(other)),
    }
}

/// The selector token as a syntax tree token, or the report that it is
/// another token.
pub fn selector_token_to_token(t: Token) -> (r: Result<CstToken<Identifier>, OctizysParserReport>)
    ensures
        t matches Token::Selector(info, value) ==> r == Ok::<CstToken<Identifier>, OctizysParserReport>(
            CstToken { value, info },
        ),
        !(t is Selector) ==> r == Err::<CstToken<Identifier>, OctizysParserReport>(
            untranslatable(t),
        ),
{
    match t {
        Token::Selector(info, value) => Ok(CstToken { value, info }),
        other => Err(make_untranslatable(other)),
    }
}

/// The namedhole token as a syntax tree token, or the report that it is
/// another token.
pub fn named_hole_token_to_token(t: Token) -> (r: Result<CstToken<u64>, OctizysParserReport>)
    ensures
        t matches Token::NamedHole(info, value) ==> r == Ok::<CstToken<u64>, OctizysParserReport>(
            CstToken { value, info },
        ),
        !(t is NamedHole) ==> r == Err::<CstToken<u64>, OctizysParserReport>(
            untranslatable(t),
        ),
{
    match t {
        Token::NamedHole(info, value) => Ok(CstToken { value, info }),
        other => Err(make_untranslatable(other)),
    }
}

/// The comment token as a syntax tree token, or the report that it is
/// another token.
pub fn last_comment_token_to_token(t: Token) -> (r: Result<CstToken<Comment>, OctizysParserReport>)
    ensures
        t matches Token::Comment(info, value) ==> r == Ok::<CstToken<Comment>, OctizysParserReport>(
            CstToken { value, info },
        ),
        !(t is Comment) ==> r == Err::<CstToken<Comment>, OctizysParserReport>(
            untranslatable(t),
        ),
{
    match t {
        Token::Comment(info, value) => Ok(CstToken { value, info }),
        other => Err(make_untranslatable(other)),
    }
}

} // verus!
