//! Expressions as written in the source.
use vstd::prelude::*;
use crate::cst::base::{
    Between, Braces, Comma, ImportedVariable, OperatorName, Parens, Token, TokenInfo, TrailingList,
};
use crate::cst::literals::{InterpolationString, StringLiteral, UFloatingPointLiteral, UintLiteral};
use crate::cst::patterns::PatternMatch;
use crate::cst::types::Type;
use crate::identifier::Identifier;

verus! {

/// A binding of a `let`: `pattern = value;`.
#[derive(Debug)]
pub struct LetBinding {
    pub pattern: PatternMatch,
    pub equal: TokenInfo,
    pub value: Expression,
    pub semicolon: TokenInfo,
}

/// `let bindings in expression`.
#[derive(Debug)]
pub struct Let {
    pub let_: TokenInfo,
    pub bindings: Vec<LetBinding>,
    pub in_: TokenInfo,
    pub expression: Box<Expression>,
}

/// An alternative of a `case`: `pattern -> expression`.
#[derive(Debug)]
pub struct CaseItem {
    pub pattern: PatternMatch,
    pub arrow: TokenInfo,
    pub expression: Box<Expression>,
}

/// `case expression of { alternatives }`.
#[derive(Debug)]
pub struct Case {
    pub case: TokenInfo,
    pub expression: Box<Expression>,
    pub of: TokenInfo,
    pub cases: Between<TrailingList<CaseItem, Comma>, Braces>,
}

/// An operator between two expressions.
#[derive(Debug)]
pub struct BinaryOperator {
    pub left: Box<Expression>,
    pub right: Box<Expression>,
    pub name: Token<OperatorName>,
}

/// `\variable -> expression`.
#[derive(Debug)]
pub struct LambdaExpression {
    pub variable: Token<Identifier>,
    pub expression: Box<Expression>,
}

/// A function applied to arguments.
#[derive(Debug)]
pub struct ApplicationExpression {
    pub start: Box<Expression>,
    pub remain: Vec<Expression>,
}

/// A field of a record expression: a variable, or a variable with a value.
#[derive(Debug)]
pub enum ExpressionRecordItem {
    SingleVariable { variable: Token<Identifier> },
    Assignation { variable: Token<Identifier>, equal: TokenInfo, expression: Box<Expression> },
}

/// A field of an expression: `expression.accessor`.
#[derive(Debug)]
pub struct ExpressionSelector {
    pub expression: Box<Expression>,
    pub accessor: Token<Identifier>,
}

/// An expression.
#[derive(Debug)]
pub enum Expression {
    String(Token<StringLiteral>),
    InterpolationString(Token<InterpolationString>),
    Uint(Token<UintLiteral>),
    UFloat(Token<UFloatingPointLiteral>),
    LocalVariable(Token<Identifier>),
    ImportedVariable(Token<ImportedVariable>),
    NamedHole(Token<u64>),
    Tuple(Between<TrailingList<Box<Expression>, Comma>, Parens>),
    Record(Between<TrailingList<ExpressionRecordItem, Comma>, Braces>),
    Case(Case),
    Parens(Between<Box<Expression>, Parens>),
    Selector(ExpressionSelector),
    Interrogation { expression: Box<Expression>, symbol: TokenInfo },
    TypeArgument { at: TokenInfo, type_: Type },
    Let(Let),
    BinaryOperator(BinaryOperator),
    Lambda(LambdaExpression),
    Application(ApplicationExpression),
}

/// Whether an expression needs parentheses as the argument of an
/// application: operators, lambdas and applications do, and so does a type
/// argument whose type does.
pub open spec fn expression_needs_parens(e: Expression) -> bool {
    match e {
        Expression::TypeArgument { type_, .. } => type_ is Application || type_ is Arrow
            || type_ is Scheme,
        Expression::BinaryOperator(_) => true,
        Expression::Lambda(_) => true,
        Expression::Application(_) => true,
        _ => false,
    }
}

impl Expression {
    /// The field `s` of the expression `e`, followed by `?` when `symbol`
    /// holds the question mark.
    pub fn selector_from_args(e: Box<Self>, s: Token<Identifier>, symbol: Option<TokenInfo>) -> (r: Self)
        ensures
            symbol is None ==> r == Expression::Selector(
                ExpressionSelector { expression: e, accessor: s },
            ),
            symbol matches Some(info) ==> r == (Expression::Interrogation {
                expression: Box::new(
                    Expression::Selector(ExpressionSelector { expression: e, accessor: s }),
                ),
                symbol: info,
            }),
    {
        let selector = Expression::Selector(ExpressionSelector { expression: e, accessor: s });
        match symbol {
            Some(info) => Expression::Interrogation { expression: Box::new(selector), symbol: info },
            None => selector,
        }
    }

    /// Whether the expression needs parentheses as the argument of an
    /// application.
    pub fn need_parens(&self) -> (r: bool)
        ensures
            r == expression_needs_parens(*self),
    {
        match self {
            Expression::String(_) => false,
            Expression::InterpolationString(_) => false,
            Expression::Uint(_) => false,
            Expression::UFloat(_) => false,
            Expression::LocalVariable(_) => false,
            Expression::ImportedVariable(_) => false,
            Expression::NamedHole(_) => false,
            Expression::Tuple(_) => false,
            Expression::Record(_) => false,
            Expression::Case(_) => false,
            Expression::Parens(_) => false,
            Expression::Selector(_) => false,
            Expression::Interrogation { .. } => false,
            Expression::TypeArgument { type_, .. } => type_.need_parens_application(),
            Expression::Let(_) => false,
            Expression::BinaryOperator(_) => true,
            Expression::Lambda(_) => true,
            Expression::Application(_) => true,
        }
    }
}


/// As the argument of an application, an expression needs parentheses
/// exactly when it is an application, a lambda, a binary operator, or a type
/// argument whose type is an application, an arrow or a scheme: `g (f x)`,
/// `g (\x -> x)`, `g (a + b)`; never for variables, literals, holes,
/// tuples, records, cases, parenthesised expressions, selectors,
/// interrogations or lets.
pub proof fn lemma_argument_parens(e: Expression)
    ensures
        (e is Application || e is Lambda || e is BinaryOperator) ==> expression_needs_parens(e),
        (e is String || e is InterpolationString || e is Uint || e is UFloat || e is LocalVariable
            || e is ImportedVariable || e is NamedHole || e is Tuple || e is Record || e is Case
            || e is Parens || e is Selector || e is Interrogation || e is Let) ==> !expression_needs_parens(e),
        e matches Expression::TypeArgument { type_, .. } ==> (expression_needs_parens(e) <==> (
        type_ is Application || type_ is Arrow || type_ is Scheme)),
{
}

} // verus!
