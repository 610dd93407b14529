//! The basic blocks of an accurate parsing tree: tokens with their comments
//! and places, delimited values and separated lists.
use vstd::prelude::*;
use core::marker::PhantomData;
use crate::cst::comments::{moved_before, Comment, CommentsInfo};
use crate::cst::sealed::Sealed;
use crate::identifier::Identifier;
use crate::logic_path::LogicPath;
use crate::span::{span_union, Position, Span};

use crate::equivalence::Equivalence;
verus! {

/// A token kind known at compile time, together with its text.
pub trait ShowableToken: Sealed {
    fn show() -> &'static str;
}

/// The keyword `unqualified`.
#[derive(Debug, PartialEq, Eq, Clone, Copy)]
pub struct UnqualifiedKeyword;

/// The keyword `data`.
#[derive(Debug, PartialEq, Eq, Clone, Copy)]
pub struct DataKeyword;

/// The keyword `alias`.
#[derive(Debug, PartialEq, Eq, Clone, Copy)]
pub struct AliasKeyword;

/// The keyword `newtype`.
#[derive(Debug, PartialEq, Eq, Clone, Copy)]
pub struct NewTypeKeyword;

/// The keyword `public`.
#[derive(Debug, PartialEq, Eq, Clone, Copy)]
pub struct PublicKeyword;

impl Sealed for UnqualifiedKeyword {}

impl Sealed for DataKeyword {}

impl Sealed for AliasKeyword {}

impl Sealed for NewTypeKeyword {}

impl Sealed for PublicKeyword {}

impl ShowableToken for UnqualifiedKeyword {
    fn show() -> (r: &'static str)
        ensures
            r@ == "unqualified"@,
    {
        "unqualified"
    }
}

impl ShowableToken for DataKeyword {
    fn show() -> (r: &'static str)
        ensures
            r@ == "data"@,
    {
        "data"
    }
}

impl ShowableToken for AliasKeyword {
    fn show() -> (r: &'static str)
        ensures
            r@ == "alias"@,
    {
        "alias"
    }
}

impl ShowableToken for NewTypeKeyword {
    fn show() -> (r: &'static str)
        ensures
            r@ == "newtype"@,
    {
        "newtype"
    }
}

impl ShowableToken for PublicKeyword {
    fn show() -> (r: &'static str)
        ensures
            r@ == "public"@,
    {
        "public"
    }
}

/// A separator between the items of a list, known at compile time:
/// [`Pipe`], [`Comma`], [`RightArrow`], [`Colon`], [`LogicPathSeparator`]
/// and [`SemiColon`].
/// The keywords that start the definition of a type.
pub trait TopTypeName: Sealed + ShowableToken {}

impl TopTypeName for DataKeyword {}

impl TopTypeName for AliasKeyword {}

impl TopTypeName for NewTypeKeyword {}

pub trait Separator: Sealed {
    fn to_str() -> &'static str;
}

/// The separator `|`.
#[derive(Debug, PartialEq, Eq, Clone, Copy)]
pub struct Pipe;

/// The separator `,`.
#[derive(Debug, PartialEq, Eq, Clone, Copy)]
pub struct Comma;

/// The separator `->`.
#[derive(Debug, PartialEq, Eq, Clone, Copy)]
pub struct RightArrow;

/// The separator `:`.
#[derive(Debug, PartialEq, Eq, Clone, Copy)]
pub struct Colon;

/// The separator `::`.
#[derive(Debug, PartialEq, Eq, Clone, Copy)]
pub struct LogicPathSeparator;

/// The separator `;`.
#[derive(Debug, PartialEq, Eq, Clone, Copy)]
pub struct SemiColon;

impl Sealed for Pipe {}

impl Sealed for Comma {}

impl Sealed for RightArrow {}

impl Sealed for Colon {}

impl Sealed for LogicPathSeparator {}

impl Sealed for SemiColon {}

impl Separator for Pipe {
    fn to_str() -> (r: &'static str)
        ensures
            r@ == "|"@,
    {
        "|"
    }
}

impl Separator for Comma {
    fn to_str() -> (r: &'static str)
        ensures
            r@ == ","@,
    {
        ","
    }
}

impl Separator for RightArrow {
    fn to_str() -> (r: &'static str)
        ensures
            r@ == "->"@,
    {
        "->"
    }
}

impl Separator for Colon {
    fn to_str() -> (r: &'static str)
        ensures
            r@ == ":"@,
    {
        ":"
    }
}

impl Separator for LogicPathSeparator {
    fn to_str() -> (r: &'static str)
        ensures
            r@ == "::"@,
    {
        "::"
    }
}

impl Separator for SemiColon {
    fn to_str() -> (r: &'static str)
        ensures
            r@ == ";"@,
    {
        ";"
    }
}

impl ShowableToken for Pipe {
    fn show() -> (r: &'static str)
        ensures
            r@ == "|"@,
    {
        Self::to_str()
    }
}

impl ShowableToken for Comma {
    fn show() -> (r: &'static str)
        ensures
            r@ == ","@,
    {
        Self::to_str()
    }
}

impl ShowableToken for RightArrow {
    fn show() -> (r: &'static str)
        ensures
            r@ == "->"@,
    {
        Self::to_str()
    }
}

impl ShowableToken for Colon {
    fn show() -> (r: &'static str)
        ensures
            r@ == ":"@,
    {
        Self::to_str()
    }
}

impl ShowableToken for LogicPathSeparator {
    fn show() -> (r: &'static str)
        ensures
            r@ == "::"@,
    {
        Self::to_str()
    }
}

impl ShowableToken for SemiColon {
    fn show() -> (r: &'static str)
        ensures
            r@ == ";"@,
    {
        Self::to_str()
    }
}

/// Delimiters around a value, known at compile time:
/// [`Parens`], [`Brackets`] and [`Braces`].
pub trait Delimiters: Sealed {
    fn to_strs() -> (&'static str, &'static str);
}

/// The delimiters `(` and `)`.
#[derive(Debug, PartialEq, Eq, Clone, Copy)]
pub struct Parens;

/// The delimiters `[` and `]`.
#[derive(Debug, PartialEq, Eq, Clone, Copy)]
pub struct Brackets;

/// The delimiters `{` and `}`.
#[derive(Debug, PartialEq, Eq, Clone, Copy)]
pub struct Braces;

impl Sealed for Parens {}

impl Sealed for Brackets {}

impl Sealed for Braces {}

impl Delimiters for Parens {
    fn to_strs() -> (r: (&'static str, &'static str))
        ensures
            r.0@ == "("@,
            r.1@ == ")"@,
    {
        ("(", ")")
    }
}

impl Delimiters for Brackets {
    fn to_strs() -> (r: (&'static str, &'static str))
        ensures
            r.0@ == "["@,
            r.1@ == "]"@,
    {
        ("[", "]")
    }
}

impl Delimiters for Braces {
    fn to_strs() -> (r: (&'static str, &'static str))
        ensures
            r.0@ == "{"@,
            r.1@ == "}"@,
    {
        ("{", "}")
    }
}

/// The comments of a token and the region of the source it covers.
#[derive(Debug, Clone, PartialEq, Eq)]
pub struct TokenInfo {
    pub comments: CommentsInfo,
    pub span: Span,
}

impl crate::span::HasLocation for TokenInfo {
    fn get_location(&self) -> (r: crate::span::Location)
        ensures
            r == crate::span::Location::Span(self.span),
    {
        crate::span::Location::Span(self.span)
    }
}

impl TokenInfo {
    /// The information of a token with these comments between two positions.
    pub fn make(comments_info: CommentsInfo, start: Position, end: Position) -> (r: TokenInfo)
        ensures
            r.comments == comments_info,
            r.span == (Span { start, end }),
    {
        TokenInfo { comments: comments_info, span: Span { start, end } }
    }

    /// Merges the information of another token into this one:
    /// the comments as [`CommentsInfo::consume_info`] does, and the spans
    /// into the smallest span that covers both.
    pub fn consume_info(&mut self, other: Self)
        ensures
            final(self).comments.before@ == moved_before(old(self).comments)
                + other.comments.before@ + other.comments.after@,
            final(self).comments.after@.len() == 0,
            final(self).span == span_union(old(self).span, other.span),
    {
        self.comments.consume_info(other.comments);
        self.span = self.span + other.span;
    }
}

/// A token information tagged with the kind of token it belongs to; the
/// grammar uses it for keywords, separators and brackets.
#[derive(Debug, PartialEq, Eq)]
pub struct TokenInfoWithPhantom<P> {
    pub info: TokenInfo,
    pub _phantom: PhantomData<P>,
}

impl<P> TokenInfoWithPhantom<P> {
    /// Tags a token information.
    pub fn from_info(value: TokenInfo) -> (r: Self)
        ensures
            r.info == value,
    {
        TokenInfoWithPhantom { info: value, _phantom: PhantomData }
    }
}

/// A token: a value together with its comments and its place.
/// Punctuation and keywords are not tokens: they are a
/// [`TokenInfoWithPhantom`] of the right kind.
#[derive(Debug, Clone, PartialEq, Eq)]
pub struct Token<T> {
    pub value: T,
    pub info: TokenInfo,
}

impl<T> Token<T> {
    /// A token with the same information whose value is `f` of this one's.
    pub fn map<Out, F: Fn(T) -> Out>(self, f: F) -> (r: Token<Out>)
        requires
            f.requires((self.value,)),
        ensures
            f.ensures((self.value,), r.value),
            r.info == self.info,
    {
        Token { value: f(self.value), info: self.info }
    }

    /// Merges the information of the other token into this one and returns
    /// the other token's value.
    pub fn consume_token<U>(&mut self, other: Token<U>) -> (r: U)
        ensures
            r == other.value,
            final(self).value == old(self).value,
            final(self).info.comments.before@ == moved_before(old(self).info.comments)
                + other.info.comments.before@ + other.info.comments.after@,
            final(self).info.comments.after@.len() == 0,
            final(self).info.span == span_union(old(self).info.span, other.info.span),
    {
        self.info.consume_info(other.info);
        other.value
    }
}

/// The operators that can appear inside an expression.
#[derive(Debug, Clone, Copy, PartialEq, Eq, Structural, PartialOrd, Ord, Hash)]
pub enum OperatorName {
    Interrogation,
    Exclamation,
    Hash,
    Comma,
    Colon,
    StatementEnd,
    Dot,
    ModuleSeparator,
    Minus,
    CompositionLeft,
    CompositionRight,
    Plus,
    Power,
    Star,
    Div,
    Module,
    ShiftLeft,
    ShiftRight,
    MapOperator,
    MapConstRight,
    MapConstLeft,
    Appliative,
    ApplicativeRight,
    ApplicativeLeft,
    Equality,
    NotEqual,
    LessOrEqual,
    MoreOrEqual,
    LessThan,
    MoreThan,
    And,
    Or,
    ReverseApplication,
    DollarApplication,
    Asignation,
    At,
    Pipe,
    Alternative,
    FlippedMap,
    Annotate,
    RightArrow,
    LeftArrow,
    LambdaStart,
}

/// A variable qualified by a path, like `core::main::path`.
#[derive(Debug, Clone, PartialEq, Eq)]
pub struct ImportedVariable {
    pub path: LogicPath,
    pub name: Identifier,
}

/// A value surrounded by delimiters like `()` and `{}`.
#[derive(Debug, PartialEq, Eq)]
pub struct Between<T, Enclosure> where Enclosure: Delimiters {
    pub left: TokenInfo,
    pub right: TokenInfo,
    pub value: T,
    pub _enclosure_phantom: PhantomData<Enclosure>,
}

/// An item of a list of items separated by a separator like `,` or `|`,
/// together with the separator between it and the previous item, like `,b`.
#[derive(Debug, PartialEq, Eq)]
pub struct TrailingListItem<T, SeparatorPhantom> where SeparatorPhantom: Separator {
    pub separator: TokenInfo,
    pub item: T,
    pub _phantom_separator: PhantomData<SeparatorPhantom>,
}

/// A list of items separated by a separator like `,` or `|`, that allows a
/// final separator without item: `a , b, c, d,`.
#[derive(Debug, PartialEq, Eq)]
pub struct TrailingList<T, SeparatorPhantom> where SeparatorPhantom: Separator {
    pub first: T,
    pub items: Vec<TrailingListItem<T, SeparatorPhantom>>,
    pub trailing_sep: Option<TokenInfo>,
}

impl<T, SeparatorPhantom: Separator> TrailingList<T, SeparatorPhantom> {
    /// A list from its first item, the separators and items that follow and
    /// the final separator.
    pub fn from_parts(first: T, rest: Vec<(TokenInfo, T)>, trailing_sep: Option<TokenInfo>) -> (r:
        Self)
        ensures
            r.first == first,
            r.trailing_sep == trailing_sep,
            r.items@.len() == rest@.len(),
            forall|k: int|
                0 <= k < rest@.len() ==> (#[trigger] r.items@[k]).separator == rest@[k].0
                    && r.items@[k].item == rest@[k].1,
    {
        let mut rest = rest;
        let mut reversed: Vec<TrailingListItem<T, SeparatorPhantom>> = Vec::new();
        let ghost all = rest@;
        while rest.len() > 0
            invariant
                rest@ == all.take(rest@.len() as int),
                reversed@.len() + rest@.len() == all.len(),
                forall|k: int|
                    0 <= k < reversed@.len() ==> (#[trigger] reversed@[k]).separator
                        == all[all.len() - 1 - k].0 && reversed@[k].item == all[all.len() - 1 - k].1,
            decreases rest@.len(),
        {
            let ghost n = rest@.len();
            let (separator, item) = rest.pop().unwrap();
            proof {
                assert(rest@ =~= all.take(n - 1));
            }
            reversed.push(TrailingListItem { separator, item, _phantom_separator: PhantomData });
        }
        let mut items: Vec<TrailingListItem<T, SeparatorPhantom>> = Vec::new();
        let ghost rev = reversed@;
        while reversed.len() > 0
            invariant
                reversed@ == rev.take(reversed@.len() as int),
                rev.len() == all.len(),
                items@.len() + reversed@.len() == all.len(),
                forall|k: int|
                    0 <= k < rev.len() ==> (#[trigger] rev[k]).separator == all[all.len() - 1 - k].0
                        && rev[k].item == all[all.len() - 1 - k].1,
                forall|k: int|
                    0 <= k < items@.len() ==> (#[trigger] items@[k]).separator == all[k].0
                        && items@[k].item == all[k].1,
            decreases reversed@.len(),
        {
            let ghost n = reversed@.len();
            let it = reversed.pop().unwrap();
            proof {
                assert(it == rev[n - 1]);
                assert(reversed@ =~= rev.take(n - 1));
            }
            items.push(it);
        }
        TrailingList { first, items, trailing_sep }
    }
}

/// The comments that merging the comments of `others`, one after the other,
/// into comments `(before, after)` gives (see [`CommentsInfo::consume_info`]):
/// the new before comments, and the after comments.
pub open spec fn consume_all(before: Seq<Comment>, after: Seq<Comment>, others: Seq<CommentsInfo>) -> (
    Seq<Comment>,
    Seq<Comment>,
)
    decreases others.len(),
{
    if others.len() == 0 {
        (before, after)
    } else {
        let (b, a) = consume_all(before, after, others.drop_last());
        (b + a.reverse() + others.last().before@ + others.last().after@, Seq::empty())
    }
}

/// The comments of the items of a list of identifiers.
pub open spec fn item_comments(items: Seq<TrailingListItem<Token<Identifier>, LogicPathSeparator>>) -> Seq<
    CommentsInfo,
> {
    items.map_values(|it: TrailingListItem<Token<Identifier>, LogicPathSeparator>| it.item.info.comments)
}

impl TrailingList<Token<Identifier>, LogicPathSeparator> {
    /// The path made of the identifiers of the list. The token keeps the
    /// place of the first identifier, and gathers the comments of all of them.
    pub fn to_logic_path(self) -> (r: Token<LogicPath>)
        ensures
            r.value@.len() == self.items@.len() + 1,
            r.value@[0] == self.first.value,
            forall|k: int|
                0 <= k < self.items@.len() ==> r.value@[k + 1] == (#[trigger] self.items@[k]).item.value,
            r.info.span == self.first.info.span,
            (r.info.comments.before@, r.info.comments.after@) == consume_all(
                self.first.info.comments.before@,
                self.first.info.comments.after@,
                item_comments(self.items@),
            ),
    {
        let TrailingList { first, items, trailing_sep: _ } = self;
        let mut info = first.info;
        let mut acc: Vec<Identifier> = vec![first.value];
        let mut items = items;
        let mut rest: Vec<TrailingListItem<Token<Identifier>, LogicPathSeparator>> = Vec::new();
        let ghost all = items@;
        while items.len() > 0
            invariant
                items@ == all.take(items@.len() as int),
                rest@.len() + items@.len() == all.len(),
                forall|k: int| 0 <= k < rest@.len() ==> #[trigger] rest@[k] == all[all.len() - 1 - k],
            decreases items@.len(),
        {
            let ghost n = items@.len();
            let it = items.pop().unwrap();
            proof {
                assert(items@ =~= all.take(n - 1));
            }
            rest.push(it);
        }
        let ghost rev = rest@;
        proof {
            assert(item_comments(all.take(0)) =~= Seq::<CommentsInfo>::empty());
        }
        while rest.len() > 0
            invariant
                rest@ == rev.take(rest@.len() as int),
                rev.len() == all.len(),
                forall|k: int| 0 <= k < rev.len() ==> #[trigger] rev[k] == all[all.len() - 1 - k],
                acc@.len() + rest@.len() == all.len() + 1,
                acc@.len() >= 1,
                acc@[0] == first.value,
                forall|k: int| 1 <= k < acc@.len() ==> #[trigger] acc@[k] == all[k - 1].item.value,
                info.span == first.info.span,
                (info.comments.before@, info.comments.after@) == consume_all(
                    first.info.comments.before@,
                    first.info.comments.after@,
                    item_comments(all.take(acc@.len() - 1)),
                ),
            decreases rest@.len(),
        {
            let ghost n = rest@.len();
            let it = rest.pop().unwrap();
            proof {
                assert(it == rev[n - 1]);
                assert(rest@ =~= rev.take(n - 1));
            }
            proof {
                let k = acc@.len() - 1;
                assert(it == all[k]);
                assert(item_comments(all.take(k + 1)).drop_last() =~= item_comments(all.take(k)));
                assert(item_comments(all.take(k + 1)).last() == it.item.info.comments);
            }
            acc.push(it.item.value);
            info.comments.consume_info(it.item.info.comments);
        }
        proof {
            assert(all.take(acc@.len() - 1) =~= all);
        }
        let path = LogicPath::from_identifiers(acc);
        Token { value: path, info }
    }
}


/// Keywords and punctuation carry no value: any two are equivalent.
impl<P: ShowableToken> Equivalence for TokenInfoWithPhantom<P> {
    open spec fn equivalent_spec(&self, other: &Self) -> bool {
        true
    }

    fn equivalent(&self, other: &Self) -> (r: bool) {
        true
    }
}

/// Tokens are equivalent when their values are; comments and places do not
/// count.
impl<T: Equivalence> Equivalence for Token<T> {
    open spec fn equivalent_spec(&self, other: &Self) -> bool {
        self.value.equivalent_spec(&other.value)
    }

    fn equivalent(&self, other: &Self) -> (r: bool) {
        self.value.equivalent(&other.value)
    }
}

impl Equivalence for OperatorName {
    open spec fn equivalent_spec(&self, other: &Self) -> bool {
        *self == *other
    }

    fn equivalent(&self, other: &Self) -> (r: bool) {
        *self == *other
    }
}

impl Equivalence for ImportedVariable {
    open spec fn equivalent_spec(&self, other: &Self) -> bool {
        self.path.equivalent_spec(&other.path) && self.name.equivalent_spec(&other.name)
    }

    fn equivalent(&self, other: &Self) -> (r: bool) {
        self.path.equivalent(&other.path) && self.name.equivalent(&other.name)
    }
}

/// Delimited values are equivalent when the values are.
impl<T: Equivalence, Enclosure: Delimiters> Equivalence for Between<T, Enclosure> {
    open spec fn equivalent_spec(&self, other: &Self) -> bool {
        self.value.equivalent_spec(&other.value)
    }

    fn equivalent(&self, other: &Self) -> (r: bool) {
        self.value.equivalent(&other.value)
    }
}

/// Items of lists are equivalent when the items are; separators do not
/// count.
impl<T: Equivalence, SeparatorPhantom: Separator> Equivalence for TrailingListItem<T, SeparatorPhantom> {
    open spec fn equivalent_spec(&self, other: &Self) -> bool {
        self.item.equivalent_spec(&other.item)
    }

    fn equivalent(&self, other: &Self) -> (r: bool) {
        self.item.equivalent(&other.item)
    }
}

/// Lists are equivalent when their first items and the rest of their items
/// are; a trailing separator does not count.
impl<T: Equivalence, SeparatorPhantom: Separator> Equivalence for TrailingList<T, SeparatorPhantom> {
    open spec fn equivalent_spec(&self, other: &Self) -> bool {
        self.first.equivalent_spec(&other.first) && self.items.equivalent_spec(&other.items)
    }

    fn equivalent(&self, other: &Self) -> (r: bool) {
        self.first.equivalent(&other.first) && self.items.equivalent(&other.items)
    }
}


/// Tokens are equivalent exactly when their values are, whatever their
/// comments and places.
pub proof fn lemma_token_equivalence<T: Equivalence>(a: Token<T>, b: Token<T>)
    ensures
        a.equivalent_spec(&b) <==> a.value.equivalent_spec(&b.value),
{
}

/// Lists are equivalent exactly when their first items are and the rest of
/// their items are, pair by pair; separators do not count.
pub proof fn lemma_list_equivalence<T: Equivalence, S: Separator>(a: TrailingList<T, S>, b: TrailingList<T, S>)
    ensures
        a.equivalent_spec(&b) <==> (a.first.equivalent_spec(&b.first) && a.items@.len() == b.items@.len()
            && forall|i: int|
            0 <= i < a.items@.len() ==> (#[trigger] a.items@[i]).item.equivalent_spec(&b.items@[i].item)),
{
}

} // verus!
