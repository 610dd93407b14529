//! The rules that split a source into lexemes: which text, at a place of the
//! source, makes the next token, and how far it reaches.
//!
//! The rules are tried in a fixed order, and inside a rule the alternatives
//! are tried in a fixed order too; the first that matches wins.
use vstd::prelude::*;
use crate::cst::comments::{brace_hyphens, CommentBraceKind, CommentKind, LineCommentStart};
use crate::cst::literals::{UintKind, UintLiteral};
use crate::cst::types::OwnershipLiteral;
use crate::matching::{is_white_space, is_xid_continue, is_xid_start, white_space, xid_continue, xid_start};
use crate::parser::report::{LexerReportKind, ParseU64Error};
use crate::parser::tokens::BaseToken;

verus! {

// ---------------------------------------------------------------------------
// Chars
// ---------------------------------------------------------------------------

/// The value of a char as a digit of the radix, as `char::to_digit` gives it:
/// `0`-`9`, then the letters, in either case, from ten on.
pub open spec fn digit_value(c: char, radix: u32) -> Option<nat> {
    let v: Option<nat> = if '0' <= c && c <= '9' {
        Some((c as u32 - '0' as u32) as nat)
    } else if 'a' <= c && c <= 'z' {
        Some((c as u32 - 'a' as u32 + 10) as nat)
    } else if 'A' <= c && c <= 'Z' {
        Some((c as u32 - 'A' as u32 + 10) as nat)
    } else {
        None
    };
    match v {
        Some(d) => if d < radix {
            Some(d)
        } else {
            None
        },
        None => None,
    }
}

/// The value of a char as a digit of the radix.
pub fn digit_of(c: char, radix: u32) -> (r: Option<u32>)
    ensures
        r matches Some(d) ==> digit_value(c, radix) == Some(d as nat),
        r is None ==> digit_value(c, radix) is None,
{
    let v: u32 = c as u32;
    let d: u32 = if '0' <= c && c <= '9' {
        v - 48
    } else if 'a' <= c && c <= 'z' {
        v - 97 + 10
    } else if 'A' <= c && c <= 'Z' {
        v - 65 + 10
    } else {
        return None;
    };
    if d < radix {
        Some(d)
    } else {
        None
    }
}

/// The kinds of chars that make runs in the source.
#[derive(Debug, Clone, Copy, PartialEq, Eq, Structural)]
pub enum CharClass {
    /// A plain space, ` `.
    Space,
    /// Any char but a line break.
    NotLineBreak,
    /// An underscore, `_`.
    Underscore,
    /// A digit of the radix, or an underscore.
    DigitOrUnderscore(u32),
    /// A char that can continue an identifier.
    IdentifierContinue,
    /// White space.
    WhiteSpace,
}

/// The char belongs to the class.
pub open spec fn in_class(k: CharClass, c: char) -> bool {
    match k {
        CharClass::Space => c == ' ',
        CharClass::NotLineBreak => c != '\n',
        CharClass::Underscore => c == '_',
        CharClass::DigitOrUnderscore(radix) => c == '_' || digit_value(c, radix) is Some,
        CharClass::IdentifierContinue => xid_continue(c),
        CharClass::WhiteSpace => white_space(c),
    }
}

/// Whether the char belongs to the class.
pub fn char_in_class(k: CharClass, c: char) -> (r: bool)
    ensures
        r == in_class(k, c),
{
    match k {
        CharClass::Space => c == ' ',
        CharClass::NotLineBreak => c != '\n',
        CharClass::Underscore => c == '_',
        CharClass::DigitOrUnderscore(radix) => c == '_' || digit_of(c, radix).is_some(),
        CharClass::IdentifierContinue => is_xid_continue(c),
        CharClass::WhiteSpace => is_white_space(c),
    }
}

/// Where the run of chars of the class that starts at `i` ends: the first
/// place from `i` on whose char is not of the class, or the end.
pub open spec fn class_end(s: Seq<char>, i: int, k: CharClass) -> int
    decreases s.len() - i,
{
    if 0 <= i < s.len() && in_class(k, s[i]) {
        class_end(s, i + 1, k)
    } else {
        i
    }
}

/// A run covers chars of its class only, and stops at one that is not.
pub proof fn lemma_class_end(s: Seq<char>, i: int, k: CharClass)
    requires
        0 <= i <= s.len(),
    ensures
        i <= class_end(s, i, k) <= s.len(),
        forall|j: int| i <= j < class_end(s, i, k) ==> in_class(k, #[trigger] s[j]),
        class_end(s, i, k) < s.len() ==> !in_class(k, s[class_end(s, i, k)]),
    decreases s.len() - i,
{
    if i < s.len() && in_class(k, s[i]) {
        lemma_class_end(s, i + 1, k);
    }
}

/// Where the run of chars of the class that starts at `i` ends.
pub fn class_end_of(c: &Vec<char>, i: usize, k: CharClass) -> (e: usize)
    requires
        i <= c@.len(),
    ensures
        e == class_end(c@, i as int, k),
        i <= e <= c@.len(),
{
    proof {
        lemma_class_end(c@, i as int, k);
    }
    let mut j: usize = i;
    while j < c.len() && char_in_class(k, c[j])
        invariant
            i <= j <= c@.len(),
            class_end(c@, i as int, k) == class_end(c@, j as int, k),
        decreases c@.len() - j,
    {
        j = j + 1;
    }
    j
}

// ---------------------------------------------------------------------------
// Fixed texts
// ---------------------------------------------------------------------------

/// The text `t` stands in `s` from `i` on.
pub open spec fn text_at(s: Seq<char>, i: int, t: Seq<char>) -> bool {
    0 <= i && i + t.len() <= s.len() && s.subrange(i, i + t.len()) == t
}

/// Whether the text `t` stands in the chars `c` from `i` on.
pub fn text_at_exec(c: &Vec<char>, i: usize, t: &str) -> (r: bool)
    ensures
        r == text_at(c@, i as int, t@),
{
    let n = t.unicode_len();
    let len = c.len();
    if i > len || n > len - i {
        return false;
    }
    let mut k: usize = 0;
    while k < n
        invariant
            0 <= k <= n,
            n == t@.len(),
            len == c@.len(),
            i + n <= len,
            forall|j: int| 0 <= j < k ==> c@[i + j] == t@[j],
        decreases n - k,
    {
        if c[i + k] != t.get_char(k) {
            proof {
                assert(c@.subrange(i as int, i + n)[k as int] != t@[k as int]);
            }
            return false;
        }
        k = k + 1;
    }
    proof {
        assert(c@.subrange(i as int, i + n) =~= t@);
    }
    true
}

// ---------------------------------------------------------------------------
// Numbers
// ---------------------------------------------------------------------------

/// Reads the digits of `t` from `k` on, in the radix, having read the value
/// `acc` before them: a char that is not a digit is an error, and so is a
/// value above `u64::MAX`, whichever comes first from the left.
pub open spec fn parse_digits_from(t: Seq<char>, radix: u32, k: int, acc: nat) -> Result<
    nat,
    ParseU64Error,
>
    decreases t.len() - k,
{
    if k < 0 || k >= t.len() {
        Ok(acc)
    } else {
        match digit_value(t[k], radix) {
            None => Err(ParseU64Error::InvalidDigit),
            Some(d) => if acc * radix + d > u64::MAX {
                Err(ParseU64Error::PosOverflow)
            } else {
                parse_digits_from(t, radix, k + 1, (acc * radix + d) as nat)
            },
        }
    }
}

/// The value of a text of digits in the radix. For a text that starts with
/// a digit this is what `u64::from_str_radix` gives.
pub open spec fn parse_u64(t: Seq<char>, radix: u32) -> Result<nat, ParseU64Error> {
    if t.len() == 0 {
        Err(ParseU64Error::Empty)
    } else {
        parse_digits_from(t, radix, 0, 0)
    }
}

// ---------------------------------------------------------------------------
// Lexemes
// ---------------------------------------------------------------------------

/// What a piece of the source stands for, before the store is involved.
pub enum Lexeme {
    /// A token that the text alone decides.
    Fixed(BaseToken),
    /// A piece that makes no token: the lexer reports it.
    Refused(LexerReportKind),
    /// An identifier, with its text.
    Name(Seq<char>),
    /// An identifier between backticks, with the text between them.
    InfixName(Seq<char>),
    /// An ownership variable, with the text after the quote.
    OwnershipName(Seq<char>),
    /// A line comment, with its text after the start and the optional `|`.
    Line(CommentKind, LineCommentStart, Seq<char>),
    /// A block comment, with its text between the braces.
    Block(CommentKind, CommentBraceKind, Seq<char>),
}

/// The opening of a comment.
#[derive(Debug, Clone, Copy, PartialEq, Eq, Structural)]
pub enum Opener {
    Line(LineCommentStart),
    Block(CommentBraceKind),
}

/// The comment opening at `i`, longest first among the blocks.
pub open spec fn opener_at(s: Seq<char>, i: int) -> Option<Opener> {
    if text_at(s, i, "//"@) {
        Some(Opener::Line(LineCommentStart::DoubleSlash))
    } else if text_at(s, i, "--"@) {
        Some(Opener::Line(LineCommentStart::DoubleHyphen))
    } else if text_at(s, i, "{----"@) {
        Some(Opener::Block(CommentBraceKind::Brace3))
    } else if text_at(s, i, "{---"@) {
        Some(Opener::Block(CommentBraceKind::Brace2))
    } else if text_at(s, i, "{--"@) {
        Some(Opener::Block(CommentBraceKind::Brace1))
    } else if text_at(s, i, "{-"@) {
        Some(Opener::Block(CommentBraceKind::Brace0))
    } else {
        None
    }
}

/// Where the text of a comment starts when its opening ends at `p`, and its
/// kind: the spaces after the opening are skipped, and a `|` after them
/// makes it documentation.
pub open spec fn comment_text_start(s: Seq<char>, p: int) -> (int, CommentKind) {
    let q = class_end(s, p, CharClass::Space);
    if text_at(s, q, "|"@) {
        (q + 1, CommentKind::Documentation)
    } else {
        (q, CommentKind::NonDocumentation)
    }
}

/// The line comment that opens at `i`: its text runs to the end of the line,
/// and the line break, if any, belongs to the comment.
pub open spec fn line_comment(s: Seq<char>, i: int, start: LineCommentStart) -> (Lexeme, int) {
    let (p, kind) = comment_text_start(s, i + 2);
    let e = class_end(s, p, CharClass::NotLineBreak);
    (Lexeme::Line(kind, start, s.subrange(p, e)), if e < s.len() {
        e + 1
    } else {
        e
    })
}

/// The number of hyphens from `p` on, up to `h`.
pub open spec fn dashes(s: Seq<char>, p: int, h: nat) -> nat
    decreases h,
{
    if h == 0 || !text_at(s, p, "-"@) {
        0
    } else {
        1 + dashes(s, p + 1, (h - 1) as nat)
    }
}

/// Where the closing `-}` (with `h` hyphens) of a block comment stands, when
/// its text starts at `p`. The text is read in pieces: fewer than `h`
/// hyphens and another char, or `h` hyphens and a char other than `}`.
pub open spec fn block_close(s: Seq<char>, p: int, h: nat) -> Option<int>
    decreases s.len() - p,
{
    if p < 0 || p >= s.len() {
        None
    } else {
        let d = dashes(s, p, h);
        if d == h {
            if p + h < s.len() {
                if s[p + h] == '}' {
                    Some(p)
                } else {
                    block_close(s, p + h + 1, h)
                }
            } else {
                None
            }
        } else if p + d < s.len() {
            block_close(s, p + d + 1, h)
        } else {
            None
        }
    }
}

/// The block comment that opens at `i`; without its closing, the opening
/// alone is refused.
pub open spec fn block_comment(s: Seq<char>, i: int, brace: CommentBraceKind) -> (Lexeme, int) {
    let h = brace_hyphens(brace);
    let (p, kind) = comment_text_start(s, i + 1 + h);
    match block_close(s, p, h) {
        Some(q) => (Lexeme::Block(kind, brace, s.subrange(p, q)), q + h + 1),
        None => (Lexeme::Refused(LexerReportKind::CouldntMatchBlockComment(brace)), i + 1 + h),
    }
}

/// A fixed token of `n` chars.
pub open spec fn fixed(n: int, t: BaseToken) -> Option<(int, Lexeme)> {
    Some((n, Lexeme::Fixed(t)))
}

/// A punctuation of `n` chars that makes no token.
pub open spec fn unknown_punctuation(n: int) -> Option<(int, Lexeme)> {
    Some((n, Lexeme::Refused(LexerReportKind::UnexpectedPunctuationMatch)))
}

/// The punctuation or operator at `i` and its length, the alternatives in
/// their order (a longer one before its prefixes).
pub open spec fn punctuation_at(s: Seq<char>, i: int) -> Option<(int, Lexeme)> {
    if text_at(s, i, "\\"@) {
        fixed(1, BaseToken::LambdaStart)
    } else if text_at(s, i, "/"@) {
        fixed(1, BaseToken::Div)
    } else if text_at(s, i, "#"@) {
        fixed(1, BaseToken::Hash)
    } else if text_at(s, i, ","@) {
        fixed(1, BaseToken::Comma)
    } else if text_at(s, i, ";"@) {
        fixed(1, BaseToken::StatementEnd)
    } else if text_at(s, i, "?"@) {
        unknown_punctuation(1)
    } else if text_at(s, i, "+"@) {
        fixed(1, BaseToken::Plus)
    } else if text_at(s, i, "^"@) {
        fixed(1, BaseToken::Power)
    } else if text_at(s, i, "%"@) {
        fixed(1, BaseToken::Module)
    } else if text_at(s, i, "."@) {
        fixed(1, BaseToken::Dot)
    } else if text_at(s, i, "::"@) {
        fixed(2, BaseToken::LogicPathSeparator)
    } else if text_at(s, i, ":"@) {
        fixed(1, BaseToken::Colon)
    } else if text_at(s, i, "->"@) {
        fixed(2, BaseToken::RightArrow)
    } else if text_at(s, i, "-"@) {
        fixed(1, BaseToken::Minus)
    } else if text_at(s, i, "||"@) {
        unknown_punctuation(2)
    } else if text_at(s, i, "|>"@) {
        unknown_punctuation(2)
    } else if text_at(s, i, "|"@) {
        fixed(1, BaseToken::Pipe)
    } else if text_at(s, i, "<?>"@) {
        fixed(3, BaseToken::Annotate)
    } else if text_at(s, i, "<&>"@) {
        fixed(3, BaseToken::FlippedMap)
    } else if text_at(s, i, "<<"@) {
        fixed(2, BaseToken::ShiftLeft)
    } else if text_at(s, i, "<*>"@) {
        fixed(3, BaseToken::Appliative)
    } else if text_at(s, i, "<*"@) {
        fixed(2, BaseToken::ApplicativeLeft)
    } else if text_at(s, i, "<$>"@) {
        fixed(3, BaseToken::MapOperator)
    } else if text_at(s, i, "<$"@) {
        fixed(2, BaseToken::MapConstLeft)
    } else if text_at(s, i, "<-"@) {
        fixed(2, BaseToken::LeftArrow)
    } else if text_at(s, i, "<="@) {
        fixed(2, BaseToken::LessOrEqual)
    } else if text_at(s, i, "<|>"@) {
        fixed(3, BaseToken::Alternative)
    } else if text_at(s, i, "<|"@) {
        fixed(2, BaseToken::CompositionRight)
    } else if text_at(s, i, "<"@) {
        unknown_punctuation(1)
    } else if text_at(s, i, "*>"@) {
        fixed(2, BaseToken::ApplicativeRight)
    } else if text_at(s, i, "*"@) {
        fixed(1, BaseToken::Star)
    } else if text_at(s, i, "=="@) {
        fixed(2, BaseToken::Equality)
    } else if text_at(s, i, "="@) {
        fixed(1, BaseToken::Asignation)
    } else if text_at(s, i, "!="@) {
        fixed(2, BaseToken::NotEqual)
    } else if text_at(s, i, "!"@) {
        fixed(1, BaseToken::Exclamation)
    } else if text_at(s, i, ">="@) {
        fixed(2, BaseToken::MoreOrEqual)
    } else if text_at(s, i, ">>"@) {
        fixed(2, BaseToken::ShiftRight)
    } else if text_at(s, i, ">"@) {
        fixed(1, BaseToken::MoreThan)
    } else if text_at(s, i, "&&"@) {
        fixed(2, BaseToken::And)
    } else if text_at(s, i, "&"@) {
        fixed(1, BaseToken::ReverseApplication)
    } else if text_at(s, i, "$>"@) {
        fixed(2, BaseToken::MapConstRight)
    } else if text_at(s, i, "$"@) {
        fixed(1, BaseToken::DollarApplication)
    } else if text_at(s, i, "@"@) {
        fixed(1, BaseToken::At)
    } else {
        None
    }
}

/// The bracket at `i`, opening or closing.
pub open spec fn bracket_at(s: Seq<char>, i: int) -> Option<BaseToken> {
    if text_at(s, i, "("@) {
        Some(BaseToken::LParen)
    } else if text_at(s, i, "["@) {
        Some(BaseToken::LBracket)
    } else if text_at(s, i, "{"@) {
        Some(BaseToken::LBrace)
    } else if text_at(s, i, ")"@) {
        Some(BaseToken::RParen)
    } else if text_at(s, i, "]"@) {
        Some(BaseToken::RBracket)
    } else if text_at(s, i, "}"@) {
        Some(BaseToken::RBrace)
    } else {
        None
    }
}

/// The length of the start of a string literal at `i`.
pub open spec fn string_start_at(s: Seq<char>, i: int) -> Option<int> {
    if text_at(s, i, "f#\""@) {
        Some(3)
    } else if text_at(s, i, "r####\""@) {
        Some(6)
    } else if text_at(s, i, "r###\""@) {
        Some(5)
    } else if text_at(s, i, "r##\""@) {
        Some(4)
    } else if text_at(s, i, "r#\""@) {
        Some(3)
    } else if text_at(s, i, "\""@) {
        Some(1)
    } else {
        None
    }
}

/// The char at `i` is a digit of the radix.
pub open spec fn digit_at(s: Seq<char>, i: int, radix: u32) -> bool {
    0 <= i < s.len() && digit_value(s[i], radix) is Some
}

/// Where a named hole, `_` and decimal digits, that starts at `i` ends.
pub open spec fn named_hole_end(s: Seq<char>, i: int) -> Option<int> {
    if text_at(s, i, "_"@) && digit_at(s, i + 1, 10) {
        Some(class_end(s, i + 2, CharClass::DigitOrUnderscore(10)))
    } else {
        None
    }
}

/// Where an identifier that starts at `i` ends: underscores, a char that can
/// start an identifier, then chars that can continue one.
pub open spec fn identifier_end(s: Seq<char>, i: int) -> Option<int> {
    let u = class_end(s, i, CharClass::Underscore);
    if 0 <= u < s.len() && xid_start(s[u]) {
        Some(class_end(s, u + 1, CharClass::IdentifierContinue))
    } else {
        None
    }
}

/// The keyword that a word is, if it is one.
pub open spec fn keyword(t: Seq<char>) -> Option<BaseToken> {
    if t == "let"@ {
        Some(BaseToken::Let)
    } else if t == "in"@ {
        Some(BaseToken::In)
    } else if t == "case"@ {
        Some(BaseToken::Case)
    } else if t == "of"@ {
        Some(BaseToken::Of)
    } else if t == "import"@ {
        Some(BaseToken::Import)
    } else if t == "data"@ {
        Some(BaseToken::Data)
    } else if t == "newtype"@ {
        Some(BaseToken::Newtype)
    } else if t == "class"@ {
        Some(BaseToken::Class)
    } else if t == "instance"@ {
        Some(BaseToken::Instance)
    } else if t == "public"@ {
        Some(BaseToken::Public)
    } else if t == "alias"@ {
        Some(BaseToken::Alias)
    } else if t == "as"@ {
        Some(BaseToken::As)
    } else if t == "unqualified"@ {
        Some(BaseToken::Unqualified)
    } else if t == "forall"@ {
        Some(BaseToken::Forall)
    } else if t == "type"@ {
        Some(BaseToken::Type)
    } else {
        None
    }
}

/// A word: a keyword, or else an identifier.
pub open spec fn word_lexeme(t: Seq<char>) -> Lexeme {
    match keyword(t) {
        Some(k) => Lexeme::Fixed(k),
        None => Lexeme::Name(t),
    }
}

/// Where an identifier between backticks that starts at `i` ends, after
/// the closing backtick.
pub open spec fn infix_end(s: Seq<char>, i: int) -> Option<int> {
    if text_at(s, i, "`"@) {
        match identifier_end(s, i + 1) {
            Some(e) => if text_at(s, e, "`"@) {
                Some(e + 1)
            } else {
                None
            },
            None => None,
        }
    } else {
        None
    }
}

/// The ownership literal at `i` and its length.
pub open spec fn ownership_literal_at(s: Seq<char>, i: int) -> Option<(int, OwnershipLiteral)> {
    if text_at(s, i, "'0"@) {
        Some((2, OwnershipLiteral::Zero))
    } else if text_at(s, i, "'1"@) {
        Some((2, OwnershipLiteral::One))
    } else if text_at(s, i, "'inf"@) {
        Some((4, OwnershipLiteral::Inf))
    } else {
        None
    }
}

/// Where an ownership variable, a quote and an identifier, that starts at
/// `i` ends.
pub open spec fn ownership_variable_end(s: Seq<char>, i: int) -> Option<int> {
    if text_at(s, i, "'"@) {
        identifier_end(s, i + 1)
    } else {
        None
    }
}

/// Where a literal with the two chars `prefix` and digits of the radix that
/// starts at `i` ends.
pub open spec fn prefixed_end(s: Seq<char>, i: int, prefix: Seq<char>, radix: u32) -> Option<int> {
    if text_at(s, i, prefix) && digit_at(s, i + 2, radix) {
        Some(class_end(s, i + 3, CharClass::DigitOrUnderscore(radix)))
    } else {
        None
    }
}

/// The lexeme of an unsigned integer literal with the digits `t`.
pub open spec fn uint_lexeme(t: Seq<char>, radix: u32, kind: UintKind) -> Lexeme {
    match parse_u64(t, radix) {
        Ok(v) => Lexeme::Fixed(BaseToken::UintLiteral(UintLiteral { kind, value: v as u64 })),
        Err(e) => Lexeme::Refused(LexerReportKind::CantParseU64(e)),
    }
}

/// Where a decimal number that starts at `i` ends, and whether it has a
/// decimal part: digits, then optionally a dot and digits, and then
/// optionally an exponent.
pub open spec fn numeric_end(s: Seq<char>, i: int) -> Option<(int, bool)> {
    if digit_at(s, i, 10) {
        let a = class_end(s, i + 1, CharClass::DigitOrUnderscore(10));
        if text_at(s, a, "."@) && digit_at(s, a + 1, 10) {
            let b = class_end(s, a + 2, CharClass::DigitOrUnderscore(10));
            if text_at(s, b, "e"@) || text_at(s, b, "E"@) {
                let d = if text_at(s, b + 1, "+"@) || text_at(s, b + 1, "-"@) {
                    b + 2
                } else {
                    b + 1
                };
                if digit_at(s, d, 10) {
                    Some((class_end(s, d + 1, CharClass::DigitOrUnderscore(10)), true))
                } else {
                    Some((b, true))
                }
            } else {
                Some((b, true))
            }
        } else {
            Some((a, false))
        }
    } else {
        None
    }
}

/// The lexeme that starts at `i`, with where it ends; `None` when no rule
/// matches there. The rules are tried in this order: comments, punctuation,
/// brackets, string starts, named holes, identifiers (and keywords),
/// identifiers between backticks, the anonymous hole, ownership literals and
/// variables, octal, hexadecimal and binary literals, and decimal numbers.
pub open spec fn lexeme_at(s: Seq<char>, i: int) -> Option<(Lexeme, int)> {
    match opener_at(s, i) {
        Some(Opener::Line(start)) => Some(line_comment(s, i, start)),
        Some(Opener::Block(brace)) => Some(block_comment(s, i, brace)),
        None => match punctuation_at(s, i) {
            Some((n, lx)) => Some((lx, i + n)),
            None => match bracket_at(s, i) {
                Some(t) => Some((Lexeme::Fixed(t), i + 1)),
                None => match string_start_at(s, i) {
                    Some(n) => Some((Lexeme::Refused(LexerReportKind::StringLiteralNotSupported), i + n)),
                    None => lexeme_of_word_or_number(s, i),
                },
            },
        },
    }
}

/// The lexeme at `i` among the rules from the named holes on.
pub open spec fn lexeme_of_word_or_number(s: Seq<char>, i: int) -> Option<(Lexeme, int)> {
    match named_hole_end(s, i) {
        Some(e) => Some((match parse_u64(s.subrange(i + 1, e), 10) {
            Ok(v) => Lexeme::Fixed(BaseToken::NamedHole(v as u64)),
            Err(_) => Lexeme::Refused(LexerReportKind::Notu64NamedHole),
        }, e)),
        None => match identifier_end(s, i) {
            Some(e) => Some((word_lexeme(s.subrange(i, e)), e)),
            None => match infix_end(s, i) {
                Some(e) => Some((Lexeme::InfixName(s.subrange(i + 1, e - 1)), e)),
                None => if text_at(s, i, "_"@) {
                    Some((Lexeme::Fixed(BaseToken::AnonHole), i + 1))
                } else {
                    lexeme_of_ownership_or_number(s, i)
                },
            },
        },
    }
}

/// The lexeme at `i` among the rules from the ownership literals on.
pub open spec fn lexeme_of_ownership_or_number(s: Seq<char>, i: int) -> Option<(Lexeme, int)> {
    match ownership_literal_at(s, i) {
        Some((n, o)) => Some((Lexeme::Fixed(BaseToken::OwnershipLiteral(o)), i + n)),
        None => match ownership_variable_end(s, i) {
            Some(e) => Some((Lexeme::OwnershipName(s.subrange(i + 1, e)), e)),
            None => match prefixed_end(s, i, "0o"@, 8) {
                Some(e) => Some((uint_lexeme(s.subrange(i + 2, e), 8, UintKind::Octal), e)),
                None => match prefixed_end(s, i, "0x"@, 16) {
                    Some(e) => Some((uint_lexeme(s.subrange(i + 2, e), 16, UintKind::Hex), e)),
                    None => match prefixed_end(s, i, "0b"@, 2) {
                        Some(e) => Some((uint_lexeme(s.subrange(i + 2, e), 2, UintKind::Binary), e)),
                        None => match numeric_end(s, i) {
                            Some((e, true)) => Some((Lexeme::Refused(LexerReportKind::FloatLiteralNotSupported), e)),
                            Some((e, false)) => Some((uint_lexeme(s.subrange(i, e), 10, UintKind::Unspecified), e)),
                            None => None,
                        },
                    },
                },
            },
        },
    }
}

// ---------------------------------------------------------------------------
// Finding the lexemes
// ---------------------------------------------------------------------------

/// A lexeme found in a source, with its texts given as places in the source.
#[derive(Debug, Clone)]
pub enum Found {
    Token(BaseToken),
    Refused(LexerReportKind),
    /// The start and end of the text of the identifier.
    Name(usize, usize),
    InfixName(usize, usize),
    OwnershipName(usize, usize),
    /// The kind, the start, and the start and end of the text of the comment.
    Line(CommentKind, LineCommentStart, usize, usize),
    Block(CommentKind, CommentBraceKind, usize, usize),
}

/// The lexeme that a found lexeme stands for in the source.
pub open spec fn found_lexeme(s: Seq<char>, f: Found) -> Lexeme {
    match f {
        Found::Token(t) => Lexeme::Fixed(t),
        Found::Refused(k) => Lexeme::Refused(k),
        Found::Name(a, b) => Lexeme::Name(s.subrange(a as int, b as int)),
        Found::InfixName(a, b) => Lexeme::InfixName(s.subrange(a as int, b as int)),
        Found::OwnershipName(a, b) => Lexeme::OwnershipName(s.subrange(a as int, b as int)),
        Found::Line(kind, start, a, b) => Lexeme::Line(kind, start, s.subrange(a as int, b as int)),
        Found::Block(kind, brace, a, b) => Lexeme::Block(kind, brace, s.subrange(a as int, b as int)),
    }
}

/// The places that a found lexeme gives lie in the source.
pub open spec fn found_in(s: Seq<char>, f: Found) -> bool {
    match f {
        Found::Name(a, b) => a <= b <= s.len(),
        Found::InfixName(a, b) => a <= b <= s.len(),
        Found::OwnershipName(a, b) => a <= b <= s.len(),
        Found::Line(_, _, a, b) => a <= b <= s.len(),
        Found::Block(_, _, a, b) => a <= b <= s.len(),
        _ => true,
    }
}

/// The comment opening at `i`.
pub fn opener_of(c: &Vec<char>, i: usize) -> (r: Option<Opener>)
    ensures
        r == opener_at(c@, i as int),
{
    if text_at_exec(c, i, "//") {
        Some(Opener::Line(LineCommentStart::DoubleSlash))
    } else if text_at_exec(c, i, "--") {
        Some(Opener::Line(LineCommentStart::DoubleHyphen))
    } else if text_at_exec(c, i, "{----") {
        Some(Opener::Block(CommentBraceKind::Brace3))
    } else if text_at_exec(c, i, "{---") {
        Some(Opener::Block(CommentBraceKind::Brace2))
    } else if text_at_exec(c, i, "{--") {
        Some(Opener::Block(CommentBraceKind::Brace1))
    } else if text_at_exec(c, i, "{-") {
        Some(Opener::Block(CommentBraceKind::Brace0))
    } else {
        None
    }
}

/// Where the text of a comment whose opening ends at `p` starts, and its kind.
pub fn comment_text_start_of(c: &Vec<char>, p: usize) -> (r: (usize, CommentKind))
    requires
        p <= c@.len(),
    ensures
        (r.0 as int, r.1) == comment_text_start(c@, p as int),
        p <= r.0 <= c@.len(),
{
    proof {
        reveal_strlit("|");
    }
    let q = class_end_of(c, p, CharClass::Space);
    if q < c.len() && text_at_exec(c, q, "|") {
        (q + 1, CommentKind::Documentation)
    } else {
        (q, CommentKind::NonDocumentation)
    }
}

/// The line comment that opens at `i`.
pub fn line_comment_of(c: &Vec<char>, i: usize, start: LineCommentStart) -> (r: (Found, usize))
    requires
        i + 2 <= c@.len(),
    ensures
        (found_lexeme(c@, r.0), r.1 as int) == line_comment(c@, i as int, start),
        found_in(c@, r.0),
        i < r.1 <= c@.len(),
{
    let len = c.len();
    let (p, kind) = comment_text_start_of(c, i + 2);
    let e = class_end_of(c, p, CharClass::NotLineBreak);
    let end = if e < len {
        e + 1
    } else {
        e
    };
    (Found::Line(kind, start, p, e), end)
}

/// The number of hyphens from `p` on, up to `h`.
pub fn dashes_of(c: &Vec<char>, p: usize, h: usize) -> (d: usize)
    requires
        p <= c@.len(),
    ensures
        d == dashes(c@, p as int, h as nat),
        d <= h,
        p + d <= c@.len(),
    decreases h,
{
    proof {
        reveal_strlit("-");
    }
    if h == 0 || p >= c.len() || !text_at_exec(c, p, "-") {
        0
    } else {
        1 + dashes_of(c, p + 1, h - 1)
    }
}

/// Where the closing of a block comment whose text starts at `p` stands.
pub fn block_close_of(c: &Vec<char>, p: usize, h: usize) -> (r: Option<usize>)
    requires
        p <= c@.len(),
        1 <= h <= 4,
    ensures
        r matches Some(q) ==> block_close(c@, p as int, h as nat) == Some(q as int) && p <= q
            && q + h < c@.len(),
        r is None ==> block_close(c@, p as int, h as nat) is None,
    decreases c@.len() - p,
{
    let len = c.len();
    if p >= len {
        return None;
    }
    let d = dashes_of(c, p, h);
    if d == h {
        if p + h < len {
            if c[p + h] == '}' {
                Some(p)
            } else {
                block_close_of(c, p + h + 1, h)
            }
        } else {
            None
        }
    } else if p + d < len {
        block_close_of(c, p + d + 1, h)
    } else {
        None
    }
}

/// The number of hyphens of a kind of block.
fn hyphens_of(brace: CommentBraceKind) -> (h: usize)
    ensures
        h == brace_hyphens(brace),
{
    match brace {
        CommentBraceKind::Brace0 => 1,
        CommentBraceKind::Brace1 => 2,
        CommentBraceKind::Brace2 => 3,
        CommentBraceKind::Brace3 => 4,
    }
}

/// The block comment that opens at `i`.
pub fn block_comment_of(c: &Vec<char>, i: usize, brace: CommentBraceKind) -> (r: (Found, usize))
    requires
        i + 1 + brace_hyphens(brace) <= c@.len(),
    ensures
        (found_lexeme(c@, r.0), r.1 as int) == block_comment(c@, i as int, brace),
        found_in(c@, r.0),
        i < r.1 <= c@.len(),
{
    let len = c.len();
    let h = hyphens_of(brace);
    let (p, kind) = comment_text_start_of(c, i + 1 + h);
    match block_close_of(c, p, h) {
        Some(q) => (Found::Block(kind, brace, p, q), q + h + 1),
        None => (Found::Refused(LexerReportKind::CouldntMatchBlockComment(brace)), i + 1 + h),
    }
}

/// The punctuation or operator at `i`, with its length.
pub fn punctuation_of(c: &Vec<char>, i: usize) -> (r: Option<(usize, Found)>)
    ensures
        r matches Some((n, f)) ==> punctuation_at(c@, i as int) == Some((n as int, found_lexeme(c@, f)))
            && 1 <= n && i + n <= c@.len() && found_in(c@, f),
        r is None ==> punctuation_at(c@, i as int) is None,
{
    proof {
        reveal_strlit("\\");
        reveal_strlit("/");
        reveal_strlit("#");
        reveal_strlit(",");
        reveal_strlit(";");
        reveal_strlit("?");
        reveal_strlit("+");
        reveal_strlit("^");
        reveal_strlit("%");
        reveal_strlit(".");
        reveal_strlit("::");
        reveal_strlit(":");
        reveal_strlit("->");
        reveal_strlit("-");
        reveal_strlit("||");
        reveal_strlit("|>");
        reveal_strlit("|");
        reveal_strlit("<?>");
        reveal_strlit("<&>");
        reveal_strlit("<<");
        reveal_strlit("<*>");
        reveal_strlit("<*");
        reveal_strlit("<$>");
        reveal_strlit("<$");
        reveal_strlit("<-");
        reveal_strlit("<=");
        reveal_strlit("<|>");
        reveal_strlit("<|");
        reveal_strlit("<");
        reveal_strlit("*>");
        reveal_strlit("*");
        reveal_strlit("==");
        reveal_strlit("=");
        reveal_strlit("!=");
        reveal_strlit("!");
        reveal_strlit(">=");
        reveal_strlit(">>");
        reveal_strlit(">");
        reveal_strlit("&&");
        reveal_strlit("&");
        reveal_strlit("$>");
        reveal_strlit("$");
        reveal_strlit("@");
    }
    if text_at_exec(c, i, "\\") {
        Some((1, Found::Token(BaseToken::LambdaStart)))
    } else if text_at_exec(c, i, "/") {
        Some((1, Found::Token(BaseToken::Div)))
    } else if text_at_exec(c, i, "#") {
        Some((1, Found::Token(BaseToken::Hash)))
    } else if text_at_exec(c, i, ",") {
        Some((1, Found::Token(BaseToken::Comma)))
    } else if text_at_exec(c, i, ";") {
        Some((1, Found::Token(BaseToken::StatementEnd)))
    } else if text_at_exec(c, i, "?") {
        Some((1, Found::Refused(LexerReportKind::UnexpectedPunctuationMatch)))
    } else if text_at_exec(c, i, "+") {
        Some((1, Found::Token(BaseToken::Plus)))
    } else if text_at_exec(c, i, "^") {
        Some((1, Found::Token(BaseToken::Power)))
    } else if text_at_exec(c, i, "%") {
        Some((1, Found::Token(BaseToken::Module)))
    } else if text_at_exec(c, i, ".") {
        Some((1, Found::Token(BaseToken::Dot)))
    } else if text_at_exec(c, i, "::") {
        Some((2, Found::Token(BaseToken::LogicPathSeparator)))
    } else if text_at_exec(c, i, ":") {
        Some((1, Found::Token(BaseToken::Colon)))
    } else if text_at_exec(c, i, "->") {
        Some((2, Found::Token(BaseToken::RightArrow)))
    } else if text_at_exec(c, i, "-") {
        Some((1, Found::Token(BaseToken::Minus)))
    } else if text_at_exec(c, i, "||") {
        Some((2, Found::Refused(LexerReportKind::UnexpectedPunctuationMatch)))
    } else if text_at_exec(c, i, "|>") {
        Some((2, Found::Refused(LexerReportKind::UnexpectedPunctuationMatch)))
    } else if text_at_exec(c, i, "|") {
        Some((1, Found::Token(BaseToken::Pipe)))
    } else if text_at_exec(c, i, "<?>") {
        Some((3, Found::Token(BaseToken::Annotate)))
    } else if text_at_exec(c, i, "<&>") {
        Some((3, Found::Token(BaseToken::FlippedMap)))
    } else if text_at_exec(c, i, "<<") {
        Some((2, Found::Token(BaseToken::ShiftLeft)))
    } else if text_at_exec(c, i, "<*>") {
        Some((3, Found::Token(BaseToken::Appliative)))
    } else if text_at_exec(c, i, "<*") {
        Some((2, Found::Token(BaseToken::ApplicativeLeft)))
    } else if text_at_exec(c, i, "<$>") {
        Some((3, Found::Token(BaseToken::MapOperator)))
    } else if text_at_exec(c, i, "<$") {
        Some((2, Found::Token(BaseToken::MapConstLeft)))
    } else if text_at_exec(c, i, "<-") {
        Some((2, Found::Token(BaseToken::LeftArrow)))
    } else if text_at_exec(c, i, "<=") {
        Some((2, Found::Token(BaseToken::LessOrEqual)))
    } else if text_at_exec(c, i, "<|>") {
        Some((3, Found::Token(BaseToken::Alternative)))
    } else if text_at_exec(c, i, "<|") {
        Some((2, Found::Token(BaseToken::CompositionRight)))
    } else if text_at_exec(c, i, "<") {
        Some((1, Found::Refused(LexerReportKind::UnexpectedPunctuationMatch)))
    } else if text_at_exec(c, i, "*>") {
        Some((2, Found::Token(BaseToken::ApplicativeRight)))
    } else if text_at_exec(c, i, "*") {
        Some((1, Found::Token(BaseToken::Star)))
    } else if text_at_exec(c, i, "==") {
        Some((2, Found::Token(BaseToken::Equality)))
    } else if text_at_exec(c, i, "=") {
        Some((1, Found::Token(BaseToken::Asignation)))
    } else if text_at_exec(c, i, "!=") {
        Some((2, Found::Token(BaseToken::NotEqual)))
    } else if text_at_exec(c, i, "!") {
        Some((1, Found::Token(BaseToken::Exclamation)))
    } else if text_at_exec(c, i, ">=") {
        Some((2, Found::Token(BaseToken::MoreOrEqual)))
    } else if text_at_exec(c, i, ">>") {
        Some((2, Found::Token(BaseToken::ShiftRight)))
    } else if text_at_exec(c, i, ">") {
        Some((1, Found::Token(BaseToken::MoreThan)))
    } else if text_at_exec(c, i, "&&") {
        Some((2, Found::Token(BaseToken::And)))
    } else if text_at_exec(c, i, "&") {
        Some((1, Found::Token(BaseToken::ReverseApplication)))
    } else if text_at_exec(c, i, "$>") {
        Some((2, Found::Token(BaseToken::MapConstRight)))
    } else if text_at_exec(c, i, "$") {
        Some((1, Found::Token(BaseToken::DollarApplication)))
    } else if text_at_exec(c, i, "@") {
        Some((1, Found::Token(BaseToken::At)))
    } else {
        None
    }
}

/// The bracket at `i`.
pub fn bracket_of(c: &Vec<char>, i: usize) -> (r: Option<BaseToken>)
    ensures
        r == bracket_at(c@, i as int),
        r is Some ==> i + 1 <= c@.len(),
{
    proof {
        reveal_strlit("(");
        reveal_strlit("[");
        reveal_strlit("{");
        reveal_strlit(")");
        reveal_strlit("]");
        reveal_strlit("}");
    }
    if text_at_exec(c, i, "(") {
        Some(BaseToken::LParen)
    } else if text_at_exec(c, i, "[") {
        Some(BaseToken::LBracket)
    } else if text_at_exec(c, i, "{") {
        Some(BaseToken::LBrace)
    } else if text_at_exec(c, i, ")") {
        Some(BaseToken::RParen)
    } else if text_at_exec(c, i, "]") {
        Some(BaseToken::RBracket)
    } else if text_at_exec(c, i, "}") {
        Some(BaseToken::RBrace)
    } else {
        None
    }
}

/// The length of the start of a string literal at `i`.
pub fn string_start_of(c: &Vec<char>, i: usize) -> (r: Option<usize>)
    ensures
        r matches Some(n) ==> string_start_at(c@, i as int) == Some(n as int) && 1 <= n && i + n
            <= c@.len(),
        r is None ==> string_start_at(c@, i as int) is None,
{
    proof {
        reveal_strlit("f#\"");
        reveal_strlit("r####\"");
        reveal_strlit("r###\"");
        reveal_strlit("r##\"");
        reveal_strlit("r#\"");
        reveal_strlit("\"");
    }
    if text_at_exec(c, i, "f#\"") {
        Some(3)
    } else if text_at_exec(c, i, "r####\"") {
        Some(6)
    } else if text_at_exec(c, i, "r###\"") {
        Some(5)
    } else if text_at_exec(c, i, "r##\"") {
        Some(4)
    } else if text_at_exec(c, i, "r#\"") {
        Some(3)
    } else if text_at_exec(c, i, "\"") {
        Some(1)
    } else {
        None
    }
}

/// Whether the char at `i` is a digit of the radix.
pub fn digit_at_exec(c: &Vec<char>, i: usize, radix: u32) -> (r: bool)
    ensures
        r == digit_at(c@, i as int, radix),
{
    i < c.len() && digit_of(c[i], radix).is_some()
}

/// The value of the digits from `a` to `b`, in the radix.
pub fn parse_u64_of(c: &Vec<char>, a: usize, b: usize, radix: u32) -> (r: Result<u64, ParseU64Error>)
    requires
        a <= b <= c@.len(),
    ensures
        r matches Ok(v) ==> parse_u64(c@.subrange(a as int, b as int), radix) == Ok::<nat, ParseU64Error>(v as nat),
        r matches Err(e) ==> parse_u64(c@.subrange(a as int, b as int), radix) == Err::<nat, ParseU64Error>(e),
{
    let ghost t = c@.subrange(a as int, b as int);
    if a == b {
        return Err(ParseU64Error::Empty);
    }
    let mut acc: u64 = 0;
    let mut k: usize = a;
    while k < b
        invariant
            a <= k <= b <= c@.len(),
            t == c@.subrange(a as int, b as int),
            t.len() > 0,
            parse_u64(t, radix) == parse_digits_from(t, radix, k - a, acc as nat),
        decreases b - k,
    {
        assert(t[k - a] == c@[k as int]);
        match digit_of(c[k], radix) {
            None => {
                return Err(ParseU64Error::InvalidDigit);
            },
            Some(d) => {
                match acc.checked_mul(radix as u64) {
                    None => {
                        return Err(ParseU64Error::PosOverflow);
                    },
                    Some(m) => {
                        match m.checked_add(d as u64) {
                            None => {
                                return Err(ParseU64Error::PosOverflow);
                            },
                            Some(v) => {
                                acc = v;
                            },
                        }
                    },
                }
            },
        }
        k = k + 1;
    }
    Ok(acc)
}

/// Where a named hole that starts at `i` ends.
pub fn named_hole_end_of(c: &Vec<char>, i: usize) -> (r: Option<usize>)
    ensures
        r matches Some(e) ==> named_hole_end(c@, i as int) == Some(e as int) && i + 2 <= e <= c@.len(),
        r is None ==> named_hole_end(c@, i as int) is None,
{
    proof {
        reveal_strlit("_");
    }
    if i < c.len() && text_at_exec(c, i, "_") && digit_at_exec(c, i + 1, 10) {
        Some(class_end_of(c, i + 2, CharClass::DigitOrUnderscore(10)))
    } else {
        None
    }
}

/// Where an identifier that starts at `i` ends.
pub fn identifier_end_of(c: &Vec<char>, i: usize) -> (r: Option<usize>)
    requires
        i <= c@.len(),
    ensures
        r matches Some(e) ==> identifier_end(c@, i as int) == Some(e as int) && i < e <= c@.len(),
        r is None ==> identifier_end(c@, i as int) is None,
{
    let u = class_end_of(c, i, CharClass::Underscore);
    if u < c.len() && is_xid_start(c[u]) {
        Some(class_end_of(c, u + 1, CharClass::IdentifierContinue))
    } else {
        None
    }
}

/// The text from `a` to `b` is `w`.
pub fn word_is(c: &Vec<char>, a: usize, b: usize, w: &str) -> (r: bool)
    requires
        a <= b <= c@.len(),
    ensures
        r == (c@.subrange(a as int, b as int) == w@),
{
    let n = w.unicode_len();
    if b - a != n {
        proof {
            assert(c@.subrange(a as int, b as int).len() != w@.len());
        }
        return false;
    }
    text_at_exec(c, a, w)
}

/// The keyword that the text from `a` to `b` is, if it is one.
pub fn keyword_of(c: &Vec<char>, a: usize, b: usize) -> (r: Option<BaseToken>)
    requires
        a <= b <= c@.len(),
    ensures
        r == keyword(c@.subrange(a as int, b as int)),
{
    if word_is(c, a, b, "let") {
        Some(BaseToken::Let)
    } else if word_is(c, a, b, "in") {
        Some(BaseToken::In)
    } else if word_is(c, a, b, "case") {
        Some(BaseToken::Case)
    } else if word_is(c, a, b, "of") {
        Some(BaseToken::Of)
    } else if word_is(c, a, b, "import") {
        Some(BaseToken::Import)
    } else if word_is(c, a, b, "data") {
        Some(BaseToken::Data)
    } else if word_is(c, a, b, "newtype") {
        Some(BaseToken::Newtype)
    } else if word_is(c, a, b, "class") {
        Some(BaseToken::Class)
    } else if word_is(c, a, b, "instance") {
        Some(BaseToken::Instance)
    } else if word_is(c, a, b, "public") {
        Some(BaseToken::Public)
    } else if word_is(c, a, b, "alias") {
        Some(BaseToken::Alias)
    } else if word_is(c, a, b, "as") {
        Some(BaseToken::As)
    } else if word_is(c, a, b, "unqualified") {
        Some(BaseToken::Unqualified)
    } else if word_is(c, a, b, "forall") {
        Some(BaseToken::Forall)
    } else if word_is(c, a, b, "type") {
        Some(BaseToken::Type)
    } else {
        None
    }
}

/// Where an identifier between backticks that starts at `i` ends.
pub fn infix_end_of(c: &Vec<char>, i: usize) -> (r: Option<usize>)
    ensures
        r matches Some(e) ==> infix_end(c@, i as int) == Some(e as int) && i + 3 <= e <= c@.len(),
        r is None ==> infix_end(c@, i as int) is None,
{
    proof {
        reveal_strlit("`");
    }
    if i < c.len() && text_at_exec(c, i, "`") {
        match identifier_end_of(c, i + 1) {
            Some(e) => if e < c.len() && text_at_exec(c, e, "`") {
                Some(e + 1)
            } else {
                None
            },
            None => None,
        }
    } else {
        None
    }
}

/// The ownership literal at `i`, with its length.
pub fn ownership_literal_of(c: &Vec<char>, i: usize) -> (r: Option<(usize, OwnershipLiteral)>)
    ensures
        r matches Some((n, o)) ==> ownership_literal_at(c@, i as int) == Some((n as int, o)) && 1 <= n
            && i + n <= c@.len(),
        r is None ==> ownership_literal_at(c@, i as int) is None,
{
    proof {
        reveal_strlit("'0");
        reveal_strlit("'1");
        reveal_strlit("'inf");
    }
    if text_at_exec(c, i, "'0") {
        Some((2, OwnershipLiteral::Zero))
    } else if text_at_exec(c, i, "'1") {
        Some((2, OwnershipLiteral::One))
    } else if text_at_exec(c, i, "'inf") {
        Some((4, OwnershipLiteral::Inf))
    } else {
        None
    }
}

/// Where an ownership variable that starts at `i` ends.
pub fn ownership_variable_end_of(c: &Vec<char>, i: usize) -> (r: Option<usize>)
    ensures
        r matches Some(e) ==> ownership_variable_end(c@, i as int) == Some(e as int) && i + 1 < e
            <= c@.len(),
        r is None ==> ownership_variable_end(c@, i as int) is None,
{
    proof {
        reveal_strlit("'");
    }
    if i < c.len() && text_at_exec(c, i, "'") {
        identifier_end_of(c, i + 1)
    } else {
        None
    }
}

/// Where a literal with the two chars of `prefix` and digits of the radix
/// that starts at `i` ends.
pub fn prefixed_end_of(c: &Vec<char>, i: usize, prefix: &str, radix: u32) -> (r: Option<usize>)
    requires
        prefix@.len() == 2,
    ensures
        r matches Some(e) ==> prefixed_end(c@, i as int, prefix@, radix) == Some(e as int) && i + 3
            <= e <= c@.len(),
        r is None ==> prefixed_end(c@, i as int, prefix@, radix) is None,
{
    if i < c.len() && text_at_exec(c, i, prefix) && digit_at_exec(c, i + 2, radix) {
        Some(class_end_of(c, i + 3, CharClass::DigitOrUnderscore(radix)))
    } else {
        None
    }
}

/// The lexeme of an unsigned integer literal with the digits from `a` to `b`.
pub fn uint_found(c: &Vec<char>, a: usize, b: usize, radix: u32, kind: UintKind) -> (f: Found)
    requires
        a <= b <= c@.len(),
    ensures
        found_lexeme(c@, f) == uint_lexeme(c@.subrange(a as int, b as int), radix, kind),
        found_in(c@, f),
{
    match parse_u64_of(c, a, b, radix) {
        Ok(value) => Found::Token(BaseToken::UintLiteral(UintLiteral { kind, value })),
        Err(e) => Found::Refused(LexerReportKind::CantParseU64(e)),
    }
}

/// Where a decimal number that starts at `i` ends, and whether it has a
/// decimal part.
pub fn numeric_end_of(c: &Vec<char>, i: usize) -> (r: Option<(usize, bool)>)
    requires
        c@.len() <= usize::MAX,
    ensures
        r matches Some((e, f)) ==> numeric_end(c@, i as int) == Some((e as int, f)) && i < e <= c@.len(),
        r is None ==> numeric_end(c@, i as int) is None,
{
    proof {
        reveal_strlit(".");
        reveal_strlit("e");
        reveal_strlit("E");
        reveal_strlit("+");
        reveal_strlit("-");
    }
    if !digit_at_exec(c, i, 10) {
        return None;
    }
    let a = class_end_of(c, i + 1, CharClass::DigitOrUnderscore(10));
    if a < c.len() && text_at_exec(c, a, ".") && digit_at_exec(c, a + 1, 10) {
        let b = class_end_of(c, a + 2, CharClass::DigitOrUnderscore(10));
        if b < c.len() && (text_at_exec(c, b, "e") || text_at_exec(c, b, "E")) {
            let d = if b + 1 < c.len() && (text_at_exec(c, b + 1, "+") || text_at_exec(c, b + 1, "-")) {
                b + 2
            } else {
                b + 1
            };
            if digit_at_exec(c, d, 10) {
                Some((class_end_of(c, d + 1, CharClass::DigitOrUnderscore(10)), true))
            } else {
                Some((b, true))
            }
        } else {
            Some((b, true))
        }
    } else {
        Some((a, false))
    }
}

/// The lexeme at `i` among the rules from the ownership literals on.
pub fn ownership_or_number_of(c: &Vec<char>, i: usize) -> (r: Option<(Found, usize)>)
    requires
        i < c@.len() <= usize::MAX,
    ensures
        r matches Some((f, e)) ==> lexeme_of_ownership_or_number(c@, i as int) == Some(
            (found_lexeme(c@, f), e as int),
        ) && i < e <= c@.len() && found_in(c@, f),
        r is None ==> lexeme_of_ownership_or_number(c@, i as int) is None,
{
    proof {
        reveal_strlit("0o");
        reveal_strlit("0x");
        reveal_strlit("0b");
    }
    match ownership_literal_of(c, i) {
        Some((n, o)) => Some((Found::Token(BaseToken::OwnershipLiteral(o)), i + n)),
        None => match ownership_variable_end_of(c, i) {
            Some(e) => Some((Found::OwnershipName(i + 1, e), e)),
            None => match prefixed_end_of(c, i, "0o", 8) {
                Some(e) => Some((uint_found(c, i + 2, e, 8, UintKind::Octal), e)),
                None => match prefixed_end_of(c, i, "0x", 16) {
                    Some(e) => Some((uint_found(c, i + 2, e, 16, UintKind::Hex), e)),
                    None => match prefixed_end_of(c, i, "0b", 2) {
                        Some(e) => Some((uint_found(c, i + 2, e, 2, UintKind::Binary), e)),
                        None => match numeric_end_of(c, i) {
                            Some((e, true)) => Some((Found::Refused(LexerReportKind::FloatLiteralNotSupported), e)),
                            Some((e, false)) => Some((uint_found(c, i, e, 10, UintKind::Unspecified), e)),
                            None => None,
                        },
                    },
                },
            },
        },
    }
}

/// The lexeme at `i` among the rules from the named holes on.
pub fn word_or_number_of(c: &Vec<char>, i: usize) -> (r: Option<(Found, usize)>)
    requires
        i < c@.len() <= usize::MAX,
    ensures
        r matches Some((f, e)) ==> lexeme_of_word_or_number(c@, i as int) == Some(
            (found_lexeme(c@, f), e as int),
        ) && i < e <= c@.len() && found_in(c@, f),
        r is None ==> lexeme_of_word_or_number(c@, i as int) is None,
{
    proof {
        reveal_strlit("_");
    }
    match named_hole_end_of(c, i) {
        Some(e) => {
            let f = match parse_u64_of(c, i + 1, e, 10) {
                Ok(v) => Found::Token(BaseToken::NamedHole(v)),
                Err(_) => Found::Refused(LexerReportKind::Notu64NamedHole),
            };
            Some((f, e))
        },
        None => match identifier_end_of(c, i) {
            Some(e) => {
                let f = match keyword_of(c, i, e) {
                    Some(k) => Found::Token(k),
                    None => Found::Name(i, e),
                };
                Some((f, e))
            },
            None => match infix_end_of(c, i) {
                Some(e) => Some((Found::InfixName(i + 1, e - 1), e)),
                None => if text_at_exec(c, i, "_") {
                    Some((Found::Token(BaseToken::AnonHole), i + 1))
                } else {
                    ownership_or_number_of(c, i)
                },
            },
        },
    }
}

/// The lexeme that starts at `i`, with where it ends.
pub fn lexeme_of(c: &Vec<char>, i: usize) -> (r: Option<(Found, usize)>)
    requires
        i < c@.len() <= usize::MAX,
    ensures
        r matches Some((f, e)) ==> lexeme_at(c@, i as int) == Some((found_lexeme(c@, f), e as int))
            && i < e <= c@.len() && found_in(c@, f),
        r is None ==> lexeme_at(c@, i as int) is None,
{
    proof {
        reveal_strlit("//");
        reveal_strlit("--");
        reveal_strlit("{----");
        reveal_strlit("{---");
        reveal_strlit("{--");
        reveal_strlit("{-");
    }
    match opener_of(c, i) {
        Some(Opener::Line(start)) => Some(line_comment_of(c, i, start)),
        Some(Opener::Block(brace)) => Some(block_comment_of(c, i, brace)),
        None => match punctuation_of(c, i) {
            Some((n, f)) => Some((f, i + n)),
            None => match bracket_of(c, i) {
                Some(t) => Some((Found::Token(t), i + 1)),
                None => match string_start_of(c, i) {
                    Some(n) => Some((Found::Refused(LexerReportKind::StringLiteralNotSupported), i + n)),
                    None => word_or_number_of(c, i),
                },
            },
        },
    }
}

/// The token is a comment.
pub open spec fn is_comment_token(t: BaseToken) -> bool {
    t is LineComment || t is BlockComment
}

/// No punctuation is a comment.
proof fn lemma_punctuation_not_comment(s: Seq<char>, i: int)
    ensures
        punctuation_at(s, i) matches Some((_, Lexeme::Fixed(t))) ==> !is_comment_token(t),
{
}

/// No word or number is a comment.
proof fn lemma_word_not_comment(s: Seq<char>, i: int)
    ensures
        lexeme_of_word_or_number(s, i) matches Some((Lexeme::Fixed(t), _)) ==> !is_comment_token(t),
{
}

/// No rule makes a fixed token that is a comment: comments are their own
/// lexemes.
pub proof fn lemma_fixed_not_comment(s: Seq<char>, i: int)
    ensures
        lexeme_at(s, i) matches Some((Lexeme::Fixed(t), _)) ==> !is_comment_token(t),
{
    lemma_punctuation_not_comment(s, i);
    lemma_word_not_comment(s, i);
}


/// The text of an operator, a punctuation mark or a bracket: the token that
/// the lexer gives for that text.
pub open spec fn symbol_text(t: BaseToken) -> Option<Seq<char>> {
    match t {
        BaseToken::LambdaStart => Some("\\"@),
        BaseToken::Div => Some("/"@),
        BaseToken::Hash => Some("#"@),
        BaseToken::Comma => Some(","@),
        BaseToken::StatementEnd => Some(";"@),
        BaseToken::Plus => Some("+"@),
        BaseToken::Power => Some("^"@),
        BaseToken::Module => Some("%"@),
        BaseToken::At => Some("@"@),
        BaseToken::Dot => Some("."@),
        BaseToken::Colon => Some(":"@),
        BaseToken::LogicPathSeparator => Some("::"@),
        BaseToken::Minus => Some("-"@),
        BaseToken::RightArrow => Some("->"@),
        BaseToken::Pipe => Some("|"@),
        BaseToken::CompositionRight => Some("<|"@),
        BaseToken::Alternative => Some("<|>"@),
        BaseToken::LessOrEqual => Some("<="@),
        BaseToken::LeftArrow => Some("<-"@),
        BaseToken::MapConstLeft => Some("<$"@),
        BaseToken::MapOperator => Some("<$>"@),
        BaseToken::ApplicativeLeft => Some("<*"@),
        BaseToken::ShiftLeft => Some("<<"@),
        BaseToken::Appliative => Some("<*>"@),
        BaseToken::FlippedMap => Some("<&>"@),
        BaseToken::Annotate => Some("<?>"@),
        BaseToken::Star => Some("*"@),
        BaseToken::ApplicativeRight => Some("*>"@),
        BaseToken::Asignation => Some("="@),
        BaseToken::Equality => Some("=="@),
        BaseToken::Exclamation => Some("!"@),
        BaseToken::NotEqual => Some("!="@),
        BaseToken::MoreThan => Some(">"@),
        BaseToken::ShiftRight => Some(">>"@),
        BaseToken::MoreOrEqual => Some(">="@),
        BaseToken::And => Some("&&"@),
        BaseToken::ReverseApplication => Some("&"@),
        BaseToken::DollarApplication => Some("$"@),
        BaseToken::MapConstRight => Some("$>"@),
        BaseToken::LParen => Some("("@),
        BaseToken::RParen => Some(")"@),
        BaseToken::LBracket => Some("["@),
        BaseToken::RBracket => Some("]"@),
        BaseToken::LBrace => Some("{"@),
        BaseToken::RBrace => Some("}"@),
        _ => None,
    }
}

/// The reserved word of a keyword token.
pub open spec fn keyword_text(t: BaseToken) -> Option<Seq<char>> {
    match t {
        BaseToken::Let => Some("let"@),
        BaseToken::In => Some("in"@),
        BaseToken::Case => Some("case"@),
        BaseToken::Of => Some("of"@),
        BaseToken::Import => Some("import"@),
        BaseToken::Data => Some("data"@),
        BaseToken::Newtype => Some("newtype"@),
        BaseToken::Class => Some("class"@),
        BaseToken::Instance => Some("instance"@),
        BaseToken::Public => Some("public"@),
        BaseToken::Alias => Some("alias"@),
        BaseToken::As => Some("as"@),
        BaseToken::Unqualified => Some("unqualified"@),
        BaseToken::Forall => Some("forall"@),
        BaseToken::Type => Some("type"@),
        _ => None,
    }
}

/// The text that a token of fixed text always stands for.
pub open spec fn token_text(t: BaseToken) -> Option<Seq<char>> {
    match symbol_text(t) {
        Some(x) => Some(x),
        None => match keyword_text(t) {
            Some(w) => Some(w),
            None => if t is AnonHole {
                Some("_"@)
            } else {
                None
            },
        },
    }
}

/// The chars of the fixed texts of the scanner.
proof fn reveal_fixed_texts()
    ensures
        "!"@ == seq!['!'],
        "!="@ == seq!['!', '='],
        "#"@ == seq!['#'],
        "$"@ == seq!['$'],
        "$>"@ == seq!['$', '>'],
        "%"@ == seq!['%'],
        "&"@ == seq!['&'],
        "&&"@ == seq!['&', '&'],
        "'"@ == seq!['\''],
        "'0"@ == seq!['\'', '0'],
        "'1"@ == seq!['\'', '1'],
        "'inf"@ == seq!['\'', 'i', 'n', 'f'],
        "("@ == seq!['('],
        ")"@ == seq![')'],
        "*"@ == seq!['*'],
        "*>"@ == seq!['*', '>'],
        "+"@ == seq!['+'],
        ","@ == seq![','],
        "-"@ == seq!['-'],
        "--"@ == seq!['-', '-'],
        "->"@ == seq!['-', '>'],
        "."@ == seq!['.'],
        "/"@ == seq!['/'],
        "//"@ == seq!['/', '/'],
        "0b"@ == seq!['0', 'b'],
        "0o"@ == seq!['0', 'o'],
        "0x"@ == seq!['0', 'x'],
        ":"@ == seq![':'],
        "::"@ == seq![':', ':'],
        ";"@ == seq![';'],
        "<"@ == seq!['<'],
        "<$"@ == seq!['<', '$'],
        "<$>"@ == seq!['<', '$', '>'],
        "<&>"@ == seq!['<', '&', '>'],
        "<*"@ == seq!['<', '*'],
        "<*>"@ == seq!['<', '*', '>'],
        "<-"@ == seq!['<', '-'],
        "<<"@ == seq!['<', '<'],
        "<="@ == seq!['<', '='],
        "<?>"@ == seq!['<', '?', '>'],
        "<|"@ == seq!['<', '|'],
        "<|>"@ == seq!['<', '|', '>'],
        "="@ == seq!['='],
        "=="@ == seq!['=', '='],
        ">"@ == seq!['>'],
        ">="@ == seq!['>', '='],
        ">>"@ == seq!['>', '>'],
        "?"@ == seq!['?'],
        "@"@ == seq!['@'],
        "E"@ == seq!['E'],
        "["@ == seq!['['],
        "\""@ == seq!['"'],
        "\\"@ == seq!['\\'],
        "]"@ == seq![']'],
        "^"@ == seq!['^'],
        "_"@ == seq!['_'],
        "`"@ == seq!['`'],
        "alias"@ == seq!['a', 'l', 'i', 'a', 's'],
        "as"@ == seq!['a', 's'],
        "case"@ == seq!['c', 'a', 's', 'e'],
        "class"@ == seq!['c', 'l', 'a', 's', 's'],
        "data"@ == seq!['d', 'a', 't', 'a'],
        "e"@ == seq!['e'],
        "f#\""@ == seq!['f', '#', '"'],
        "forall"@ == seq!['f', 'o', 'r', 'a', 'l', 'l'],
        "import"@ == seq!['i', 'm', 'p', 'o', 'r', 't'],
        "in"@ == seq!['i', 'n'],
        "instance"@ == seq!['i', 'n', 's', 't', 'a', 'n', 'c', 'e'],
        "let"@ == seq!['l', 'e', 't'],
        "newtype"@ == seq!['n', 'e', 'w', 't', 'y', 'p', 'e'],
        "of"@ == seq!['o', 'f'],
        "public"@ == seq!['p', 'u', 'b', 'l', 'i', 'c'],
        "r####\""@ == seq!['r', '#', '#', '#', '#', '"'],
        "r###\""@ == seq!['r', '#', '#', '#', '"'],
        "r##\""@ == seq!['r', '#', '#', '"'],
        "r#\""@ == seq!['r', '#', '"'],
        "type"@ == seq!['t', 'y', 'p', 'e'],
        "unqualified"@ == seq!['u', 'n', 'q', 'u', 'a', 'l', 'i', 'f', 'i', 'e', 'd'],
        "{"@ == seq!['{'],
        "{-"@ == seq!['{', '-'],
        "{--"@ == seq!['{', '-', '-'],
        "{---"@ == seq!['{', '-', '-', '-'],
        "{----"@ == seq!['{', '-', '-', '-', '-'],
        "|"@ == seq!['|'],
        "|>"@ == seq!['|', '>'],
        "||"@ == seq!['|', '|'],
        "}"@ == seq!['}'],
{
    reveal_strlit("!");
    reveal_strlit("!=");
    reveal_strlit("#");
    reveal_strlit("$");
    reveal_strlit("$>");
    reveal_strlit("%");
    reveal_strlit("&");
    reveal_strlit("&&");
    reveal_strlit("'");
    reveal_strlit("'0");
    reveal_strlit("'1");
    reveal_strlit("'inf");
    reveal_strlit("(");
    reveal_strlit(")");
    reveal_strlit("*");
    reveal_strlit("*>");
    reveal_strlit("+");
    reveal_strlit(",");
    reveal_strlit("-");
    reveal_strlit("--");
    reveal_strlit("->");
    reveal_strlit(".");
    reveal_strlit("/");
    reveal_strlit("//");
    reveal_strlit("0b");
    reveal_strlit("0o");
    reveal_strlit("0x");
    reveal_strlit(":");
    reveal_strlit("::");
    reveal_strlit(";");
    reveal_strlit("<");
    reveal_strlit("<$");
    reveal_strlit("<$>");
    reveal_strlit("<&>");
    reveal_strlit("<*");
    reveal_strlit("<*>");
    reveal_strlit("<-");
    reveal_strlit("<<");
    reveal_strlit("<=");
    reveal_strlit("<?>");
    reveal_strlit("<|");
    reveal_strlit("<|>");
    reveal_strlit("=");
    reveal_strlit("==");
    reveal_strlit(">");
    reveal_strlit(">=");
    reveal_strlit(">>");
    reveal_strlit("?");
    reveal_strlit("@");
    reveal_strlit("E");
    reveal_strlit("[");
    reveal_strlit("\"");
    reveal_strlit("\\");
    reveal_strlit("]");
    reveal_strlit("^");
    reveal_strlit("_");
    reveal_strlit("`");
    reveal_strlit("alias");
    reveal_strlit("as");
    reveal_strlit("case");
    reveal_strlit("class");
    reveal_strlit("data");
    reveal_strlit("e");
    reveal_strlit("f#\"");
    reveal_strlit("forall");
    reveal_strlit("import");
    reveal_strlit("in");
    reveal_strlit("instance");
    reveal_strlit("let");
    reveal_strlit("newtype");
    reveal_strlit("of");
    reveal_strlit("public");
    reveal_strlit("r####\"");
    reveal_strlit("r###\"");
    reveal_strlit("r##\"");
    reveal_strlit("r#\"");
    reveal_strlit("type");
    reveal_strlit("unqualified");
    reveal_strlit("{");
    reveal_strlit("{-");
    reveal_strlit("{--");
    reveal_strlit("{---");
    reveal_strlit("{----");
    reveal_strlit("|");
    reveal_strlit("|>");
    reveal_strlit("||");
    reveal_strlit("}");
}


/// A text of 1 chars stands at `i` exactly when those chars do.
proof fn lemma_text_1(s: Seq<char>, i: int, c0: char)
    ensures
        text_at(s, i, seq![c0]) <==> (0 <= i && i + 1 <= s.len() && s[i] == c0),
{
    if 0 <= i && i + 1 <= s.len() && s[i] == c0 {
        assert(s.subrange(i, i + 1) =~= seq![c0]);
    }
    if text_at(s, i, seq![c0]) {
        assert(s.subrange(i, i + 1)[0] == s[i + 0]);
    }
}

/// A text of 2 chars stands at `i` exactly when those chars do.
proof fn lemma_text_2(s: Seq<char>, i: int, c0: char, c1: char)
    ensures
        text_at(s, i, seq![c0, c1]) <==> (0 <= i && i + 2 <= s.len() && s[i] == c0 && s[i + 1] == c1),
{
    if 0 <= i && i + 2 <= s.len() && s[i] == c0 && s[i + 1] == c1 {
        assert(s.subrange(i, i + 2) =~= seq![c0, c1]);
    }
    if text_at(s, i, seq![c0, c1]) {
        assert(s.subrange(i, i + 2)[0] == s[i + 0]);
        assert(s.subrange(i, i + 2)[1] == s[i + 1]);
    }
}

/// A text of 3 chars stands at `i` exactly when those chars do.
proof fn lemma_text_3(s: Seq<char>, i: int, c0: char, c1: char, c2: char)
    ensures
        text_at(s, i, seq![c0, c1, c2]) <==> (0 <= i && i + 3 <= s.len() && s[i] == c0 && s[i + 1] == c1 && s[i + 2] == c2),
{
    if 0 <= i && i + 3 <= s.len() && s[i] == c0 && s[i + 1] == c1 && s[i + 2] == c2 {
        assert(s.subrange(i, i + 3) =~= seq![c0, c1, c2]);
    }
    if text_at(s, i, seq![c0, c1, c2]) {
        assert(s.subrange(i, i + 3)[0] == s[i + 0]);
        assert(s.subrange(i, i + 3)[1] == s[i + 1]);
        assert(s.subrange(i, i + 3)[2] == s[i + 2]);
    }
}

/// A text of 4 chars stands at `i` exactly when those chars do.
proof fn lemma_text_4(s: Seq<char>, i: int, c0: char, c1: char, c2: char, c3: char)
    ensures
        text_at(s, i, seq![c0, c1, c2, c3]) <==> (0 <= i && i + 4 <= s.len() && s[i] == c0 && s[i + 1] == c1 && s[i + 2] == c2 && s[i + 3] == c3),
{
    if 0 <= i && i + 4 <= s.len() && s[i] == c0 && s[i + 1] == c1 && s[i + 2] == c2 && s[i + 3] == c3 {
        assert(s.subrange(i, i + 4) =~= seq![c0, c1, c2, c3]);
    }
    if text_at(s, i, seq![c0, c1, c2, c3]) {
        assert(s.subrange(i, i + 4)[0] == s[i + 0]);
        assert(s.subrange(i, i + 4)[1] == s[i + 1]);
        assert(s.subrange(i, i + 4)[2] == s[i + 2]);
        assert(s.subrange(i, i + 4)[3] == s[i + 3]);
    }
}

/// A text of 5 chars stands at `i` exactly when those chars do.
proof fn lemma_text_5(s: Seq<char>, i: int, c0: char, c1: char, c2: char, c3: char, c4: char)
    ensures
        text_at(s, i, seq![c0, c1, c2, c3, c4]) <==> (0 <= i && i + 5 <= s.len() && s[i] == c0 && s[i + 1] == c1 && s[i + 2] == c2 && s[i + 3] == c3 && s[i + 4] == c4),
{
    if 0 <= i && i + 5 <= s.len() && s[i] == c0 && s[i + 1] == c1 && s[i + 2] == c2 && s[i + 3] == c3 && s[i + 4] == c4 {
        assert(s.subrange(i, i + 5) =~= seq![c0, c1, c2, c3, c4]);
    }
    if text_at(s, i, seq![c0, c1, c2, c3, c4]) {
        assert(s.subrange(i, i + 5)[0] == s[i + 0]);
        assert(s.subrange(i, i + 5)[1] == s[i + 1]);
        assert(s.subrange(i, i + 5)[2] == s[i + 2]);
        assert(s.subrange(i, i + 5)[3] == s[i + 3]);
        assert(s.subrange(i, i + 5)[4] == s[i + 4]);
    }
}

/// A text of 6 chars stands at `i` exactly when those chars do.
proof fn lemma_text_6(s: Seq<char>, i: int, c0: char, c1: char, c2: char, c3: char, c4: char, c5: char)
    ensures
        text_at(s, i, seq![c0, c1, c2, c3, c4, c5]) <==> (0 <= i && i + 6 <= s.len() && s[i] == c0 && s[i + 1] == c1 && s[i + 2] == c2 && s[i + 3] == c3 && s[i + 4] == c4 && s[i + 5] == c5),
{
    if 0 <= i && i + 6 <= s.len() && s[i] == c0 && s[i + 1] == c1 && s[i + 2] == c2 && s[i + 3] == c3 && s[i + 4] == c4 && s[i + 5] == c5 {
        assert(s.subrange(i, i + 6) =~= seq![c0, c1, c2, c3, c4, c5]);
    }
    if text_at(s, i, seq![c0, c1, c2, c3, c4, c5]) {
        assert(s.subrange(i, i + 6)[0] == s[i + 0]);
        assert(s.subrange(i, i + 6)[1] == s[i + 1]);
        assert(s.subrange(i, i + 6)[2] == s[i + 2]);
        assert(s.subrange(i, i + 6)[3] == s[i + 3]);
        assert(s.subrange(i, i + 6)[4] == s[i + 4]);
        assert(s.subrange(i, i + 6)[5] == s[i + 5]);
    }
}

/// A text of 7 chars stands at `i` exactly when those chars do.
proof fn lemma_text_7(s: Seq<char>, i: int, c0: char, c1: char, c2: char, c3: char, c4: char, c5: char, c6: char)
    ensures
        text_at(s, i, seq![c0, c1, c2, c3, c4, c5, c6]) <==> (0 <= i && i + 7 <= s.len() && s[i] == c0 && s[i + 1] == c1 && s[i + 2] == c2 && s[i + 3] == c3 && s[i + 4] == c4 && s[i + 5] == c5 && s[i + 6] == c6),
{
    if 0 <= i && i + 7 <= s.len() && s[i] == c0 && s[i + 1] == c1 && s[i + 2] == c2 && s[i + 3] == c3 && s[i + 4] == c4 && s[i + 5] == c5 && s[i + 6] == c6 {
        assert(s.subrange(i, i + 7) =~= seq![c0, c1, c2, c3, c4, c5, c6]);
    }
    if text_at(s, i, seq![c0, c1, c2, c3, c4, c5, c6]) {
        assert(s.subrange(i, i + 7)[0] == s[i + 0]);
        assert(s.subrange(i, i + 7)[1] == s[i + 1]);
        assert(s.subrange(i, i + 7)[2] == s[i + 2]);
        assert(s.subrange(i, i + 7)[3] == s[i + 3]);
        assert(s.subrange(i, i + 7)[4] == s[i + 4]);
        assert(s.subrange(i, i + 7)[5] == s[i + 5]);
        assert(s.subrange(i, i + 7)[6] == s[i + 6]);
    }
}

/// A text of 8 chars stands at `i` exactly when those chars do.
proof fn lemma_text_8(s: Seq<char>, i: int, c0: char, c1: char, c2: char, c3: char, c4: char, c5: char, c6: char, c7: char)
    ensures
        text_at(s, i, seq![c0, c1, c2, c3, c4, c5, c6, c7]) <==> (0 <= i && i + 8 <= s.len() && s[i] == c0 && s[i + 1] == c1 && s[i + 2] == c2 && s[i + 3] == c3 && s[i + 4] == c4 && s[i + 5] == c5 && s[i + 6] == c6 && s[i + 7] == c7),
{
    if 0 <= i && i + 8 <= s.len() && s[i] == c0 && s[i + 1] == c1 && s[i + 2] == c2 && s[i + 3] == c3 && s[i + 4] == c4 && s[i + 5] == c5 && s[i + 6] == c6 && s[i + 7] == c7 {
        assert(s.subrange(i, i + 8) =~= seq![c0, c1, c2, c3, c4, c5, c6, c7]);
    }
    if text_at(s, i, seq![c0, c1, c2, c3, c4, c5, c6, c7]) {
        assert(s.subrange(i, i + 8)[0] == s[i + 0]);
        assert(s.subrange(i, i + 8)[1] == s[i + 1]);
        assert(s.subrange(i, i + 8)[2] == s[i + 2]);
        assert(s.subrange(i, i + 8)[3] == s[i + 3]);
        assert(s.subrange(i, i + 8)[4] == s[i + 4]);
        assert(s.subrange(i, i + 8)[5] == s[i + 5]);
        assert(s.subrange(i, i + 8)[6] == s[i + 6]);
        assert(s.subrange(i, i + 8)[7] == s[i + 7]);
    }
}

/// A text of 11 chars stands at `i` exactly when those chars do.
proof fn lemma_text_11(s: Seq<char>, i: int, c0: char, c1: char, c2: char, c3: char, c4: char, c5: char, c6: char, c7: char, c8: char, c9: char, c10: char)
    ensures
        text_at(s, i, seq![c0, c1, c2, c3, c4, c5, c6, c7, c8, c9, c10]) <==> (0 <= i && i + 11 <= s.len() && s[i] == c0 && s[i + 1] == c1 && s[i + 2] == c2 && s[i + 3] == c3 && s[i + 4] == c4 && s[i + 5] == c5 && s[i + 6] == c6 && s[i + 7] == c7 && s[i + 8] == c8 && s[i + 9] == c9 && s[i + 10] == c10),
{
    if 0 <= i && i + 11 <= s.len() && s[i] == c0 && s[i + 1] == c1 && s[i + 2] == c2 && s[i + 3] == c3 && s[i + 4] == c4 && s[i + 5] == c5 && s[i + 6] == c6 && s[i + 7] == c7 && s[i + 8] == c8 && s[i + 9] == c9 && s[i + 10] == c10 {
        assert(s.subrange(i, i + 11) =~= seq![c0, c1, c2, c3, c4, c5, c6, c7, c8, c9, c10]);
    }
    if text_at(s, i, seq![c0, c1, c2, c3, c4, c5, c6, c7, c8, c9, c10]) {
        assert(s.subrange(i, i + 11)[0] == s[i + 0]);
        assert(s.subrange(i, i + 11)[1] == s[i + 1]);
        assert(s.subrange(i, i + 11)[2] == s[i + 2]);
        assert(s.subrange(i, i + 11)[3] == s[i + 3]);
        assert(s.subrange(i, i + 11)[4] == s[i + 4]);
        assert(s.subrange(i, i + 11)[5] == s[i + 5]);
        assert(s.subrange(i, i + 11)[6] == s[i + 6]);
        assert(s.subrange(i, i + 11)[7] == s[i + 7]);
        assert(s.subrange(i, i + 11)[8] == s[i + 8]);
        assert(s.subrange(i, i + 11)[9] == s[i + 9]);
        assert(s.subrange(i, i + 11)[10] == s[i + 10]);
    }
}

/// Each fixed text of the scanner stands at `i` exactly when its chars do.
proof fn lemma_fixed_texts_chars(s: Seq<char>, i: int)
    ensures
        text_at(s, i, "!"@) <==> (0 <= i && i + 1 <= s.len() && s[i] == '!'),
        text_at(s, i, "!="@) <==> (0 <= i && i + 2 <= s.len() && s[i] == '!' && s[i + 1] == '='),
        text_at(s, i, "#"@) <==> (0 <= i && i + 1 <= s.len() && s[i] == '#'),
        text_at(s, i, "$"@) <==> (0 <= i && i + 1 <= s.len() && s[i] == '$'),
        text_at(s, i, "$>"@) <==> (0 <= i && i + 2 <= s.len() && s[i] == '$' && s[i + 1] == '>'),
        text_at(s, i, "%"@) <==> (0 <= i && i + 1 <= s.len() && s[i] == '%'),
        text_at(s, i, "&"@) <==> (0 <= i && i + 1 <= s.len() && s[i] == '&'),
        text_at(s, i, "&&"@) <==> (0 <= i && i + 2 <= s.len() && s[i] == '&' && s[i + 1] == '&'),
        text_at(s, i, "'"@) <==> (0 <= i && i + 1 <= s.len() && s[i] == '\''),
        text_at(s, i, "'0"@) <==> (0 <= i && i + 2 <= s.len() && s[i] == '\'' && s[i + 1] == '0'),
        text_at(s, i, "'1"@) <==> (0 <= i && i + 2 <= s.len() && s[i] == '\'' && s[i + 1] == '1'),
        text_at(s, i, "'inf"@) <==> (0 <= i && i + 4 <= s.len() && s[i] == '\'' && s[i + 1] == 'i' && s[i + 2] == 'n' && s[i + 3] == 'f'),
        text_at(s, i, "("@) <==> (0 <= i && i + 1 <= s.len() && s[i] == '('),
        text_at(s, i, ")"@) <==> (0 <= i && i + 1 <= s.len() && s[i] == ')'),
        text_at(s, i, "*"@) <==> (0 <= i && i + 1 <= s.len() && s[i] == '*'),
        text_at(s, i, "*>"@) <==> (0 <= i && i + 2 <= s.len() && s[i] == '*' && s[i + 1] == '>'),
        text_at(s, i, "+"@) <==> (0 <= i && i + 1 <= s.len() && s[i] == '+'),
        text_at(s, i, ","@) <==> (0 <= i && i + 1 <= s.len() && s[i] == ','),
        text_at(s, i, "-"@) <==> (0 <= i && i + 1 <= s.len() && s[i] == '-'),
        text_at(s, i, "--"@) <==> (0 <= i && i + 2 <= s.len() && s[i] == '-' && s[i + 1] == '-'),
        text_at(s, i, "->"@) <==> (0 <= i && i + 2 <= s.len() && s[i] == '-' && s[i + 1] == '>'),
        text_at(s, i, "."@) <==> (0 <= i && i + 1 <= s.len() && s[i] == '.'),
        text_at(s, i, "/"@) <==> (0 <= i && i + 1 <= s.len() && s[i] == '/'),
        text_at(s, i, "//"@) <==> (0 <= i && i + 2 <= s.len() && s[i] == '/' && s[i + 1] == '/'),
        text_at(s, i, "0b"@) <==> (0 <= i && i + 2 <= s.len() && s[i] == '0' && s[i + 1] == 'b'),
        text_at(s, i, "0o"@) <==> (0 <= i && i + 2 <= s.len() && s[i] == '0' && s[i + 1] == 'o'),
        text_at(s, i, "0x"@) <==> (0 <= i && i + 2 <= s.len() && s[i] == '0' && s[i + 1] == 'x'),
        text_at(s, i, ":"@) <==> (0 <= i && i + 1 <= s.len() && s[i] == ':'),
        text_at(s, i, "::"@) <==> (0 <= i && i + 2 <= s.len() && s[i] == ':' && s[i + 1] == ':'),
        text_at(s, i, ";"@) <==> (0 <= i && i + 1 <= s.len() && s[i] == ';'),
        text_at(s, i, "<"@) <==> (0 <= i && i + 1 <= s.len() && s[i] == '<'),
        text_at(s, i, "<$"@) <==> (0 <= i && i + 2 <= s.len() && s[i] == '<' && s[i + 1] == '$'),
        text_at(s, i, "<$>"@) <==> (0 <= i && i + 3 <= s.len() && s[i] == '<' && s[i + 1] == '$' && s[i + 2] == '>'),
        text_at(s, i, "<&>"@) <==> (0 <= i && i + 3 <= s.len() && s[i] == '<' && s[i + 1] == '&' && s[i + 2] == '>'),
        text_at(s, i, "<*"@) <==> (0 <= i && i + 2 <= s.len() && s[i] == '<' && s[i + 1] == '*'),
        text_at(s, i, "<*>"@) <==> (0 <= i && i + 3 <= s.len() && s[i] == '<' && s[i + 1] == '*' && s[i + 2] == '>'),
        text_at(s, i, "<-"@) <==> (0 <= i && i + 2 <= s.len() && s[i] == '<' && s[i + 1] == '-'),
        text_at(s, i, "<<"@) <==> (0 <= i && i + 2 <= s.len() && s[i] == '<' && s[i + 1] == '<'),
        text_at(s, i, "<="@) <==> (0 <= i && i + 2 <= s.len() && s[i] == '<' && s[i + 1] == '='),
        text_at(s, i, "<?>"@) <==> (0 <= i && i + 3 <= s.len() && s[i] == '<' && s[i + 1] == '?' && s[i + 2] == '>'),
        text_at(s, i, "<|"@) <==> (0 <= i && i + 2 <= s.len() && s[i] == '<' && s[i + 1] == '|'),
        text_at(s, i, "<|>"@) <==> (0 <= i && i + 3 <= s.len() && s[i] == '<' && s[i + 1] == '|' && s[i + 2] == '>'),
        text_at(s, i, "="@) <==> (0 <= i && i + 1 <= s.len() && s[i] == '='),
        text_at(s, i, "=="@) <==> (0 <= i && i + 2 <= s.len() && s[i] == '=' && s[i + 1] == '='),
        text_at(s, i, ">"@) <==> (0 <= i && i + 1 <= s.len() && s[i] == '>'),
        text_at(s, i, ">="@) <==> (0 <= i && i + 2 <= s.len() && s[i] == '>' && s[i + 1] == '='),
        text_at(s, i, ">>"@) <==> (0 <= i && i + 2 <= s.len() && s[i] == '>' && s[i + 1] == '>'),
        text_at(s, i, "?"@) <==> (0 <= i && i + 1 <= s.len() && s[i] == '?'),
        text_at(s, i, "@"@) <==> (0 <= i && i + 1 <= s.len() && s[i] == '@'),
        text_at(s, i, "E"@) <==> (0 <= i && i + 1 <= s.len() && s[i] == 'E'),
        text_at(s, i, "["@) <==> (0 <= i && i + 1 <= s.len() && s[i] == '['),
        text_at(s, i, "\""@) <==> (0 <= i && i + 1 <= s.len() && s[i] == '"'),
        text_at(s, i, "\\"@) <==> (0 <= i && i + 1 <= s.len() && s[i] == '\\'),
        text_at(s, i, "]"@) <==> (0 <= i && i + 1 <= s.len() && s[i] == ']'),
        text_at(s, i, "^"@) <==> (0 <= i && i + 1 <= s.len() && s[i] == '^'),
        text_at(s, i, "_"@) <==> (0 <= i && i + 1 <= s.len() && s[i] == '_'),
        text_at(s, i, "`"@) <==> (0 <= i && i + 1 <= s.len() && s[i] == '`'),
        text_at(s, i, "alias"@) <==> (0 <= i && i + 5 <= s.len() && s[i] == 'a' && s[i + 1] == 'l' && s[i + 2] == 'i' && s[i + 3] == 'a' && s[i + 4] == 's'),
        text_at(s, i, "as"@) <==> (0 <= i && i + 2 <= s.len() && s[i] == 'a' && s[i + 1] == 's'),
        text_at(s, i, "case"@) <==> (0 <= i && i + 4 <= s.len() && s[i] == 'c' && s[i + 1] == 'a' && s[i + 2] == 's' && s[i + 3] == 'e'),
        text_at(s, i, "class"@) <==> (0 <= i && i + 5 <= s.len() && s[i] == 'c' && s[i + 1] == 'l' && s[i + 2] == 'a' && s[i + 3] == 's' && s[i + 4] == 's'),
        text_at(s, i, "data"@) <==> (0 <= i && i + 4 <= s.len() && s[i] == 'd' && s[i + 1] == 'a' && s[i + 2] == 't' && s[i + 3] == 'a'),
        text_at(s, i, "e"@) <==> (0 <= i && i + 1 <= s.len() && s[i] == 'e'),
        text_at(s, i, "f#\""@) <==> (0 <= i && i + 3 <= s.len() && s[i] == 'f' && s[i + 1] == '#' && s[i + 2] == '"'),
        text_at(s, i, "forall"@) <==> (0 <= i && i + 6 <= s.len() && s[i] == 'f' && s[i + 1] == 'o' && s[i + 2] == 'r' && s[i + 3] == 'a' && s[i + 4] == 'l' && s[i + 5] == 'l'),
        text_at(s, i, "import"@) <==> (0 <= i && i + 6 <= s.len() && s[i] == 'i' && s[i + 1] == 'm' && s[i + 2] == 'p' && s[i + 3] == 'o' && s[i + 4] == 'r' && s[i + 5] == 't'),
        text_at(s, i, "in"@) <==> (0 <= i && i + 2 <= s.len() && s[i] == 'i' && s[i + 1] == 'n'),
        text_at(s, i, "instance"@) <==> (0 <= i && i + 8 <= s.len() && s[i] == 'i' && s[i + 1] == 'n' && s[i + 2] == 's' && s[i + 3] == 't' && s[i + 4] == 'a' && s[i + 5] == 'n' && s[i + 6] == 'c' && s[i + 7] == 'e'),
        text_at(s, i, "let"@) <==> (0 <= i && i + 3 <= s.len() && s[i] == 'l' && s[i + 1] == 'e' && s[i + 2] == 't'),
        text_at(s, i, "newtype"@) <==> (0 <= i && i + 7 <= s.len() && s[i] == 'n' && s[i + 1] == 'e' && s[i + 2] == 'w' && s[i + 3] == 't' && s[i + 4] == 'y' && s[i + 5] == 'p' && s[i + 6] == 'e'),
        text_at(s, i, "of"@) <==> (0 <= i && i + 2 <= s.len() && s[i] == 'o' && s[i + 1] == 'f'),
        text_at(s, i, "public"@) <==> (0 <= i && i + 6 <= s.len() && s[i] == 'p' && s[i + 1] == 'u' && s[i + 2] == 'b' && s[i + 3] == 'l' && s[i + 4] == 'i' && s[i + 5] == 'c'),
        text_at(s, i, "r####\""@) <==> (0 <= i && i + 6 <= s.len() && s[i] == 'r' && s[i + 1] == '#' && s[i + 2] == '#' && s[i + 3] == '#' && s[i + 4] == '#' && s[i + 5] == '"'),
        text_at(s, i, "r###\""@) <==> (0 <= i && i + 5 <= s.len() && s[i] == 'r' && s[i + 1] == '#' && s[i + 2] == '#' && s[i + 3] == '#' && s[i + 4] == '"'),
        text_at(s, i, "r##\""@) <==> (0 <= i && i + 4 <= s.len() && s[i] == 'r' && s[i + 1] == '#' && s[i + 2] == '#' && s[i + 3] == '"'),
        text_at(s, i, "r#\""@) <==> (0 <= i && i + 3 <= s.len() && s[i] == 'r' && s[i + 1] == '#' && s[i + 2] == '"'),
        text_at(s, i, "type"@) <==> (0 <= i && i + 4 <= s.len() && s[i] == 't' && s[i + 1] == 'y' && s[i + 2] == 'p' && s[i + 3] == 'e'),
        text_at(s, i, "unqualified"@) <==> (0 <= i && i + 11 <= s.len() && s[i] == 'u' && s[i + 1] == 'n' && s[i + 2] == 'q' && s[i + 3] == 'u' && s[i + 4] == 'a' && s[i + 5] == 'l' && s[i + 6] == 'i' && s[i + 7] == 'f' && s[i + 8] == 'i' && s[i + 9] == 'e' && s[i + 10] == 'd'),
        text_at(s, i, "{"@) <==> (0 <= i && i + 1 <= s.len() && s[i] == '{'),
        text_at(s, i, "{-"@) <==> (0 <= i && i + 2 <= s.len() && s[i] == '{' && s[i + 1] == '-'),
        text_at(s, i, "{--"@) <==> (0 <= i && i + 3 <= s.len() && s[i] == '{' && s[i + 1] == '-' && s[i + 2] == '-'),
        text_at(s, i, "{---"@) <==> (0 <= i && i + 4 <= s.len() && s[i] == '{' && s[i + 1] == '-' && s[i + 2] == '-' && s[i + 3] == '-'),
        text_at(s, i, "{----"@) <==> (0 <= i && i + 5 <= s.len() && s[i] == '{' && s[i + 1] == '-' && s[i + 2] == '-' && s[i + 3] == '-' && s[i + 4] == '-'),
        text_at(s, i, "|"@) <==> (0 <= i && i + 1 <= s.len() && s[i] == '|'),
        text_at(s, i, "|>"@) <==> (0 <= i && i + 2 <= s.len() && s[i] == '|' && s[i + 1] == '>'),
        text_at(s, i, "||"@) <==> (0 <= i && i + 2 <= s.len() && s[i] == '|' && s[i + 1] == '|'),
        text_at(s, i, "}"@) <==> (0 <= i && i + 1 <= s.len() && s[i] == '}'),
{
    reveal_fixed_texts();
    lemma_text_1(s, i, '!');
    lemma_text_2(s, i, '!', '=');
    lemma_text_1(s, i, '#');
    lemma_text_1(s, i, '$');
    lemma_text_2(s, i, '$', '>');
    lemma_text_1(s, i, '%');
    lemma_text_1(s, i, '&');
    lemma_text_2(s, i, '&', '&');
    lemma_text_1(s, i, '\'');
    lemma_text_2(s, i, '\'', '0');
    lemma_text_2(s, i, '\'', '1');
    lemma_text_4(s, i, '\'', 'i', 'n', 'f');
    lemma_text_1(s, i, '(');
    lemma_text_1(s, i, ')');
    lemma_text_1(s, i, '*');
    lemma_text_2(s, i, '*', '>');
    lemma_text_1(s, i, '+');
    lemma_text_1(s, i, ',');
    lemma_text_1(s, i, '-');
    lemma_text_2(s, i, '-', '-');
    lemma_text_2(s, i, '-', '>');
    lemma_text_1(s, i, '.');
    lemma_text_1(s, i, '/');
    lemma_text_2(s, i, '/', '/');
    lemma_text_2(s, i, '0', 'b');
    lemma_text_2(s, i, '0', 'o');
    lemma_text_2(s, i, '0', 'x');
    lemma_text_1(s, i, ':');
    lemma_text_2(s, i, ':', ':');
    lemma_text_1(s, i, ';');
    lemma_text_1(s, i, '<');
    lemma_text_2(s, i, '<', '$');
    lemma_text_3(s, i, '<', '$', '>');
    lemma_text_3(s, i, '<', '&', '>');
    lemma_text_2(s, i, '<', '*');
    lemma_text_3(s, i, '<', '*', '>');
    lemma_text_2(s, i, '<', '-');
    lemma_text_2(s, i, '<', '<');
    lemma_text_2(s, i, '<', '=');
    lemma_text_3(s, i, '<', '?', '>');
    lemma_text_2(s, i, '<', '|');
    lemma_text_3(s, i, '<', '|', '>');
    lemma_text_1(s, i, '=');
    lemma_text_2(s, i, '=', '=');
    lemma_text_1(s, i, '>');
    lemma_text_2(s, i, '>', '=');
    lemma_text_2(s, i, '>', '>');
    lemma_text_1(s, i, '?');
    lemma_text_1(s, i, '@');
    lemma_text_1(s, i, 'E');
    lemma_text_1(s, i, '[');
    lemma_text_1(s, i, '"');
    lemma_text_1(s, i, '\\');
    lemma_text_1(s, i, ']');
    lemma_text_1(s, i, '^');
    lemma_text_1(s, i, '_');
    lemma_text_1(s, i, '`');
    lemma_text_5(s, i, 'a', 'l', 'i', 'a', 's');
    lemma_text_2(s, i, 'a', 's');
    lemma_text_4(s, i, 'c', 'a', 's', 'e');
    lemma_text_5(s, i, 'c', 'l', 'a', 's', 's');
    lemma_text_4(s, i, 'd', 'a', 't', 'a');
    lemma_text_1(s, i, 'e');
    lemma_text_3(s, i, 'f', '#', '"');
    lemma_text_6(s, i, 'f', 'o', 'r', 'a', 'l', 'l');
    lemma_text_6(s, i, 'i', 'm', 'p', 'o', 'r', 't');
    lemma_text_2(s, i, 'i', 'n');
    lemma_text_8(s, i, 'i', 'n', 's', 't', 'a', 'n', 'c', 'e');
    lemma_text_3(s, i, 'l', 'e', 't');
    lemma_text_7(s, i, 'n', 'e', 'w', 't', 'y', 'p', 'e');
    lemma_text_2(s, i, 'o', 'f');
    lemma_text_6(s, i, 'p', 'u', 'b', 'l', 'i', 'c');
    lemma_text_6(s, i, 'r', '#', '#', '#', '#', '"');
    lemma_text_5(s, i, 'r', '#', '#', '#', '"');
    lemma_text_4(s, i, 'r', '#', '#', '"');
    lemma_text_3(s, i, 'r', '#', '"');
    lemma_text_4(s, i, 't', 'y', 'p', 'e');
    lemma_text_11(s, i, 'u', 'n', 'q', 'u', 'a', 'l', 'i', 'f', 'i', 'e', 'd');
    lemma_text_1(s, i, '{');
    lemma_text_2(s, i, '{', '-');
    lemma_text_3(s, i, '{', '-', '-');
    lemma_text_4(s, i, '{', '-', '-', '-');
    lemma_text_5(s, i, '{', '-', '-', '-', '-');
    lemma_text_1(s, i, '|');
    lemma_text_2(s, i, '|', '>');
    lemma_text_2(s, i, '|', '|');
    lemma_text_1(s, i, '}');
}

/// The punctuation at `i`, when it is a token, is the token of the text
/// that stands there.
proof fn lemma_punctuation_text(s: Seq<char>, i: int)
    ensures
        punctuation_at(s, i) matches Some((n, Lexeme::Fixed(t))) ==> symbol_text(t) == Some(s.subrange(i, i + n)),
{
    reveal_fixed_texts();
}

/// The bracket at `i` is the token of the text that stands there.
proof fn lemma_bracket_text(s: Seq<char>, i: int)
    ensures
        bracket_at(s, i) matches Some(t) ==> symbol_text(t) == Some(s.subrange(i, i + 1)),
{
    reveal_fixed_texts();
}

/// A word that is a keyword is that keyword's reserved word.
proof fn lemma_keyword_text(w: Seq<char>)
    ensures
        keyword(w) matches Some(k) ==> token_text(k) == Some(w),
{
}

/// No ownership or number lexeme has a fixed text.
proof fn lemma_ownership_no_text(s: Seq<char>, i: int)
    ensures
        lexeme_of_ownership_or_number(s, i) matches Some((Lexeme::Fixed(t), _)) ==> token_text(t) is None,
{
}

/// The word or number at `i`, when it is a token of fixed text, is the
/// token of the text that stands there.
proof fn lemma_word_text(s: Seq<char>, i: int)
    ensures
        lexeme_of_word_or_number(s, i) matches Some((Lexeme::Fixed(t), e)) ==> (token_text(t) matches Some(
            x,
        ) ==> s.subrange(i, e) == x),
{
    reveal_strlit("_");
    lemma_ownership_no_text(s, i);
    match identifier_end(s, i) {
        Some(e) => lemma_keyword_text(s.subrange(i, e)),
        None => {},
    }
}

/// A token of fixed text is lexed only where its text stands: when the
/// lexeme at `i` is such a token, the source from `i` to where the lexeme
/// ends is the token's text. So distinct texts give distinct tokens: `<=`
/// is never lexed as `>=`, nor a reserved word as another one.
pub proof fn lemma_fixed_token_text(s: Seq<char>, i: int)
    ensures
        lexeme_at(s, i) matches Some((Lexeme::Fixed(t), e)) ==> (token_text(t) matches Some(x) ==> s.subrange(
            i,
            e,
        ) == x),
{
    lemma_punctuation_text(s, i);
    lemma_bracket_text(s, i);
    lemma_word_text(s, i);
}

/// Two places lexed as the same token of fixed text hold the same text.
pub proof fn lemma_same_token_same_text(s1: Seq<char>, i1: int, e1: int, s2: Seq<char>, i2: int, e2: int, t: BaseToken)
    requires
        lexeme_at(s1, i1) == Some((Lexeme::Fixed(t), e1)),
        lexeme_at(s2, i2) == Some((Lexeme::Fixed(t), e2)),
        token_text(t) is Some,
    ensures
        s1.subrange(i1, e1) == s2.subrange(i2, e2),
{
    lemma_fixed_token_text(s1, i1);
    lemma_fixed_token_text(s2, i2);
}

/// The text of an operator, a punctuation mark or a bracket, followed by a
/// space or by the end of the source, is lexed as its token: `<=` as
/// `LessOrEqual`, `>=` as `MoreOrEqual`, `(` as `LParen`, and so on.
pub proof fn lemma_symbol_lexed(s: Seq<char>, i: int, t: BaseToken)
    requires
        symbol_text(t) matches Some(x) && text_at(s, i, x) && (i + x.len() == s.len() || s[i + x.len()] == ' '),
    ensures
        lexeme_at(s, i) == Some((Lexeme::Fixed(t), i + symbol_text(t)->0.len())),
{
    reveal_fixed_texts();
    lemma_fixed_texts_chars(s, i);
}

/// A reserved word that the source holds as a whole word (the identifier
/// that starts there ends with it) is lexed as its keyword, never as an
/// identifier: `data` as `Data`, `let` as `Let`, and so on.
pub proof fn lemma_reserved_word_lexed(s: Seq<char>, i: int, t: BaseToken)
    requires
        keyword_text(t) matches Some(w) && text_at(s, i, w) && identifier_end(s, i) == Some(i + w.len()),
    ensures
        lexeme_at(s, i) == Some((Lexeme::Fixed(t), i + keyword_text(t)->0.len())),
{
    reveal_fixed_texts();
    lemma_fixed_texts_chars(s, i);
}

} // verus!
