//! The lexer: it splits a source into tokens, and attaches to each token the
//! comments around it.
use vstd::prelude::*;
use crate::cst::base::TokenInfo;
use crate::cst::comments::{
    comment_span, lines_of, text_byte_len, Comment, CommentBlock, CommentLine, CommentLineContent,
    CommentsInfo,
};
use crate::identifier::{is_identifier_text, Identifier};
use crate::parser::report::{LexerReportKind, OctizysParserReport, ParserReport};
use crate::parser::scanner::{
    class_end, class_end_of, found_in, found_lexeme, is_comment_token, lemma_class_end,
    lemma_fixed_not_comment, lexeme_at, lexeme_of, CharClass, Found, Lexeme,
};
use crate::parser::tokens::{aux_base_token_to_token, token_base, token_info, BaseToken, Token};
use crate::parser::comment_flow::{
    emitted_spans, lemma_completion_conserves, lemma_parse_conserves, lemma_source_comments_run,
    remaining_spans, source_comments, spans_of, tracks,
};
use crate::cst::types::OwnershipVariable;
use crate::report::ReportKind;
use crate::span::{lemma_span_add_covers, span_union, Location, Position, Span};
use crate::store::{interned, interned_symbol, Store, StoreSymbol};
use crate::text::{byte_len, char_byte_width, char_width, chars_of, lemma_utf8_len_prefix, lemma_utf8_len_push, utf8_len};

verus! {

// ---------------------------------------------------------------------------
// Places in a source
// ---------------------------------------------------------------------------

/// The place after a char, from the place before it: a line break starts a
/// new line; any other char moves the column by its width in bytes.
pub open spec fn step_place(p: (int, int, int), c: char) -> (int, int, int) {
    if c == '\n' {
        (p.0 + char_width(c), p.1 + 1, 0)
    } else {
        (p.0 + char_width(c), p.1, p.2 + char_width(c))
    }
}

/// The place after the first `i` chars of `s`: its index in bytes, its line
/// and its column in bytes, all counted from zero.
pub open spec fn place_after(s: Seq<char>, i: int) -> (int, int, int)
    decreases i,
{
    if i <= 0 {
        (0, 0, 0)
    } else {
        step_place(place_after(s, i - 1), s[i - 1])
    }
}

/// The position after the first `i` chars of `s`.
pub open spec fn position_of(s: Seq<char>, i: int) -> Position {
    let p = place_after(s, i);
    Position { source_index: p.0 as usize, line: p.1 as usize, column: p.2 as usize }
}

/// The span of the chars from `i` to `j` of `s`.
pub open spec fn span_of(s: Seq<char>, i: int, j: int) -> Span {
    Span { start: position_of(s, i), end: position_of(s, j) }
}

/// A char takes one to four bytes.
pub proof fn lemma_char_width(c: char)
    ensures
        1 <= char_width(c) <= 4,
{
}

/// The index of a place is the length in bytes of the text before it, and
/// neither its line nor its column exceeds it.
pub proof fn lemma_place_after(s: Seq<char>, i: int)
    requires
        0 <= i <= s.len(),
    ensures
        place_after(s, i).0 == utf8_len(s.take(i)),
        0 <= place_after(s, i).1 <= place_after(s, i).0,
        0 <= place_after(s, i).2 <= place_after(s, i).0,
        place_after(s, i).0 <= utf8_len(s),
    decreases i,
{
    lemma_utf8_len_prefix(s, i);
    if i == 0 {
        assert(s.take(0) =~= Seq::<char>::empty());
    } else {
        lemma_place_after(s, i - 1);
        assert(s.take(i) =~= s.take(i - 1).push(s[i - 1]));
        lemma_utf8_len_push(s.take(i - 1), s[i - 1]);
        lemma_char_width(s[i - 1]);
    }
}

/// The report of the lexer of the given kind at the given place.
pub open spec fn lexer_error(k: LexerReportKind, location: Location) -> OctizysParserReport {
    OctizysParserReport { kind: ReportKind::Error, report: ParserReport::Lexer(k), location }
}

/// Makes the report of the lexer of the given kind at the given place.
fn make_error(k: LexerReportKind, location: Location) -> (r: OctizysParserReport)
    ensures
        r == lexer_error(k, location),
{
    OctizysParserReport { kind: ReportKind::Error, report: ParserReport::Lexer(k), location }
}

// ---------------------------------------------------------------------------
// From lexemes to tokens
// ---------------------------------------------------------------------------

/// Which token a name makes.
#[derive(Debug, Clone, Copy, PartialEq, Eq, Structural)]
pub enum NameRole {
    Plain,
    Infix,
    Ownership,
}

/// The token is a name of the given role, stored under `sym` with width `len`.
pub open spec fn names(t: BaseToken, role: NameRole, sym: StoreSymbol, len: usize) -> bool {
    match (role, t) {
        (NameRole::Plain, BaseToken::Identifier(id)) => id@ == (sym, len),
        (NameRole::Infix, BaseToken::InfixIdentifier(id)) => id@ == (sym, len),
        (NameRole::Ownership, BaseToken::OwnershipVariable(v)) => v.variable@ == (sym, len),
        _ => false,
    }
}

/// What the lexer gives for the name `t` of the given role over `span`,
/// with the identifiers of the store before and after.
pub open spec fn named(
    t: Seq<char>,
    role: NameRole,
    span: Span,
    r: Result<(Span, BaseToken), OctizysParserReport>,
    regular: Seq<Seq<char>>,
    regular2: Seq<Seq<char>>,
) -> bool {
    if is_identifier_text(t) {
        &&& r matches Ok((sp, tok)) && sp == span && names(
            tok,
            role,
            StoreSymbol(interned_symbol(regular, t)),
            t.len() as usize,
        )
        &&& regular2 == interned(regular, t)
    } else {
        &&& r == Err::<(Span, BaseToken), OctizysParserReport>(
            lexer_error(LexerReportKind::CantCreateIdentifier, Location::Span(span)),
        )
        &&& regular2 == regular
    }
}

/// The block holds the lines of `t`, stored in the comments of the store
/// from index `base` on.
pub open spec fn block_holds(b: CommentBlock, t: Seq<char>, base: int) -> bool {
    &&& b.content@.len() == lines_of(t).len()
    &&& forall|k: int|
        0 <= k < b.content@.len() ==> (#[trigger] b.content@[k]).get_index_spec() == base + k
            && b.content@[k].get_len_spec() == text_byte_len(lines_of(t)[k])
}

/// What the lexer gives for the lexeme `lx` found over `span`, with the
/// texts of the store before (`regular`, `comments`) and after (`regular2`,
/// `comments2`).
pub open spec fn lexed(
    lx: Lexeme,
    span: Span,
    r: Result<(Span, BaseToken), OctizysParserReport>,
    regular: Seq<Seq<char>>,
    comments: Seq<Seq<char>>,
    regular2: Seq<Seq<char>>,
    comments2: Seq<Seq<char>>,
) -> bool {
    match lx {
        Lexeme::Fixed(t) => r == Ok::<(Span, BaseToken), OctizysParserReport>((span, t))
            && regular2 == regular && comments2 == comments,
        Lexeme::Refused(k) => r == Err::<(Span, BaseToken), OctizysParserReport>(
            lexer_error(k, Location::Span(span)),
        ) && regular2 == regular && comments2 == comments,
        Lexeme::Name(t) => named(t, NameRole::Plain, span, r, regular, regular2) && comments2
            == comments,
        Lexeme::InfixName(t) => named(t, NameRole::Infix, span, r, regular, regular2) && comments2
            == comments,
        Lexeme::OwnershipName(t) => named(t, NameRole::Ownership, span, r, regular, regular2)
            && comments2 == comments,
        Lexeme::Line(kind, start, t) => regular2 == regular && if t.contains('\n') {
            r == Err::<(Span, BaseToken), OctizysParserReport>(
                lexer_error(LexerReportKind::CantCreateCommentLine, Location::Span(span)),
            ) && comments2 == comments
        } else {
            &&& r matches Ok((sp, BaseToken::LineComment(l))) && sp == span && l.kind == kind
                && l.start == start && l.span == span && l.content.get_index_spec()
                == comments.len() && l.content.get_len_spec() == text_byte_len(t)
            &&& comments2 == comments.push(t)
        },
        Lexeme::Block(kind, brace, t) => {
            &&& r matches Ok((sp, BaseToken::BlockComment(b))) && sp == span && b.kind == kind
                && b.brace == brace && b.span == span && block_holds(b, t, comments.len() as int)
            &&& comments2 == comments + lines_of(t)
            &&& regular2 == regular
        },
    }
}

/// Stores a name and makes its token, or reports that it is no identifier.
fn make_name(word: &str, role: NameRole, span: Span, store: &mut Store) -> (r: Result<
    (Span, BaseToken),
    OctizysParserReport,
>)
    ensures
        named(word@, role, span, r, old(store).regular@, final(store).regular@),
        final(store).comments@ == old(store).comments@,
{
    match Identifier::make(word, store) {
        Ok(id) => {
            let t = match role {
                NameRole::Plain => BaseToken::Identifier(id),
                NameRole::Infix => BaseToken::InfixIdentifier(id),
                NameRole::Ownership => BaseToken::OwnershipVariable(OwnershipVariable { variable: id }),
            };
            Ok((span, t))
        },
        Err(_) => Err(make_error(LexerReportKind::CantCreateIdentifier, Location::Span(span))),
    }
}

/// What one step of the lexer gives, from offset `i` of `s` to offset `i2`,
/// with the texts of the store before and after: white space is skipped,
/// then `None` at the end of the source, a report without moving where no
/// rule matches, and otherwise the token of the lexeme found.
pub open spec fn base_step(
    s: Seq<char>,
    i: int,
    r: Option<Result<(Span, BaseToken), OctizysParserReport>>,
    i2: int,
    regular: Seq<Seq<char>>,
    comments: Seq<Seq<char>>,
    regular2: Seq<Seq<char>>,
    comments2: Seq<Seq<char>>,
) -> bool {
    let j = class_end(s, i, CharClass::WhiteSpace);
    if j >= s.len() {
        r is None && i2 == j && regular2 == regular && comments2 == comments
    } else {
        match lexeme_at(s, j) {
            None => r == Some(
                Err::<(Span, BaseToken), OctizysParserReport>(
                    lexer_error(LexerReportKind::UnexpectedCharacter, Location::Position(position_of(s, j))),
                ),
            ) && i2 == j && regular2 == regular && comments2 == comments,
            Some((lx, e)) => i2 == e && j < e <= s.len() && (r matches Some(x) && lexed(
                lx,
                span_of(s, j, e),
                x,
                regular,
                comments,
                regular2,
                comments2,
            )),
        }
    }
}

// ---------------------------------------------------------------------------
// The lexer of base tokens
// ---------------------------------------------------------------------------

/// A source being read, and how far it was read.
#[derive(Debug)]
pub struct BaseLexerContext<'source> {
    /// The source.
    source: &'source str,
    /// The chars of the source.
    chars: Vec<char>,
    /// How many chars were read.
    index: usize,
    /// The position after the chars that were read.
    position: Position,
    /// The line of the last token.
    last_line: usize,
}

impl<'source> BaseLexerContext<'source> {
    /// The text of the source.
    pub closed spec fn text(&self) -> Seq<char> {
        self.source@
    }

    /// How many chars of the source were read.
    pub closed spec fn offset(&self) -> int {
        self.index as int
    }

    /// The chars are those of the source, the offset lies in it, and the
    /// position is the one after the chars that were read.
    pub closed spec fn wf(&self) -> bool {
        &&& self.chars@ == self.source@
        &&& self.index <= self.chars@.len()
        &&& utf8_len(self.source@) <= usize::MAX
        &&& self.position == position_of(self.source@, self.index as int)
    }

    /// A lexer at the start of the source.
    pub fn new(source: &'source str) -> (r: Self)
        ensures
            r.wf(),
            r.text() == source@,
            r.offset() == 0,
    {
        let n = byte_len(source);
        let chars = chars_of(source);
        BaseLexerContext { source, chars, index: 0, position: Position { source_index: 0, line: 0, column: 0 }, last_line: 0 }
    }

    /// The position after the chars that were read.
    pub fn position(&self) -> (p: Position)
        requires
            self.wf(),
        ensures
            p == position_of(self.text(), self.offset()),
    {
        self.position
    }

    /// Reads the chars up to `e`, and returns the span that they cover.
    fn advance(&mut self, e: usize) -> (span: Span)
        requires
            old(self).wf(),
            old(self).offset() <= e <= old(self).text().len(),
        ensures
            final(self).wf(),
            final(self).text() == old(self).text(),
            final(self).offset() == e,
            span == span_of(old(self).text(), old(self).offset(), e as int),
    {
        let start = self.position;
        let ghost s = self.source@;
        while self.index < e
            invariant
                self.wf(),
                self.source@ == s,
                self.index <= e <= s.len(),
                start == position_of(s, old(self).index as int),
            decreases e - self.index,
        {
            let k = self.index;
            let c = self.chars[k];
            proof {
                lemma_place_after(s, k as int);
                lemma_place_after(s, k + 1);
                lemma_char_width(c);
            }
            let w = char_byte_width(c);
            let p = self.position;
            let next = if c == '\n' {
                Position { source_index: p.source_index + w, line: p.line + 1, column: 0 }
            } else {
                Position { source_index: p.source_index + w, line: p.line, column: p.column + w }
            };
            self.position = next;
            self.index = k + 1;
        }
        Span { start, end: self.position }
    }

    /// Reads the white space from the current place on.
    fn consume_spaces(&mut self) -> (span: Span)
        requires
            old(self).wf(),
        ensures
            final(self).wf(),
            final(self).text() == old(self).text(),
            final(self).offset() == class_end(old(self).text(), old(self).offset(), CharClass::WhiteSpace),
            span == span_of(old(self).text(), old(self).offset(), final(self).offset()),
    {
        let e = class_end_of(&self.chars, self.index, CharClass::WhiteSpace);
        self.advance(e)
    }

    /// Makes the token of a lexeme found over `span`.
    fn make_token(&self, found: Found, span: Span, store: &mut Store) -> (r: Result<
        (Span, BaseToken),
        OctizysParserReport,
    >)
        requires
            self.wf(),
            found_in(self.text(), found),
        ensures
            lexed(
                found_lexeme(self.text(), found),
                span,
                r,
                old(store).regular@,
                old(store).comments@,
                final(store).regular@,
                final(store).comments@,
            ),
    {
        match found {
            Found::Token(t) => Ok((span, t)),
            Found::Refused(k) => Err(make_error(k, Location::Span(span))),
            Found::Name(a, b) => make_name(self.source.substring_char(a, b), NameRole::Plain, span, store),
            Found::InfixName(a, b) => make_name(self.source.substring_char(a, b), NameRole::Infix, span, store),
            Found::OwnershipName(a, b) => make_name(self.source.substring_char(a, b), NameRole::Ownership, span, store),
            Found::Line(kind, start, a, b) => {
                let text = self.source.substring_char(a, b);
                match CommentLineContent::make_register(text, store) {
                    Some(content) => Ok((span, BaseToken::LineComment(CommentLine { kind, start, content, span }))),
                    None => Err(make_error(LexerReportKind::CantCreateCommentLine, Location::Span(span))),
                }
            },
            Found::Block(kind, brace, a, b) => {
                let text = self.source.substring_char(a, b);
                let block = CommentBlock::make(kind, brace, text, span.start, span.end, store);
                Ok((span, BaseToken::BlockComment(block)))
            },
        }
    }

    /// Reads the next token: white space is skipped, then the first rule that
    /// matches makes the token (see [`lexeme_at`]). `None` at the end of the
    /// source; a report, without moving, where no rule matches.
    pub fn next(&mut self, store: &mut Store) -> (r: Option<Result<(Span, BaseToken), OctizysParserReport>>)
        requires
            old(self).wf(),
        ensures
            final(self).wf(),
            final(self).text() == old(self).text(),
            base_step(
                old(self).text(),
                old(self).offset(),
                r,
                final(self).offset(),
                old(store).regular@,
                old(store).comments@,
                final(store).regular@,
                final(store).comments@,
            ),
    {
        self.consume_spaces();
        let len = self.chars.len();
        if self.index >= len {
            return None;
        }
        let j = self.index;
        match lexeme_of(&self.chars, j) {
            None => Some(Err(make_error(LexerReportKind::UnexpectedCharacter, Location::Position(self.position)))),
            Some((found, e)) => {
                let span = self.advance(e);
                Some(self.make_token(found, span, store))
            },
        }
    }
}

// ---------------------------------------------------------------------------
// Runs of comments
// ---------------------------------------------------------------------------

/// The lexeme makes a comment token.
pub open spec fn comment_lexeme(lx: Lexeme) -> bool {
    match lx {
        Lexeme::Line(_, _, t) => !t.contains('\n'),
        Lexeme::Block(_, _, _) => true,
        _ => false,
    }
}

/// The texts that the comment of a lexeme puts in the store.
pub open spec fn stored_texts(lx: Lexeme) -> Seq<Seq<char>> {
    match lx {
        Lexeme::Line(_, _, t) => seq![t],
        Lexeme::Block(_, _, t) => lines_of(t),
        _ => Seq::empty(),
    }
}

/// The texts that a run of comments puts in the store, in order.
pub open spec fn stored_run(run: Seq<(Lexeme, Span)>) -> Seq<Seq<char>>
    decreases run.len(),
{
    if run.len() == 0 {
        Seq::empty()
    } else {
        stored_run(run.drop_last()) + stored_texts(run.last().0)
    }
}

/// The comment is the one of the lexeme over the span, its texts stored in
/// the comments of the store from index `base` on.
pub open spec fn comment_is(c: Comment, lx: Lexeme, span: Span, base: int) -> bool {
    match (c, lx) {
        (Comment::Line(l), Lexeme::Line(kind, start, t)) => l.kind == kind && l.start == start
            && l.span == span && l.content.get_index_spec() == base && l.content.get_len_spec()
            == text_byte_len(t),
        (Comment::Block(b), Lexeme::Block(kind, brace, t)) => b.kind == kind && b.brace == brace
            && b.span == span && block_holds(b, t, base),
        _ => false,
    }
}

/// The comments are those of the run, in order, their texts stored from
/// index `base` on.
pub open spec fn run_comments(cs: Seq<Comment>, run: Seq<(Lexeme, Span)>, base: int) -> bool {
    &&& cs.len() == run.len()
    &&& forall|k: int|
        0 <= k < run.len() ==> comment_is(
            #[trigger] cs[k],
            run[k].0,
            run[k].1,
            base + stored_run(run.take(k)).len(),
        )
}

/// The comments that the lexer reads from offset `i` of `s` on, each with
/// its lexeme and span, up to the first lexeme that makes no comment; and
/// the offset after the last of them.
pub open spec fn comment_run(s: Seq<char>, i: int) -> (Seq<(Lexeme, Span)>, int)
    decreases s.len() - i,
{
    let j = class_end(s, i, CharClass::WhiteSpace);
    if i <= j < s.len() {
        match lexeme_at(s, j) {
            Some((lx, e)) => if comment_lexeme(lx) && j < e <= s.len() {
                let rest = comment_run(s, e);
                (seq![(lx, span_of(s, j, e))] + rest.0, rest.1)
            } else {
                (Seq::empty(), i)
            },
            None => (Seq::empty(), i),
        }
    } else {
        (Seq::empty(), i)
    }
}

/// The comment that a comment token holds.
pub open spec fn token_comment(t: BaseToken) -> Comment {
    match t {
        BaseToken::LineComment(l) => Comment::Line(l),
        BaseToken::BlockComment(b) => Comment::Block(b),
        _ => arbitrary(),
    }
}

/// A step of the lexer that gives a comment reads the first comment of the
/// run, and stores its texts.
proof fn lemma_comment_step(
    s: Seq<char>,
    off: int,
    r: Option<Result<(Span, BaseToken), OctizysParserReport>>,
    i2: int,
    regular: Seq<Seq<char>>,
    comments: Seq<Seq<char>>,
    regular2: Seq<Seq<char>>,
    comments2: Seq<Seq<char>>,
) -> (item: (Lexeme, Span))
    requires
        0 <= off <= s.len(),
        base_step(s, off, r, i2, regular, comments, regular2, comments2),
        r matches Some(Ok((_, t))) && is_comment_token(t),
    ensures
        comment_lexeme(item.0),
        off < i2 <= s.len(),
        comment_run(s, off).0 == seq![item] + comment_run(s, i2).0,
        comment_run(s, off).1 == comment_run(s, i2).1,
        regular2 == regular,
        comments2 == comments + stored_texts(item.0),
        r matches Some(Ok((_, t))) && comment_is(token_comment(t), item.0, item.1, comments.len() as int),
{
    let j = class_end(s, off, CharClass::WhiteSpace);
    lemma_class_end(s, off, CharClass::WhiteSpace);
    lemma_fixed_not_comment(s, j);
    let (lx, e) = lexeme_at(s, j)->0;
    let item = (lx, span_of(s, j, e));
    assert(seq![item] + comment_run(s, e).0 =~= comment_run(s, off).0);
    item
}

/// A step of the lexer that gives no comment ends the run.
proof fn lemma_no_comment_step(
    s: Seq<char>,
    off: int,
    r: Option<Result<(Span, BaseToken), OctizysParserReport>>,
    i2: int,
    regular: Seq<Seq<char>>,
    comments: Seq<Seq<char>>,
    regular2: Seq<Seq<char>>,
    comments2: Seq<Seq<char>>,
)
    requires
        0 <= off <= s.len(),
        base_step(s, off, r, i2, regular, comments, regular2, comments2),
        !(r matches Some(Ok((_, t))) && is_comment_token(t)),
    ensures
        comment_run(s, off).0 == Seq::<(Lexeme, Span)>::empty(),
        comment_run(s, off).1 == off,
{
    let j = class_end(s, off, CharClass::WhiteSpace);
    lemma_class_end(s, off, CharClass::WhiteSpace);
}

/// Adding a comment to a run of comments.
proof fn lemma_run_push(
    cs: Seq<Comment>,
    run: Seq<(Lexeme, Span)>,
    base: int,
    c: Comment,
    item: (Lexeme, Span),
)
    requires
        run_comments(cs, run, base),
        comment_is(c, item.0, item.1, base + stored_run(run).len()),
    ensures
        run_comments(cs.push(c), run.push(item), base),
        stored_run(run.push(item)) == stored_run(run) + stored_texts(item.0),
{
    assert(run.push(item).drop_last() =~= run);
    assert(run.push(item).take(run.len() as int) =~= run);
    assert forall|k: int| 0 <= k < run.len() implies run.push(item).take(k) == run.take(k) by {
        assert(run.push(item).take(k) =~= run.take(k));
    }
}

/// Reads comments into `acc` until a token that is not a comment, and
/// returns that token (or the report, or `None` at the end of the source).
pub fn accumulate_comments(
    lexer: &mut BaseLexerContext,
    store: &mut Store,
    acc: &mut Vec<Comment>,
) -> (r: Option<Result<(Span, BaseToken), OctizysParserReport>>)
    requires
        old(lexer).wf(),
    ensures
        final(lexer).wf(),
        final(lexer).text() == old(lexer).text(),
        ({
            let s = old(lexer).text();
            let run = comment_run(s, old(lexer).offset()).0;
            let m = comment_run(s, old(lexer).offset()).1;
            &&& final(acc)@.len() == old(acc)@.len() + run.len()
            &&& final(acc)@.take(old(acc)@.len() as int) == old(acc)@
            &&& run_comments(
                final(acc)@.skip(old(acc)@.len() as int),
                run,
                old(store).comments@.len() as int,
            )
            &&& base_step(
                s,
                m,
                r,
                final(lexer).offset(),
                old(store).regular@,
                old(store).comments@ + stored_run(run),
                final(store).regular@,
                final(store).comments@,
            )
        }),
        r matches Some(Ok((_, t))) ==> !is_comment_token(t),
{
    let ghost s = lexer.text();
    let ghost i0 = lexer.offset();
    let ghost acc0 = acc@;
    let ghost com0 = store.comments@;
    let ghost reg0 = store.regular@;
    let ghost mut done: Seq<(Lexeme, Span)> = Seq::empty();
    proof {
        assert(acc@.take(acc0.len() as int) =~= acc0);
        assert(acc@.skip(acc0.len() as int) =~= Seq::<Comment>::empty());
        assert(done + comment_run(s, i0).0 =~= comment_run(s, i0).0);
        assert(com0 + stored_run(done) =~= com0);
    }
    loop
        invariant
            s == old(lexer).text(),
            i0 == old(lexer).offset(),
            acc0 == old(acc)@,
            com0 == old(store).comments@,
            reg0 == old(store).regular@,
            lexer.wf(),
            lexer.text() == s,
            comment_run(s, i0).0 == done + comment_run(s, lexer.offset()).0,
            comment_run(s, i0).1 == comment_run(s, lexer.offset()).1,
            acc@.len() == acc0.len() + done.len(),
            acc@.take(acc0.len() as int) == acc0,
            run_comments(acc@.skip(acc0.len() as int), done, com0.len() as int),
            store.comments@ == com0 + stored_run(done),
            store.regular@ == reg0,
        decreases s.len() - lexer.offset(),
    {
        let ghost off = lexer.offset();
        let ghost com1 = store.comments@;
        let ghost before = acc@;
        let r = lexer.next(store);
        let ghost g = r;
        let comment = match r {
            Some(Ok((_, BaseToken::LineComment(l)))) => Comment::Line(l),
            Some(Ok((_, BaseToken::BlockComment(b)))) => Comment::Block(b),
            other => {
                proof {
                    lemma_no_comment_step(s, off, other, lexer.offset(), reg0, com1, store.regular@, store.comments@);
                    assert(done + comment_run(s, off).0 =~= done);
                }
                return other;
            },
        };
        proof {
            let item = lemma_comment_step(s, off, g, lexer.offset(), reg0, com1, store.regular@, store.comments@);
            assert(g matches Some(Ok((_, t))) && comment == token_comment(t));
            lemma_run_push(before.skip(acc0.len() as int), done, com0.len() as int, comment, item);
            assert(done + comment_run(s, off).0 =~= done.push(item) + comment_run(s, lexer.offset()).0);
            assert(com0 + stored_run(done.push(item)) =~= com1 + stored_texts(item.0));
            done = done.push(item);
        }
        acc.push(comment);
        proof {
            assert(acc@.take(acc0.len() as int) =~= acc0);
            assert(acc@.skip(acc0.len() as int) =~= before.skip(acc0.len() as int).push(comment));
        }
    }
}

// ---------------------------------------------------------------------------
// Comments on the line of a token
// ---------------------------------------------------------------------------

/// The comments of `cs` that start on the line, in order.
pub open spec fn on_line(cs: Seq<Comment>, line: int) -> Seq<Comment>
    decreases cs.len(),
{
    if cs.len() == 0 {
        Seq::empty()
    } else if comment_span(cs.last()).start.line == line {
        on_line(cs.drop_last(), line).push(cs.last())
    } else {
        on_line(cs.drop_last(), line)
    }
}

/// The comments of `cs` that start on another line, in order.
pub open spec fn off_line(cs: Seq<Comment>, line: int) -> Seq<Comment>
    decreases cs.len(),
{
    if cs.len() == 0 {
        Seq::empty()
    } else if comment_span(cs.last()).start.line != line {
        off_line(cs.drop_last(), line).push(cs.last())
    } else {
        off_line(cs.drop_last(), line)
    }
}

/// The items of a vector, last first.
fn reversed<T>(v: Vec<T>) -> (r: Vec<T>)
    ensures
        r@ == v@.reverse(),
{
    let mut v = v;
    let ghost orig = v@;
    let mut r: Vec<T> = Vec::new();
    while v.len() > 0
        invariant
            v@ == orig.take(v@.len() as int),
            r@ == orig.reverse().take(orig.len() - v@.len()),
            v@.len() <= orig.len(),
        decreases v@.len(),
    {
        let ghost n = v@.len();
        let x = v.pop().unwrap();
        proof {
            assert(orig.reverse().take(orig.len() - (n - 1)) =~= orig.reverse().take(orig.len() - n).push(orig[n - 1]));
            assert(v@ =~= orig.take(n - 1));
        }
        r.push(x);
    }
    proof {
        assert(orig.reverse().take(orig.len() as int) =~= orig.reverse());
    }
    r
}

/// Splits comments into those that start on the line and the others,
/// keeping their order.
pub fn split_comments_by_line(line: usize, acc: Vec<Comment>) -> (r: (Vec<Comment>, Vec<Comment>))
    ensures
        r.0@ == on_line(acc@, line as int),
        r.1@ == off_line(acc@, line as int),
{
    let ghost orig = acc@;
    let n = acc.len();
    let mut rest = reversed(acc);
    let mut same_line: Vec<Comment> = Vec::new();
    let mut not_same_line: Vec<Comment> = Vec::new();
    while rest.len() > 0
        invariant
            n == orig.len(),
            rest@.len() <= n,
            rest@ == orig.subrange(n - rest@.len(), n as int).reverse(),
            same_line@ == on_line(orig.take(n - rest@.len()), line as int),
            not_same_line@ == off_line(orig.take(n - rest@.len()), line as int),
        decreases rest@.len(),
    {
        let ghost k = n - rest@.len();
        let c = rest.pop().unwrap();
        proof {
            assert(c == orig[k]);
            assert(rest@ =~= orig.subrange(k + 1, n as int).reverse());
            assert(orig.take(k + 1).drop_last() =~= orig.take(k));
            assert(orig.take(k + 1).last() == orig[k]);
        }
        if c.get_span().start.line == line {
            same_line.push(c);
        } else {
            not_same_line.push(c);
        }
    }
    proof {
        assert(orig.take(n as int) =~= orig);
    }
    (same_line, not_same_line)
}

/// Splitting by a line parts the comments: each comment goes to the
/// comments on the line if it starts on it, and to the others if not, and
/// no other comment goes to either.
pub proof fn lemma_split_partition(cs: Seq<Comment>, line: int)
    ensures
        on_line(cs, line).len() + off_line(cs, line).len() == cs.len(),
        forall|k: int|
            0 <= k < cs.len() && comment_span(#[trigger] cs[k]).start.line == line ==> on_line(
                cs,
                line,
            ).contains(cs[k]),
        forall|k: int|
            0 <= k < cs.len() && comment_span(#[trigger] cs[k]).start.line != line ==> off_line(
                cs,
                line,
            ).contains(cs[k]),
        forall|c: Comment| #[trigger] on_line(cs, line).contains(c) ==> cs.contains(c) && comment_span(c).start.line == line,
        forall|c: Comment| #[trigger] off_line(cs, line).contains(c) ==> cs.contains(c) && comment_span(c).start.line != line,
    decreases cs.len(),
{
    if cs.len() > 0 {
        let rest = cs.drop_last();
        lemma_split_partition(rest, line);
        assert forall|k: int| 0 <= k < rest.len() implies #[trigger] cs[k] == rest[k] by {}
        assert forall|c: Comment| rest.contains(c) implies cs.contains(c) by {
            let k = choose|k: int| 0 <= k < rest.len() && rest[k] == c;
            assert(cs[k] == c);
        }
        assert(cs.contains(cs.last())) by {
            assert(cs[cs.len() - 1] == cs.last());
        }
        let l = cs.last();
        if comment_span(l).start.line == line {
            assert(on_line(cs, line) == on_line(rest, line).push(l));
            assert(on_line(cs, line)[on_line(rest, line).len() as int] == l);
            assert forall|c: Comment| on_line(rest, line).contains(c) implies on_line(cs, line).contains(c) by {
                let k = choose|k: int| 0 <= k < on_line(rest, line).len() && on_line(rest, line)[k] == c;
                assert(on_line(cs, line)[k] == c);
            }
            assert forall|c: Comment| #[trigger] on_line(cs, line).contains(c) implies cs.contains(c) && comment_span(c).start.line == line by {
                let k = choose|k: int| 0 <= k < on_line(cs, line).len() && on_line(cs, line)[k] == c;
                if k < on_line(rest, line).len() {
                    assert(on_line(rest, line)[k] == c);
                    assert(on_line(rest, line).contains(c));
                    assert(rest.contains(c));
                } else {
                    assert(c == l);
                }
            }
        } else {
            assert(off_line(cs, line) == off_line(rest, line).push(l));
            assert(off_line(cs, line)[off_line(rest, line).len() as int] == l);
            assert forall|c: Comment| off_line(rest, line).contains(c) implies off_line(cs, line).contains(c) by {
                let k = choose|k: int| 0 <= k < off_line(rest, line).len() && off_line(rest, line)[k] == c;
                assert(off_line(cs, line)[k] == c);
            }
            assert forall|c: Comment| #[trigger] off_line(cs, line).contains(c) implies cs.contains(c) && comment_span(c).start.line != line by {
                let k = choose|k: int| 0 <= k < off_line(cs, line).len() && off_line(cs, line)[k] == c;
                if k < off_line(rest, line).len() {
                    assert(off_line(rest, line)[k] == c);
                    assert(off_line(rest, line).contains(c));
                    assert(rest.contains(c));
                } else {
                    assert(c == l);
                }
            }
        }
    }
}

/// A step of the lexer never moves back, and a step that gives a token or a
/// report about a piece of the source moves forward.
pub proof fn lemma_step_advances(
    s: Seq<char>,
    i: int,
    r: Option<Result<(Span, BaseToken), OctizysParserReport>>,
    i2: int,
    regular: Seq<Seq<char>>,
    comments: Seq<Seq<char>>,
    regular2: Seq<Seq<char>>,
    comments2: Seq<Seq<char>>,
)
    requires
        0 <= i <= s.len(),
        base_step(s, i, r, i2, regular, comments, regular2, comments2),
    ensures
        i <= i2 <= s.len(),
        r matches Some(Ok(_)) ==> i < i2,
{
    lemma_class_end(s, i, CharClass::WhiteSpace);
}

/// The span that covers `init` and the spans of the comments, taken in order.
pub open spec fn fold_spans(init: Span, cs: Seq<Comment>) -> Span
    decreases cs.len(),
{
    if cs.len() == 0 {
        init
    } else {
        span_union(fold_spans(init, cs.drop_last()), comment_span(cs.last()))
    }
}

/// The span of the last comments: from the span of the last one, covering
/// the others in order.
pub open spec fn last_comments_span(cs: Seq<Comment>) -> Span {
    fold_spans(comment_span(cs.last()), cs.drop_last())
}

/// The covering span of comments covers the first span and each comment.
pub proof fn lemma_fold_spans_covers(init: Span, cs: Seq<Comment>)
    ensures
        fold_spans(init, cs).start.source_index <= init.start.source_index,
        fold_spans(init, cs).end.source_index >= init.end.source_index,
        forall|k: int|
            0 <= k < cs.len() ==> fold_spans(init, cs).start.source_index <= comment_span(
                #[trigger] cs[k],
            ).start.source_index && fold_spans(init, cs).end.source_index >= comment_span(
                cs[k],
            ).end.source_index,
    decreases cs.len(),
{
    if cs.len() > 0 {
        lemma_fold_spans_covers(init, cs.drop_last());
        lemma_span_add_covers(fold_spans(init, cs.drop_last()), comment_span(cs.last()));
        assert forall|k: int| 0 <= k < cs.len() - 1 implies cs[k] == cs.drop_last()[k] by {}
    }
}

/// The token of the comments `cs` at the end of the source: it holds them
/// all, and its span covers them; `None` without comments.
pub open spec fn last_token(cs: Seq<Comment>, r: Option<(Position, Token, Position)>) -> bool {
    &&& cs.len() == 0 ==> r is None
    &&& cs.len() > 0 ==> (r matches Some((a, Token::LastComments(info, v), b)) && v@ == cs
        && info.span == last_comments_span(cs) && a == info.span.start && b == info.span.end
        && info.comments.before@.len() == 0 && info.comments.after@.len() == 0)
}

/// The token of the comments at the end of the source, after the last
/// token: it holds them all, and its span covers them; `None` without comments.
pub fn make_last_comment_token(comments: Vec<Comment>) -> (r: Option<(Position, Token, Position)>)
    ensures
        last_token(comments@, r),
{
    let mut comments = comments;
    let ghost orig = comments@;
    let last_comment = match comments.pop() {
        Some(c) => c,
        None => {
            return None;
        },
    };
    let mut span = last_comment.get_span();
    let mut k: usize = 0;
    while k < comments.len()
        invariant
            comments@ == orig.drop_last(),
            k <= comments@.len(),
            span == fold_spans(comment_span(orig.last()), orig.drop_last().take(k as int)),
        decreases comments@.len() - k,
    {
        proof {
            assert(orig.drop_last().take(k + 1).drop_last() =~= orig.drop_last().take(k as int));
        }
        span = span + comments[k].get_span();
        k = k + 1;
    }
    proof {
        assert(orig.drop_last().take(k as int) =~= orig.drop_last());
    }
    let info = TokenInfo::make(CommentsInfo::empty(), span.start, span.end);
    comments.push(last_comment);
    proof {
        assert(comments@ =~= orig);
    }
    Some((span.start, Token::LastComments(info, comments), span.end))
}

/// The span of the last comments token covers every comment it holds.
pub proof fn lemma_last_comments_cover(cs: Seq<Comment>)
    requires
        cs.len() > 0,
    ensures
        forall|k: int|
            0 <= k < cs.len() ==> last_comments_span(cs).start.source_index <= comment_span(
                #[trigger] cs[k],
            ).start.source_index && last_comments_span(cs).end.source_index >= comment_span(
                cs[k],
            ).end.source_index,
{
    lemma_fold_spans_covers(comment_span(cs.last()), cs.drop_last());
    assert forall|k: int| 0 <= k < cs.len() implies last_comments_span(cs).start.source_index
        <= comment_span(#[trigger] cs[k]).start.source_index && last_comments_span(cs).end.source_index
        >= comment_span(cs[k]).end.source_index by {
        if k < cs.len() - 1 {
            assert(cs[k] == cs.drop_last()[k]);
        }
    }
}

// ---------------------------------------------------------------------------
// The lexer of tokens with their comments
// ---------------------------------------------------------------------------

/// A token found ahead, with its information, or the comments at the end of
/// the source.
#[derive(Debug)]
pub enum BaseOrComments {
    Base(BaseToken, TokenInfo),
    Comments(Vec<Comment>),
}

/// A lexer that attaches to each token the comments around it: the
/// comments before a token, and those after it on the line where it ends.
#[derive(Debug)]
pub struct LexerContext<'src> {
    /// What was read ahead: the next token, the comments at the end, or a
    /// report (with the comments before it).
    previous_token: Option<Result<(Span, BaseOrComments), (Vec<Comment>, OctizysParserReport)>>,
    /// The lexer of base tokens.
    lexer: BaseLexerContext<'src>,
}

/// A completed token: the base token with its information, the `before`
/// comments that it had and the `after` comments found behind it.
pub open spec fn token_completed(
    r: Option<Result<(Position, Token, Position), (Vec<Comment>, OctizysParserReport)>>,
    tok: BaseToken,
    before: Seq<Comment>,
    span: Span,
    after: Seq<Comment>,
) -> bool {
    r matches Some(Ok((a, t, b))) && a == span.start && b == span.end && token_base(t) == Some(tok)
        && token_info(t).span == span && token_info(t).comments.before@ == before
        && token_info(t).comments.after@ == after
}

/// What is kept for the next call after the token over `span`, given what
/// the lexer found behind its comments (`x`), and the comments `rest` that
/// were not on the token's line.
pub open spec fn pending_after(
    x: Option<Result<(Span, BaseToken), OctizysParserReport>>,
    p: Option<Result<(Span, BaseOrComments), (Vec<Comment>, OctizysParserReport)>>,
    rest: Seq<Comment>,
    span: Span,
) -> bool {
    match x {
        Some(Ok((nspan, ntok))) => (p matches Some(Ok((sp, BaseOrComments::Base(t, ninfo))))
            && sp == span && t == ntok && ninfo.span == nspan && ninfo.comments.before@ == rest
            && ninfo.comments.after@.len() == 0),
        Some(Err(e)) => (p matches Some(Err((v, e2))) && v@ == rest && e2 == e),
        None => if rest.len() > 0 {
            (p matches Some(Ok((sp, BaseOrComments::Comments(v)))) && v@ == rest && sp
                == fold_spans(comment_span(rest[0]), rest))
        } else {
            p is None
        },
    }
}

/// Completing the token `tok` from offset `i` of `s`: the run of comments
/// `cs` behind it is read, then what follows (`x`); the comments on the line
/// where the token ends become its after comments, and the others go with
/// what follows.
pub open spec fn completed_with(
    s: Seq<char>,
    i: int,
    tok: BaseToken,
    before: Seq<Comment>,
    span: Span,
    r: Option<Result<(Position, Token, Position), (Vec<Comment>, OctizysParserReport)>>,
    p: Option<Result<(Span, BaseOrComments), (Vec<Comment>, OctizysParserReport)>>,
    i2: int,
    regular: Seq<Seq<char>>,
    comments: Seq<Seq<char>>,
    regular2: Seq<Seq<char>>,
    comments2: Seq<Seq<char>>,
    cs: Seq<Comment>,
    x: Option<Result<(Span, BaseToken), OctizysParserReport>>,
) -> bool {
    let run = comment_run(s, i).0;
    let m = comment_run(s, i).1;
    &&& run_comments(cs, run, comments.len() as int)
    &&& base_step(s, m, x, i2, regular, comments + stored_run(run), regular2, comments2)
    &&& token_completed(r, tok, before, span, on_line(cs, span.end.line as int))
    &&& pending_after(x, p, off_line(cs, span.end.line as int), span)
}

/// A completion keeps every comment that it reads: each goes either to the
/// after comments of the token, when it starts on the line where the token
/// ends, or to what follows, when not.
pub proof fn lemma_completion_keeps_comments(
    s: Seq<char>,
    i: int,
    tok: BaseToken,
    before: Seq<Comment>,
    span: Span,
    r: Option<Result<(Position, Token, Position), (Vec<Comment>, OctizysParserReport)>>,
    p: Option<Result<(Span, BaseOrComments), (Vec<Comment>, OctizysParserReport)>>,
    i2: int,
    regular: Seq<Seq<char>>,
    comments: Seq<Seq<char>>,
    regular2: Seq<Seq<char>>,
    comments2: Seq<Seq<char>>,
    cs: Seq<Comment>,
    x: Option<Result<(Span, BaseToken), OctizysParserReport>>,
)
    requires
        completed_with(s, i, tok, before, span, r, p, i2, regular, comments, regular2, comments2, cs, x),
    ensures
        cs.len() == comment_run(s, i).0.len(),
        r matches Some(Ok((_, t, _))) && token_info(t).comments.after@ == on_line(cs, span.end.line as int),
        on_line(cs, span.end.line as int).len() + off_line(cs, span.end.line as int).len() == cs.len(),
        forall|k: int|
            0 <= k < cs.len() ==> on_line(cs, span.end.line as int).contains(#[trigger] cs[k])
                || off_line(cs, span.end.line as int).contains(cs[k]),
{
    lemma_split_partition(cs, span.end.line as int);
}

/// Completing the token `tok` from offset `i` of `s` (see [`completed_with`]).
pub open spec fn completed(
    s: Seq<char>,
    i: int,
    tok: BaseToken,
    before: Seq<Comment>,
    span: Span,
    r: Option<Result<(Position, Token, Position), (Vec<Comment>, OctizysParserReport)>>,
    p: Option<Result<(Span, BaseOrComments), (Vec<Comment>, OctizysParserReport)>>,
    i2: int,
    regular: Seq<Seq<char>>,
    comments: Seq<Seq<char>>,
    regular2: Seq<Seq<char>>,
    comments2: Seq<Seq<char>>,
) -> bool {
    exists|cs: Seq<Comment>, x: Option<Result<(Span, BaseToken), OctizysParserReport>>|
        #[trigger] completed_with(
            s,
            i,
            tok,
            before,
            span,
            r,
            p,
            i2,
            regular,
            comments,
            regular2,
            comments2,
            cs,
            x,
        )
}

impl<'src> LexerContext<'src> {
    /// What was read ahead.
    pub closed spec fn pending(&self) -> Option<
        Result<(Span, BaseOrComments), (Vec<Comment>, OctizysParserReport)>,
    > {
        self.previous_token
    }

    /// The lexer of base tokens.
    pub closed spec fn base(&self) -> BaseLexerContext<'src> {
        self.lexer
    }

    /// The lexer of base tokens is well formed.
    pub closed spec fn wf(&self) -> bool {
        self.lexer.wf()
    }

    /// A lexer with what was read ahead and the lexer of base tokens.
    pub fn new(
        previous_token: Option<Result<(Span, BaseOrComments), (Vec<Comment>, OctizysParserReport)>>,
        lexer: BaseLexerContext<'src>,
    ) -> (r: Self)
        requires
            lexer.wf(),
        ensures
            r.wf(),
            r.pending() == previous_token,
            r.base() == lexer,
            previous_token is None ==> r.tracks_comments(),
    {
        LexerContext { previous_token, lexer }
    }

    /// The spans of the comments still to come (see [`remaining_spans`]).
    pub open spec fn comments_to_come(&self) -> Seq<Span> {
        remaining_spans(self.pending(), self.base().text(), self.base().offset())
    }

    /// What was read ahead agrees with the source (see [`tracks`]).
    pub open spec fn tracks_comments(&self) -> bool {
        tracks(self.pending(), self.base().text(), self.base().offset())
    }
}

/// Completes the token `current_token`: reads the comments behind it,
/// attaches those on the line where it ends, and keeps what follows them for
/// the next call.
pub fn complete_token_or_save(
    current_token: BaseToken,
    context: &mut LexerContext,
    info: TokenInfo,
    store: &mut Store,
) -> (r: Option<Result<(Position, Token, Position), (Vec<Comment>, OctizysParserReport)>>)
    requires
        old(context).wf(),
    ensures
        final(context).wf(),
        final(context).base().text() == old(context).base().text(),
        completed(
            old(context).base().text(),
            old(context).base().offset(),
            current_token,
            info.comments.before@,
            info.span,
            r,
            final(context).pending(),
            final(context).base().offset(),
            old(store).regular@,
            old(store).comments@,
            final(store).regular@,
            final(store).comments@,
        ),
{
    let ghost s = context.lexer.text();
    let ghost i = context.lexer.offset();
    let ghost reg0 = store.regular@;
    let ghost com0 = store.comments@;
    let mut acc: Vec<Comment> = Vec::new();
    let next_token = accumulate_comments(&mut context.lexer, store, &mut acc);
    let ghost cs = acc@;
    proof {
        assert(acc@.skip(0) =~= acc@);
    }
    let mut info = info;
    let (to_attach, remain) = split_comments_by_line(info.span.end.line, acc);
    info.comments.after = to_attach;
    let span = info.span;
    let ghost x = next_token;
    match next_token {
        Some(Ok((next_span, next_base_token))) => {
            let comments_info_pre = CommentsInfo { before: remain, after: Vec::new() };
            let next_info = TokenInfo::make(comments_info_pre, next_span.start, next_span.end);
            context.previous_token = Some(Ok((span, BaseOrComments::Base(next_base_token, next_info))));
        },
        Some(Err(err)) => {
            context.previous_token = Some(Err((remain, err)));
        },
        None => {
            if remain.len() > 0 {
                let mut sp = remain[0].get_span();
                let mut k: usize = 0;
                while k < remain.len()
                    invariant
                        k <= remain@.len(),
                        remain@.len() > 0,
                        sp == fold_spans(comment_span(remain@[0]), remain@.take(k as int)),
                    decreases remain@.len() - k,
                {
                    proof {
                        assert(remain@.take(k + 1).drop_last() =~= remain@.take(k as int));
                    }
                    sp = sp + remain[k].get_span();
                    k = k + 1;
                }
                proof {
                    assert(remain@.take(k as int) =~= remain@);
                }
                context.previous_token = Some(Ok((sp, BaseOrComments::Comments(remain))));
            } else {
                context.previous_token = None;
            }
        },
    }
    let r = Some(Ok((span.start, aux_base_token_to_token(current_token, info), span.end)));
    proof {
        assert(completed_with(
            s,
            i,
            current_token,
            info.comments.before@,
            span,
            r,
            context.previous_token,
            context.lexer.offset(),
            reg0,
            com0,
            store.regular@,
            store.comments@,
            cs,
            x,
        ));
    }
    r
}

/// Reading a token from offset `i` of `s` when nothing was read ahead: the
/// comments `cs` before it are read, then what follows them (`x`, up to
/// offset `i1`); a token is completed with `cs` as its before comments, the
/// end of the source gives the token of the last comments, and a report is
/// passed on.
pub open spec fn parsed_with(
    s: Seq<char>,
    i: int,
    r: Option<Result<(Position, Token, Position), (Vec<Comment>, OctizysParserReport)>>,
    p0: Option<Result<(Span, BaseOrComments), (Vec<Comment>, OctizysParserReport)>>,
    p: Option<Result<(Span, BaseOrComments), (Vec<Comment>, OctizysParserReport)>>,
    i2: int,
    regular: Seq<Seq<char>>,
    comments: Seq<Seq<char>>,
    regular2: Seq<Seq<char>>,
    comments2: Seq<Seq<char>>,
    cs: Seq<Comment>,
    x: Option<Result<(Span, BaseToken), OctizysParserReport>>,
    i1: int,
    regular1: Seq<Seq<char>>,
    comments1: Seq<Seq<char>>,
) -> bool {
    let run = comment_run(s, i).0;
    let m = comment_run(s, i).1;
    &&& run_comments(cs, run, comments.len() as int)
    &&& base_step(s, m, x, i1, regular, comments + stored_run(run), regular1, comments1)
    &&& match x {
        Some(Ok((span, tok))) => completed(
            s,
            i1,
            tok,
            cs,
            span,
            r,
            p,
            i2,
            regular1,
            comments1,
            regular2,
            comments2,
        ),
        Some(Err(e)) => (r matches Some(Err((v, e2))) && v@.len() == 0 && e2 == e) && p == p0
            && i2 == i1 && regular2 == regular1 && comments2 == comments1,
        None => p == p0 && i2 == i1 && regular2 == regular1 && comments2 == comments1 && (match r {
            None => last_token(cs, None),
            Some(Ok(t)) => last_token(cs, Some(t)),
            Some(Err(_)) => false,
        }),
    }
}

/// Reading a token from offset `i` of `s` (see [`parsed_with`]).
pub open spec fn parsed(
    s: Seq<char>,
    i: int,
    r: Option<Result<(Position, Token, Position), (Vec<Comment>, OctizysParserReport)>>,
    p0: Option<Result<(Span, BaseOrComments), (Vec<Comment>, OctizysParserReport)>>,
    p: Option<Result<(Span, BaseOrComments), (Vec<Comment>, OctizysParserReport)>>,
    i2: int,
    regular: Seq<Seq<char>>,
    comments: Seq<Seq<char>>,
    regular2: Seq<Seq<char>>,
    comments2: Seq<Seq<char>>,
) -> bool {
    exists|
        cs: Seq<Comment>,
        x: Option<Result<(Span, BaseToken), OctizysParserReport>>,
        i1: int,
        regular1: Seq<Seq<char>>,
        comments1: Seq<Seq<char>>,
    |
        #[trigger] parsed_with(
            s,
            i,
            r,
            p0,
            p,
            i2,
            regular,
            comments,
            regular2,
            comments2,
            cs,
            x,
            i1,
            regular1,
            comments1,
        )
}

/// Reads a token with the comments before it, when nothing was read ahead.
pub fn parse_token(context: &mut LexerContext, store: &mut Store) -> (r: Option<
    Result<(Position, Token, Position), (Vec<Comment>, OctizysParserReport)>,
>)
    requires
        old(context).wf(),
    ensures
        final(context).wf(),
        final(context).base().text() == old(context).base().text(),
        parsed(
            old(context).base().text(),
            old(context).base().offset(),
            r,
            old(context).pending(),
            final(context).pending(),
            final(context).base().offset(),
            old(store).regular@,
            old(store).comments@,
            final(store).regular@,
            final(store).comments@,
        ),
{
    let ghost s = context.lexer.text();
    let ghost i = context.lexer.offset();
    let ghost p0 = context.previous_token;
    let ghost reg0 = store.regular@;
    let ghost com0 = store.comments@;
    let mut acc: Vec<Comment> = Vec::new();
    let current_value = accumulate_comments(&mut context.lexer, store, &mut acc);
    let ghost cs = acc@;
    let ghost x = current_value;
    let ghost i1 = context.lexer.offset();
    let ghost reg1 = store.regular@;
    let ghost com1 = store.comments@;
    proof {
        assert(acc@.skip(0) =~= acc@);
    }
    let r = match current_value {
        Some(Ok((span, current_token))) => {
            let comments_info_pre = CommentsInfo { before: acc, after: Vec::new() };
            let info = TokenInfo::make(comments_info_pre, span.start, span.end);
            complete_token_or_save(current_token, context, info, store)
        },
        None => match make_last_comment_token(acc) {
            Some(t) => Some(Ok(t)),
            None => None,
        },
        Some(Err(e)) => Some(Err((Vec::new(), e))),
    };
    proof {
        assert(parsed_with(
            s,
            i,
            r,
            p0,
            context.previous_token,
            context.lexer.offset(),
            reg0,
            com0,
            store.regular@,
            store.comments@,
            cs,
            x,
            i1,
            reg1,
            com1,
        ));
    }
    r
}

/// The result of a call without the comments that a report carries.
pub open spec fn without_comments(
    r: Option<Result<(Position, Token, Position), (Vec<Comment>, OctizysParserReport)>>,
) -> Option<Result<(Position, Token, Position), OctizysParserReport>> {
    match r {
        None => None,
        Some(Ok(t)) => Some(Ok(t)),
        Some(Err((_, e))) => Some(Err(e)),
    }
}

/// Drops the comments that a report carries.
fn drop_comments(r: Option<Result<(Position, Token, Position), (Vec<Comment>, OctizysParserReport)>>) -> (o: Option<
    Result<(Position, Token, Position), OctizysParserReport>,
>)
    ensures
        o == without_comments(r),
{
    match r {
        None => None,
        Some(Ok(t)) => Some(Ok(t)),
        Some(Err((_, e))) => Some(Err(e)),
    }
}

/// One step of the lexer: from `a` with a store holding `reg0` and `com0`,
/// the result `r`, the lexer `b`, and a store holding `reg1` and `com1`
/// (see [`LexerContext::next`]).
pub open spec fn lexer_step(
    a: LexerContext,
    reg0: Seq<Seq<char>>,
    com0: Seq<Seq<char>>,
    r: Option<Result<(Position, Token, Position), OctizysParserReport>>,
    b: LexerContext,
    reg1: Seq<Seq<char>>,
    com1: Seq<Seq<char>>,
) -> bool {
    &&& b.wf()
    &&& b.base().text() == a.base().text()
    &&& ({
        let s = a.base().text();
        let i = a.base().offset();
        match a.pending() {
            Some(Err((_, e))) => r == Some(Err::<(Position, Token, Position), OctizysParserReport>(e))
                && b.pending() is None && b.base() == a.base() && reg1 == reg0 && com1 == com0,
            Some(Ok((_, BaseOrComments::Comments(cs)))) => b.pending() is None && b.base() == a.base()
                && reg1 == reg0 && com1 == com0 && (match r {
                None => last_token(cs@, None),
                Some(Ok(t)) => last_token(cs@, Some(t)),
                Some(Err(_)) => false,
            }),
            Some(Ok((_, BaseOrComments::Base(tok, info)))) => exists|
                r0: Option<Result<(Position, Token, Position), (Vec<Comment>, OctizysParserReport)>>,
            |
                #[trigger] without_comments(r0) == r && completed(
                    s,
                    i,
                    tok,
                    info.comments.before@,
                    info.span,
                    r0,
                    b.pending(),
                    b.base().offset(),
                    reg0,
                    com0,
                    reg1,
                    com1,
                ),
            None => exists|
                r0: Option<Result<(Position, Token, Position), (Vec<Comment>, OctizysParserReport)>>,
            |
                #[trigger] without_comments(r0) == r && parsed(
                    s,
                    i,
                    r0,
                    None,
                    b.pending(),
                    b.base().offset(),
                    reg0,
                    com0,
                    reg1,
                    com1,
                ),
        }
    })
    &&& a.tracks_comments() ==> b.tracks_comments()
    &&& a.tracks_comments() && (r matches Some(Ok(_))) ==> emitted_spans(r)
        + b.comments_to_come() == a.comments_to_come()
    &&& a.tracks_comments() && r is None ==> a.comments_to_come().len() == 0
}

impl<'src> LexerContext<'src> {
    /// The next token, with its comments: the comments before it, and those
    /// after it on the line where it ends. At the end of the source, the
    /// comments after the last token make a token of their own.
    pub fn next(&mut self, store: &mut Store) -> (r: Option<Result<(Position, Token, Position), OctizysParserReport>>)
        requires
            old(self).wf(),
        ensures
            lexer_step(
                *old(self),
                old(store).regular@,
                old(store).comments@,
                r,
                *final(self),
                final(store).regular@,
                final(store).comments@,
            ),
    {
        let ghost s = self.lexer.text();
        let ghost i = self.lexer.offset();
        let ghost p0 = self.previous_token;
        let ghost reg0 = store.regular@;
        let ghost com0 = store.comments@;
        proof {
            lemma_source_comments_run(s, i);
        }
        let previous = self.previous_token.take();
        match previous {
            Some(Err((_, e))) => Some(Err(e)),
            Some(Ok((_, BaseOrComments::Comments(comments)))) => {
                let ghost cs = comments@;
                let r = match make_last_comment_token(comments) {
                    Some(t) => Some(Ok(t)),
                    None => None,
                };
                proof {
                    if cs.len() > 0 {
                        assert(emitted_spans(r) == spans_of(cs));
                    }
                    assert(self.comments_to_come() =~= source_comments(s, i));
                    assert(old(self).comments_to_come() =~= spans_of(cs) + source_comments(s, i));
                }
                r
            },
            Some(Ok((_, BaseOrComments::Base(base_token, info)))) => {
                let ghost tok = base_token;
                let ghost inf = info;
                let r0 = complete_token_or_save(base_token, self, info, store);
                proof {
                    if tracks(p0, s, i) {
                        let (cs, x) = choose|
                            cs: Seq<Comment>,
                            x: Option<Result<(Span, BaseToken), OctizysParserReport>>,
                        |
                            completed_with(
                                s,
                                i,
                                tok,
                                inf.comments.before@,
                                inf.span,
                                r0,
                                self.previous_token,
                                self.lexer.offset(),
                                reg0,
                                com0,
                                store.regular@,
                                store.comments@,
                                cs,
                                x,
                            );
                        lemma_completion_conserves(
                            s,
                            i,
                            tok,
                            inf.comments.before@,
                            inf.span,
                            r0,
                            self.previous_token,
                            self.lexer.offset(),
                            reg0,
                            com0,
                            store.regular@,
                            store.comments@,
                            cs,
                            x,
                        );
                    }
                }
                drop_comments(r0)
            },
            None => {
                let r0 = parse_token(self, store);
                proof {
                    let (cs, x, i1, reg1, com1) = choose|
                        cs: Seq<Comment>,
                        x: Option<Result<(Span, BaseToken), OctizysParserReport>>,
                        i1: int,
                        reg1: Seq<Seq<char>>,
                        com1: Seq<Seq<char>>,
                    |
                        parsed_with(
                            s,
                            i,
                            r0,
                            None,
                            self.previous_token,
                            self.lexer.offset(),
                            reg0,
                            com0,
                            store.regular@,
                            store.comments@,
                            cs,
                            x,
                            i1,
                            reg1,
                            com1,
                        );
                    lemma_parse_conserves(
                        s,
                        i,
                        r0,
                        self.previous_token,
                        self.lexer.offset(),
                        reg0,
                        com0,
                        store.regular@,
                        store.comments@,
                        cs,
                        x,
                        i1,
                        reg1,
                        com1,
                    );
                }
                drop_comments(r0)
            },
        }
    }
}

/// How much a lexer holds read ahead: two for a token, one for comments,
/// none else.
pub open spec fn pending_rank(p: Option<Result<(Span, BaseOrComments), (Vec<Comment>, OctizysParserReport)>>) -> int {
    match p {
        Some(Ok((_, BaseOrComments::Base(_, _)))) => 2,
        Some(Ok((_, BaseOrComments::Comments(_)))) => 1,
        _ => 0,
    }
}

/// What is left for the lexer: three for each char still to read, and the
/// rank of what it holds read ahead (see [`pending_rank`]).
pub open spec fn lexer_measure(c: LexerContext) -> int {
    3 * (c.base().text().len() - c.base().offset()) + pending_rank(c.pending())
}

/// A well formed lexer has read a part of its source.
pub proof fn lemma_measure_bounds(c: LexerContext)
    requires
        c.wf(),
    ensures
        0 <= c.base().offset() <= c.base().text().len(),
        utf8_len(c.base().text()) <= usize::MAX,
        lexer_measure(c) >= 0,
{
}

/// A run of comments that is not empty moves forward.
proof fn lemma_run_moves(s: Seq<char>, i: int)
    requires
        0 <= i <= s.len(),
        utf8_len(s) <= usize::MAX,
    ensures
        i <= comment_run(s, i).1 <= s.len(),
        comment_run(s, i).0.len() > 0 ==> i < comment_run(s, i).1,
{
    lemma_source_comments_run(s, i);
    lemma_class_end(s, i, CharClass::WhiteSpace);
    let j = class_end(s, i, CharClass::WhiteSpace);
    if i <= j < s.len() {
        match lexeme_at(s, j) {
            Some((lx, e)) => {
                if comment_lexeme(lx) && j < e <= s.len() {
                    lemma_source_comments_run(s, e);
                }
            },
            None => {},
        }
    }
}

/// Completing a token from offset `i` ends at `i2`, no earlier, and leaves
/// read ahead no more than what three chars weigh less one.
proof fn lemma_completed_measure(
    s: Seq<char>,
    i: int,
    tok: BaseToken,
    before: Seq<Comment>,
    span: Span,
    r: Option<Result<(Position, Token, Position), (Vec<Comment>, OctizysParserReport)>>,
    p: Option<Result<(Span, BaseOrComments), (Vec<Comment>, OctizysParserReport)>>,
    i2: int,
    regular: Seq<Seq<char>>,
    comments: Seq<Seq<char>>,
    regular2: Seq<Seq<char>>,
    comments2: Seq<Seq<char>>,
)
    requires
        0 <= i <= s.len(),
        utf8_len(s) <= usize::MAX,
        completed(s, i, tok, before, span, r, p, i2, regular, comments, regular2, comments2),
    ensures
        i <= i2 <= s.len(),
        3 * (s.len() - i2) + pending_rank(p) <= 3 * (s.len() - i) + 1,
{
    let (cs, x) = choose|cs: Seq<Comment>, x: Option<Result<(Span, BaseToken), OctizysParserReport>>|
        #[trigger] completed_with(s, i, tok, before, span, r, p, i2, regular, comments, regular2, comments2, cs, x);
    let run = comment_run(s, i).0;
    let m = comment_run(s, i).1;
    lemma_run_moves(s, i);
    lemma_step_advances(s, m, x, i2, regular, comments + stored_run(run), regular2, comments2);
}

/// A step of the lexer that gives a token leaves less to do.
pub proof fn lemma_step_measure(
    a: LexerContext,
    reg0: Seq<Seq<char>>,
    com0: Seq<Seq<char>>,
    r: Option<Result<(Position, Token, Position), OctizysParserReport>>,
    b: LexerContext,
    reg1: Seq<Seq<char>>,
    com1: Seq<Seq<char>>,
)
    requires
        a.wf(),
        lexer_step(a, reg0, com0, r, b, reg1, com1),
        r matches Some(Ok(_)),
    ensures
        0 <= lexer_measure(b) < lexer_measure(a),
{
    lemma_measure_bounds(a);
    lemma_measure_bounds(b);
    let s = a.base().text();
    let i = a.base().offset();
    match a.pending() {
        Some(Ok((_, BaseOrComments::Base(tok, info)))) => {
            let r0 = choose|
                r0: Option<Result<(Position, Token, Position), (Vec<Comment>, OctizysParserReport)>>,
            |
                #[trigger] without_comments(r0) == r && completed(
                    s,
                    i,
                    tok,
                    info.comments.before@,
                    info.span,
                    r0,
                    b.pending(),
                    b.base().offset(),
                    reg0,
                    com0,
                    reg1,
                    com1,
                );
            lemma_completed_measure(
                s,
                i,
                tok,
                info.comments.before@,
                info.span,
                r0,
                b.pending(),
                b.base().offset(),
                reg0,
                com0,
                reg1,
                com1,
            );
        },
        None => {
            let r0 = choose|
                r0: Option<Result<(Position, Token, Position), (Vec<Comment>, OctizysParserReport)>>,
            |
                #[trigger] without_comments(r0) == r && parsed(
                    s,
                    i,
                    r0,
                    None,
                    b.pending(),
                    b.base().offset(),
                    reg0,
                    com0,
                    reg1,
                    com1,
                );
            let (cs, x, i1, reg_1, com_1) = choose|
                cs: Seq<Comment>,
                x: Option<Result<(Span, BaseToken), OctizysParserReport>>,
                i1: int,
                reg_1: Seq<Seq<char>>,
                com_1: Seq<Seq<char>>,
            |
                #[trigger] parsed_with(
                    s,
                    i,
                    r0,
                    None,
                    b.pending(),
                    b.base().offset(),
                    reg0,
                    com0,
                    reg1,
                    com1,
                    cs,
                    x,
                    i1,
                    reg_1,
                    com_1,
                );
            let run = comment_run(s, i).0;
            let m = comment_run(s, i).1;
            lemma_run_moves(s, i);
            lemma_step_advances(s, m, x, i1, reg0, com0 + stored_run(run), reg_1, com_1);
            match x {
                Some(Ok((span, tok))) => {
                    lemma_completed_measure(
                        s,
                        i1,
                        tok,
                        cs,
                        span,
                        r0,
                        b.pending(),
                        b.base().offset(),
                        reg_1,
                        com_1,
                        reg1,
                        com1,
                    );
                },
                _ => {},
            }
        },
        _ => {},
    }
}

/// A run of the lexer: each state steps to the next one (see
/// [`lexer_step`]), giving the result at the same place, with the store
/// going from one pair of views to the next.
pub open spec fn lexer_run(
    states: Seq<LexerContext>,
    stores: Seq<(Seq<Seq<char>>, Seq<Seq<char>>)>,
    outs: Seq<Option<Result<(Position, Token, Position), OctizysParserReport>>>,
) -> bool {
    &&& states.len() == outs.len() + 1
    &&& stores.len() == states.len()
    &&& forall|k: int|
        #![trigger outs[k]]
        0 <= k < outs.len() ==> lexer_step(
            states[k],
            stores[k].0,
            stores[k].1,
            outs[k],
            states[k + 1],
            stores[k + 1].0,
            stores[k + 1].1,
        )
}

/// The spans of the comments that a token carries: those of the last
/// comments, or those before and after it.
pub open spec fn token_spans(t: Token) -> Seq<Span> {
    match t {
        Token::LastComments(_, cs) => spans_of(cs@),
        _ => spans_of(token_info(t).comments.before@) + spans_of(token_info(t).comments.after@),
    }
}

/// The spans of the comments that the tokens carry, in order.
pub open spec fn tokens_spans(ts: Seq<Token>) -> Seq<Span>
    decreases ts.len(),
{
    if ts.len() == 0 {
        Seq::empty()
    } else {
        tokens_spans(ts.drop_last()) + token_spans(ts.last())
    }
}

/// Every token of a source, up to its end, or the first report.
///
/// The tokens are the results of a run of the lexer from the start of the
/// source (see [`lexer_run`]), which ends at the end of the source or at the
/// report; and, when it reaches the end, the tokens carry every comment of
/// the source, in order.
pub fn lex_all(source: &str, store: &mut Store) -> (r: Result<Vec<Token>, OctizysParserReport>)
    ensures
        exists|
            states: Seq<LexerContext>,
            stores: Seq<(Seq<Seq<char>>, Seq<Seq<char>>)>,
            outs: Seq<Option<Result<(Position, Token, Position), OctizysParserReport>>>,
        |
            #[trigger] lexer_run(states, stores, outs) && states[0].pending() is None
                && states[0].base().text() == source@ && states[0].base().offset() == 0 && stores[0]
                == (old(store).regular@, old(store).comments@) && stores.last() == (
                final(store).regular@,
                final(store).comments@,
            ) && match r {
                Ok(ts) => outs.len() == ts@.len() + 1 && outs.last() is None && (forall|k: int|
                    0 <= k < ts@.len() ==> (#[trigger] outs[k] matches Some(Ok((_, t, _))) && t
                        == ts@[k])),
                Err(e) => outs.len() >= 1 && outs.last() == Some(
                    Err::<(Position, Token, Position), OctizysParserReport>(e),
                ) && (forall|k: int| 0 <= k < outs.len() - 1 ==> #[trigger] outs[k] is Some),
            },
        r matches Ok(ts) ==> tokens_spans(ts@) == source_comments(source@, 0),
{
    let mut lexer = LexerContext::new(None, BaseLexerContext::new(source));
    let mut tokens: Vec<Token> = Vec::new();
    let ghost mut states: Seq<LexerContext> = seq![lexer];
    let ghost mut stores: Seq<(Seq<Seq<char>>, Seq<Seq<char>>)> = seq![(store.regular@, store.comments@)];
    let ghost mut outs: Seq<Option<Result<(Position, Token, Position), OctizysParserReport>>> = Seq::empty();
    let ghost start = (store.regular@, store.comments@);
    proof {
        assert(lexer.comments_to_come() =~= source_comments(source@, 0));
        assert(tokens_spans(tokens@) + lexer.comments_to_come() =~= source_comments(source@, 0));
    }
    loop
        invariant
            lexer.wf(),
            lexer.tracks_comments(),
            lexer_run(states, stores, outs),
            states.last() == lexer,
            stores.last() == (store.regular@, store.comments@),
            states[0].pending() is None,
            states[0].base().text() == source@,
            states[0].base().offset() == 0,
            stores[0] == start,
            start == (old(store).regular@, old(store).comments@),
            tokens@.len() == outs.len(),
            forall|k: int|
                0 <= k < tokens@.len() ==> (#[trigger] outs[k] matches Some(Ok((_, t, _))) && t
                    == tokens@[k]),
            tokens_spans(tokens@) + lexer.comments_to_come() == source_comments(source@, 0),
        decreases lexer_measure(lexer),
    {
        let ghost a = lexer;
        let ghost reg0 = store.regular@;
        let ghost com0 = store.comments@;
        let r = lexer.next(store);
        proof {
            let n = outs.len();
            let states2 = states.push(lexer);
            let stores2 = stores.push((store.regular@, store.comments@));
            let outs2 = outs.push(r);
            assert forall|k: int| #![trigger outs2[k]] 0 <= k < outs2.len() implies lexer_step(
                states2[k],
                stores2[k].0,
                stores2[k].1,
                outs2[k],
                states2[k + 1],
                stores2[k + 1].0,
                stores2[k + 1].1,
            ) by {
                if k < n {
                    assert(outs2[k] == outs[k]);
                    assert(states2[k] == states[k]);
                    assert(states2[k + 1] == states[k + 1]);
                    assert(stores2[k] == stores[k]);
                    assert(stores2[k + 1] == stores[k + 1]);
                }
            }
            states = states2;
            stores = stores2;
            outs = outs2;
            assert(lexer_run(states, stores, outs));
        }
        match r {
            Some(Ok((_, t, _))) => {
                proof {
                    lemma_step_measure(a, reg0, com0, r, lexer, store.regular@, store.comments@);
                    let ts2 = tokens@.push(t);
                    assert(ts2.drop_last() =~= tokens@);
                    assert(token_spans(t) == emitted_spans(r));
                    assert(tokens_spans(ts2) + lexer.comments_to_come() =~= tokens_spans(tokens@) + (
                    emitted_spans(r) + lexer.comments_to_come()));
                }
                tokens.push(t);
            },
            Some(Err(e)) => {
                proof {
                    assert(forall|k: int| 0 <= k < outs.len() - 1 ==> #[trigger] outs[k] is Some);
                    assert(lexer_run(states, stores, outs));
                }
                return Err(e);
            },
            None => {
                proof {
                    assert(tokens_spans(tokens@) =~= tokens_spans(tokens@) + a.comments_to_come());
                    assert(lexer_run(states, stores, outs));
                }
                return Ok(tokens);
            },
        }
    }
}

} // verus!
