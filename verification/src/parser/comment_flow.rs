//! Where the comments of a source go: every comment that the lexer reads
//! reaches a token, in the order of the source, until the lexer reports a
//! problem.
use vstd::prelude::*;
use crate::cst::comments::{comment_span, Comment};
use crate::identifier::is_identifier_text;
use crate::parser::lexer::{
    base_step, comment_lexeme, comment_run, completed, completed_with, last_token, lemma_step_advances,
    lexed, off_line, on_line, parsed_with, pending_after, place_after, position_of, run_comments,
    span_of, stored_run, token_completed, without_comments, BaseOrComments,
};
use crate::parser::report::OctizysParserReport;
use crate::parser::scanner::{class_end, lemma_class_end, lexeme_at, CharClass, Lexeme};
use crate::parser::tokens::{token_base, token_info, BaseToken, Token};
use crate::span::{Position, Span};
use crate::text::utf8_len;

verus! {

/// The lexeme gives a token rather than a report.
pub open spec fn lexeme_ok(lx: Lexeme) -> bool {
    match lx {
        Lexeme::Fixed(_) => true,
        Lexeme::Refused(_) => false,
        Lexeme::Name(t) => is_identifier_text(t),
        Lexeme::InfixName(t) => is_identifier_text(t),
        Lexeme::OwnershipName(t) => is_identifier_text(t),
        Lexeme::Line(_, _, t) => !t.contains('\n'),
        Lexeme::Block(_, _, _) => true,
    }
}

/// The spans of the comments that the lexer reads from offset `i` of `s`
/// on, in order, up to the end of the source or to the first report.
pub open spec fn source_comments(s: Seq<char>, i: int) -> Seq<Span>
    decreases s.len() - i,
{
    let j = class_end(s, i, CharClass::WhiteSpace);
    if i <= j < s.len() {
        match lexeme_at(s, j) {
            Some((lx, e)) => if j < e <= s.len() && lexeme_ok(lx) {
                if comment_lexeme(lx) {
                    seq![span_of(s, j, e)] + source_comments(s, e)
                } else {
                    source_comments(s, e)
                }
            } else {
                Seq::empty()
            },
            None => Seq::empty(),
        }
    } else {
        Seq::empty()
    }
}

/// The spans of comments.
pub open spec fn spans_of(cs: Seq<Comment>) -> Seq<Span> {
    cs.map_values(|c: Comment| comment_span(c))
}

/// The spans of a run of comments.
pub open spec fn run_spans(run: Seq<(Lexeme, Span)>) -> Seq<Span> {
    run.map_values(|x: (Lexeme, Span)| x.1)
}

/// The spans of the comments that a result of the lexer carries: those of
/// the last comments, or those before and after a token.
pub open spec fn emitted_spans(r: Option<Result<(Position, Token, Position), OctizysParserReport>>) -> Seq<
    Span,
> {
    match r {
        Some(Ok((_, Token::LastComments(_, cs), _))) => spans_of(cs@),
        Some(Ok((_, t, _))) => spans_of(token_info(t).comments.before@) + spans_of(
            token_info(t).comments.after@,
        ),
        _ => Seq::empty(),
    }
}

/// The spans of the comments that were read ahead.
pub open spec fn pending_spans(p: Option<Result<(Span, BaseOrComments), (Vec<Comment>, OctizysParserReport)>>) -> Seq<
    Span,
> {
    match p {
        Some(Ok((_, BaseOrComments::Base(_, info)))) => spans_of(info.comments.before@),
        Some(Ok((_, BaseOrComments::Comments(cs)))) => spans_of(cs@),
        Some(Err((cs, _))) => spans_of(cs@),
        None => Seq::empty(),
    }
}

/// The spans of the comments still to come: those read ahead, and, unless
/// a report was read ahead, those of the source from offset `i` on.
pub open spec fn remaining_spans(
    p: Option<Result<(Span, BaseOrComments), (Vec<Comment>, OctizysParserReport)>>,
    s: Seq<char>,
    i: int,
) -> Seq<Span> {
    pending_spans(p) + rest_spans(p, s, i)
}

/// The spans of the comments of the source from offset `i` on, unless a
/// report was read ahead.
pub open spec fn rest_spans(
    p: Option<Result<(Span, BaseOrComments), (Vec<Comment>, OctizysParserReport)>>,
    s: Seq<char>,
    i: int,
) -> Seq<Span> {
    if p matches Some(Err(_)) {
        Seq::empty()
    } else {
        source_comments(s, i)
    }
}

/// What was read ahead agrees with the source at offset `i`: a token read
/// ahead ends there, and the last comments are read only at the end.
pub open spec fn tracks(
    p: Option<Result<(Span, BaseOrComments), (Vec<Comment>, OctizysParserReport)>>,
    s: Seq<char>,
    i: int,
) -> bool {
    match p {
        Some(Ok((_, BaseOrComments::Base(_, info)))) => info.span.end.line == position_of(s, i).line,
        Some(Ok((_, BaseOrComments::Comments(_)))) => source_comments(s, i).len() == 0,
        _ => true,
    }
}

/// After the white space from offset `m` on, a comment stands.
pub open spec fn comment_at(s: Seq<char>, m: int) -> bool {
    let j = class_end(s, m, CharClass::WhiteSpace);
    m <= j < s.len() && match lexeme_at(s, j) {
        Some((lx, e)) => comment_lexeme(lx) && j < e <= s.len(),
        None => false,
    }
}

/// Lines never go back as the source is read.
pub proof fn lemma_line_monotone(s: Seq<char>, i: int, k: int)
    requires
        0 <= i <= k,
    ensures
        place_after(s, i).1 <= place_after(s, k).1,
    decreases k - i,
{
    if i < k {
        lemma_line_monotone(s, i, k - 1);
    }
}

/// The line of a position, in the bounds of a source whose length fits.
proof fn lemma_position_line(s: Seq<char>, i: int, k: int)
    requires
        0 <= i <= k <= s.len(),
        utf8_len(s) <= usize::MAX,
    ensures
        position_of(s, i).line <= position_of(s, k).line,
        position_of(s, i).line == place_after(s, i).1,
{
    crate::parser::lexer::lemma_place_after(s, i);
    crate::parser::lexer::lemma_place_after(s, k);
    lemma_line_monotone(s, i, k);
}

/// The comments of the source are those of the run of comments, then those
/// after it; the run stops before a lexeme that makes no comment; and the
/// comments of the run start, in order, on lines from the line of `i` on.
pub proof fn lemma_source_comments_run(s: Seq<char>, i: int)
    requires
        0 <= i <= s.len(),
        utf8_len(s) <= usize::MAX,
    ensures
        i <= comment_run(s, i).1 <= s.len(),
        source_comments(s, i) == run_spans(comment_run(s, i).0) + source_comments(
            s,
            comment_run(s, i).1,
        ),
        !comment_at(s, comment_run(s, i).1),
        forall|k: int|
            0 <= k < comment_run(s, i).0.len() ==> position_of(s, i).line <= (
            #[trigger] comment_run(s, i).0[k]).1.start.line,
        forall|k1: int, k2: int|
            0 <= k1 < k2 < comment_run(s, i).0.len() ==> (#[trigger] comment_run(s, i).0[k1]).1.start.line
                <= (#[trigger] comment_run(s, i).0[k2]).1.start.line,
    decreases s.len() - i,
{
    let j = class_end(s, i, CharClass::WhiteSpace);
    lemma_class_end(s, i, CharClass::WhiteSpace);
    if i <= j < s.len() {
        match lexeme_at(s, j) {
            Some((lx, e)) => {
                if comment_lexeme(lx) && j < e <= s.len() {
                    lemma_source_comments_run(s, e);
                    let rest = comment_run(s, e);
                    let item = (lx, span_of(s, j, e));
                    let run = comment_run(s, i).0;
                    assert(run == seq![item] + rest.0);
                    assert(lexeme_ok(lx));
                    assert(run_spans(run) =~= seq![span_of(s, j, e)] + run_spans(rest.0));
                    lemma_position_line(s, i, j);
                    lemma_position_line(s, j, e);
                    assert forall|k: int| 0 <= k < run.len() implies position_of(s, i).line <= (
                    #[trigger] run[k]).1.start.line by {
                        if k > 0 {
                            assert(run[k] == rest.0[k - 1]);
                        }
                    }
                    assert forall|k1: int, k2: int| 0 <= k1 < k2 < run.len() implies (
                    #[trigger] run[k1]).1.start.line <= (#[trigger] run[k2]).1.start.line by {
                        assert(run[k2] == rest.0[k2 - 1]);
                        if k1 > 0 {
                            assert(run[k1] == rest.0[k1 - 1]);
                        }
                    }
                } else {
                    assert(run_spans(comment_run(s, i).0) =~= Seq::<Span>::empty());
                }
            },
            None => {
                assert(run_spans(comment_run(s, i).0) =~= Seq::<Span>::empty());
            },
        }
    } else {
        assert(run_spans(comment_run(s, i).0) =~= Seq::<Span>::empty());
    }
}

/// After a run of comments, what the lexer reads next decides the comments
/// that follow: none at the end or at a report, and else those after it.
pub proof fn lemma_after_run(
    s: Seq<char>,
    m: int,
    x: Option<Result<(Span, BaseToken), OctizysParserReport>>,
    i2: int,
    regular: Seq<Seq<char>>,
    comments: Seq<Seq<char>>,
    regular2: Seq<Seq<char>>,
    comments2: Seq<Seq<char>>,
)
    requires
        0 <= m <= s.len(),
        base_step(s, m, x, i2, regular, comments, regular2, comments2),
        !comment_at(s, m),
    ensures
        x is None ==> source_comments(s, m).len() == 0 && source_comments(s, i2).len() == 0,
        x matches Some(Err(_)) ==> source_comments(s, m).len() == 0,
        x matches Some(Ok(_)) ==> source_comments(s, m) == source_comments(s, i2),
{
    let j = class_end(s, m, CharClass::WhiteSpace);
    lemma_class_end(s, m, CharClass::WhiteSpace);
    if j >= s.len() {
        lemma_class_end(s, i2, CharClass::WhiteSpace);
    }
}

/// Comments of a run carry the spans of the run, and the partition of a run
/// by the line where it starts keeps its order.
proof fn lemma_run_comment_spans(cs: Seq<Comment>, run: Seq<(Lexeme, Span)>, base: int)
    requires
        run_comments(cs, run, base),
    ensures
        spans_of(cs) == run_spans(run),
        forall|k: int| 0 <= k < cs.len() ==> comment_span(#[trigger] cs[k]) == run[k].1,
{
    assert forall|k: int| 0 <= k < cs.len() implies comment_span(#[trigger] cs[k]) == run[k].1 by {
        let _ = run.take(k);
    }
    assert(spans_of(cs) =~= run_spans(run));
}

/// Comments that start, in order, on lines from `line` on, are those on
/// `line` and then the others.
pub proof fn lemma_sorted_split(cs: Seq<Comment>, line: int)
    requires
        forall|k: int| 0 <= k < cs.len() ==> line <= comment_span(#[trigger] cs[k]).start.line,
        forall|k1: int, k2: int|
            0 <= k1 < k2 < cs.len() ==> comment_span(#[trigger] cs[k1]).start.line <= comment_span(
                #[trigger] cs[k2],
            ).start.line,
    ensures
        on_line(cs, line) + off_line(cs, line) == cs,
    decreases cs.len(),
{
    if cs.len() > 0 {
        let rest = cs.drop_last();
        assert forall|k: int| 0 <= k < rest.len() implies #[trigger] rest[k] == cs[k] by {}
        lemma_sorted_split(rest, line);
        let l = cs.last();
        if comment_span(l).start.line == line {
            assert forall|k: int| 0 <= k < rest.len() implies comment_span(#[trigger] rest[k]).start.line
                == line by {
                assert(rest[k] == cs[k]);
                assert(cs[cs.len() - 1] == l);
            }
            lemma_all_on_line(rest, line);
            assert(on_line(cs, line) + off_line(cs, line) =~= cs);
        } else {
            assert(on_line(cs, line) + off_line(cs, line) =~= (on_line(rest, line) + off_line(
                rest,
                line,
            )).push(l));
            assert(rest.push(l) =~= cs);
        }
    }
}

/// Comments that all start on the line are all on it.
proof fn lemma_all_on_line(cs: Seq<Comment>, line: int)
    requires
        forall|k: int| 0 <= k < cs.len() ==> comment_span(#[trigger] cs[k]).start.line == line,
    ensures
        on_line(cs, line) == cs,
        off_line(cs, line).len() == 0,
    decreases cs.len(),
{
    if cs.len() > 0 {
        let rest = cs.drop_last();
        assert forall|k: int| 0 <= k < rest.len() implies comment_span(#[trigger] rest[k]).start.line
            == line by {
            assert(rest[k] == cs[k]);
        }
        lemma_all_on_line(rest, line);
        assert(cs[cs.len() - 1] == cs.last());
        assert(rest.push(cs.last()) =~= cs);
    }
}

/// The spans of a concatenation.
proof fn lemma_spans_concat(a: Seq<Comment>, b: Seq<Comment>)
    ensures
        spans_of(a + b) == spans_of(a) + spans_of(b),
{
    assert(spans_of(a + b) =~= spans_of(a) + spans_of(b));
}

/// A token that a step of the lexer reads ends where the step ends.
pub proof fn lemma_step_span(
    s: Seq<char>,
    m: int,
    x: Option<Result<(Span, BaseToken), OctizysParserReport>>,
    i2: int,
    regular: Seq<Seq<char>>,
    comments: Seq<Seq<char>>,
    regular2: Seq<Seq<char>>,
    comments2: Seq<Seq<char>>,
)
    requires
        base_step(s, m, x, i2, regular, comments, regular2, comments2),
    ensures
        x matches Some(Ok((sp, _))) ==> sp.end == position_of(s, i2),
{
}

/// Completing a token keeps the comments: the comments before the token and
/// those of the source that follow are the comments of the completed token
/// and those still to come.
pub proof fn lemma_completion_conserves(
    s: Seq<char>,
    i: int,
    tok: BaseToken,
    before: Seq<Comment>,
    span: Span,
    r: Option<Result<(Position, Token, Position), (Vec<Comment>, OctizysParserReport)>>,
    p: Option<Result<(Span, BaseOrComments), (Vec<Comment>, OctizysParserReport)>>,
    i2: int,
    regular: Seq<Seq<char>>,
    comments: Seq<Seq<char>>,
    regular2: Seq<Seq<char>>,
    comments2: Seq<Seq<char>>,
    cs: Seq<Comment>,
    x: Option<Result<(Span, BaseToken), OctizysParserReport>>,
)
    requires
        0 <= i <= s.len(),
        utf8_len(s) <= usize::MAX,
        completed_with(s, i, tok, before, span, r, p, i2, regular, comments, regular2, comments2, cs, x),
        span.end.line == position_of(s, i).line,
    ensures
        spans_of(before) + source_comments(s, i) == emitted_spans(without_comments(r))
            + remaining_spans(p, s, i2),
        tracks(p, s, i2),
        r matches Some(Ok((_, t, _))) && !(t is LastComments),
{
    let run = comment_run(s, i).0;
    let m = comment_run(s, i).1;
    let line = span.end.line as int;
    lemma_source_comments_run(s, i);
    let mid = comments + stored_run(run);
    lemma_after_run(s, m, x, i2, regular, mid, regular2, comments2);
    lemma_step_span(s, m, x, i2, regular, mid, regular2, comments2);
    lemma_run_comment_spans(cs, run, comments.len() as int);
    assert forall|k: int| 0 <= k < cs.len() implies line <= comment_span(#[trigger] cs[k]).start.line by {
        assert(comment_span(cs[k]) == run[k].1);
    }
    assert forall|k1: int, k2: int| 0 <= k1 < k2 < cs.len() implies comment_span(
        #[trigger] cs[k1],
    ).start.line <= comment_span(#[trigger] cs[k2]).start.line by {
        assert(comment_span(cs[k1]) == run[k1].1);
        assert(comment_span(cs[k2]) == run[k2].1);
    }
    lemma_sorted_split(cs, line);
    let on = on_line(cs, line);
    let off = off_line(cs, line);
    lemma_spans_concat(on, off);
    assert(r matches Some(Ok((_, t, _))) && token_base(t) == Some(tok));
    assert(emitted_spans(without_comments(r)) == spans_of(before) + spans_of(on));
    assert(pending_spans(p) == spans_of(off));
    assert(rest_spans(p, s, i2) == source_comments(s, m));
    assert(spans_of(before) + source_comments(s, i) =~= spans_of(before) + spans_of(on) + (spans_of(
        off,
    ) + source_comments(s, m)));
}

/// Reading a token when nothing was read ahead keeps the comments: the
/// comments of the source are those of the token and those still to come;
/// at the end of the source there are none left.
pub proof fn lemma_parse_conserves(
    s: Seq<char>,
    i: int,
    r: Option<Result<(Position, Token, Position), (Vec<Comment>, OctizysParserReport)>>,
    p: Option<Result<(Span, BaseOrComments), (Vec<Comment>, OctizysParserReport)>>,
    i2: int,
    regular: Seq<Seq<char>>,
    comments: Seq<Seq<char>>,
    regular2: Seq<Seq<char>>,
    comments2: Seq<Seq<char>>,
    cs: Seq<Comment>,
    x: Option<Result<(Span, BaseToken), OctizysParserReport>>,
    i1: int,
    regular1: Seq<Seq<char>>,
    comments1: Seq<Seq<char>>,
)
    requires
        0 <= i <= s.len(),
        utf8_len(s) <= usize::MAX,
        parsed_with(
            s,
            i,
            r,
            None,
            p,
            i2,
            regular,
            comments,
            regular2,
            comments2,
            cs,
            x,
            i1,
            regular1,
            comments1,
        ),
    ensures
        r matches Some(Ok(_)) ==> source_comments(s, i) == emitted_spans(without_comments(r))
            + remaining_spans(p, s, i2),
        r is None ==> source_comments(s, i).len() == 0 && p is None,
        tracks(p, s, i2),
{
    let run = comment_run(s, i).0;
    let m = comment_run(s, i).1;
    lemma_source_comments_run(s, i);
    let mid = comments + stored_run(run);
    lemma_after_run(s, m, x, i1, regular, mid, regular1, comments1);
    lemma_step_span(s, m, x, i1, regular, mid, regular1, comments1);
    lemma_step_advances(s, m, x, i1, regular, mid, regular1, comments1);
    lemma_run_comment_spans(cs, run, comments.len() as int);
    match x {
        Some(Ok((span, tok))) => {
            let (cs2, x2) = choose|
                cs2: Seq<Comment>,
                x2: Option<Result<(Span, BaseToken), OctizysParserReport>>,
            |
                completed_with(
                    s,
                    i1,
                    tok,
                    cs,
                    span,
                    r,
                    p,
                    i2,
                    regular1,
                    comments1,
                    regular2,
                    comments2,
                    cs2,
                    x2,
                );
            lemma_completion_conserves(
                s,
                i1,
                tok,
                cs,
                span,
                r,
                p,
                i2,
                regular1,
                comments1,
                regular2,
                comments2,
                cs2,
                x2,
            );
        },
        None => {
            if cs.len() > 0 {
                assert(emitted_spans(without_comments(r)) == spans_of(cs));
            }
            assert(source_comments(s, i) =~= spans_of(cs));
        },
        Some(Err(_)) => {},
    }
}

} // verus!
