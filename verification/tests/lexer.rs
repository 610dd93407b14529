use octizys::cst::comments::{Comment, CommentBraceKind, CommentKind, LineCommentStart};
use octizys::cst::literals::{
    InterpolationString, StringKind, StringLiteral, UFloatingPointKind, UFloatingPointLiteral, UintKind,
};
use octizys::cst::types::OwnershipLiteral;
use octizys::parser::lexer::{lex_all, split_comments_by_line, BaseLexerContext, LexerContext};
use octizys::parser::report::{LexerReportKind, ParseU64Error, ParserReport};
use octizys::parser::scanner::{lexeme_of, Found};
use octizys::parser::tokens::{BaseToken, Token};
use octizys::report::{ReportFormat, ReportTarget};
use octizys::span::{Location, Position, Span};
use octizys::store::Store;
use octizys::text::chars_of;

/// The lexeme at the start of the input, and where it ends.
fn lexeme(input: &str) -> (Found, usize) {
    let chars = chars_of(input);
    lexeme_of(&chars, 0).expect("a rule should match")
}

/// The whole input is one lexeme.
fn whole(input: &str) -> Found {
    let (found, end) = lexeme(input);
    assert_eq!(end, input.chars().count(), "input: {}", input);
    found
}

#[test]
fn comment_start() {
    assert!(matches!(whole("//"), Found::Line(_, LineCommentStart::DoubleSlash, 2, 2)));
    assert!(matches!(whole("--"), Found::Line(_, LineCommentStart::DoubleHyphen, 2, 2)));
    for (input, brace) in [
        ("{-", CommentBraceKind::Brace0),
        ("{--", CommentBraceKind::Brace1),
        ("{---", CommentBraceKind::Brace2),
        ("{----", CommentBraceKind::Brace3),
    ] {
        match whole(input) {
            Found::Refused(LexerReportKind::CouldntMatchBlockComment(b)) => assert_eq!(b, brace),
            other => panic!("{:?}", other),
        }
    }
}

#[test]
fn punctuation_or_operator() {
    let known = [
        "\\", "/", "#", ",", ";", "+", "^", "%", "@", ".", ":", "::", "-", "->", "|", "<|", "<|>",
        "<=", "<-", "<$", "<$>", "<*", "<<", "<*>", "<&>", "<?>", "*", "*>", "=", "==", "!", "!=",
        ">", ">>", ">=", "&&", "&", "$", "$>",
    ];
    for input in known {
        assert!(matches!(whole(input), Found::Token(_)), "input: {}", input);
    }
    assert!(matches!(whole("-"), Found::Token(BaseToken::Minus)));
    assert!(matches!(whole("::"), Found::Token(BaseToken::LogicPathSeparator)));
    assert!(matches!(whole("<|"), Found::Token(BaseToken::CompositionRight)));
    assert!(matches!(whole("<$>"), Found::Token(BaseToken::MapOperator)));
    for input in ["?", "||", "|>", "<"] {
        assert!(
            matches!(whole(input), Found::Refused(LexerReportKind::UnexpectedPunctuationMatch)),
            "input: {}",
            input
        );
    }
}

#[test]
fn bracket_start() {
    assert!(matches!(whole("("), Found::Token(BaseToken::LParen)));
    assert!(matches!(whole("{"), Found::Token(BaseToken::LBrace)));
    assert!(matches!(whole("["), Found::Token(BaseToken::LBracket)));
}

#[test]
fn bracket_end() {
    assert!(matches!(whole(")"), Found::Token(BaseToken::RParen)));
    assert!(matches!(whole("}"), Found::Token(BaseToken::RBrace)));
    assert!(matches!(whole("]"), Found::Token(BaseToken::RBracket)));
}

#[test]
fn string_start() {
    for input in ["\"", "f#\"", "r#\"", "r##\"", "r###\"", "r####\""] {
        assert!(
            matches!(whole(input), Found::Refused(LexerReportKind::StringLiteralNotSupported)),
            "input: {}",
            input
        );
    }
}

#[test]
fn named_hole() {
    assert!(matches!(whole("_0"), Found::Token(BaseToken::NamedHole(0))));
    assert!(matches!(whole("_0_0"), Found::Refused(LexerReportKind::Notu64NamedHole)));
    assert!(matches!(whole("_89342"), Found::Token(BaseToken::NamedHole(89342))));
}

#[test]
fn identifier() {
    for input in ["_a", "ab", "a", "à", "àbc", "____a", "_b23d"] {
        let n = input.chars().count();
        match whole(input) {
            Found::Name(0, e) => assert_eq!(e, n),
            other => panic!("{}: {:?}", input, other),
        }
    }
}

#[test]
fn infix_identifier() {
    for input in ["`_a`", "`ab`", "`a`", "`à`", "`àbc`", "`____a`", "`_b23d`"] {
        let n = input.chars().count();
        match whole(input) {
            Found::InfixName(1, e) => assert_eq!(e, n - 1),
            other => panic!("{}: {:?}", input, other),
        }
    }
}

#[test]
fn anon_hole() {
    assert!(matches!(whole("_"), Found::Token(BaseToken::AnonHole)));
}

#[test]
fn ownership_literal() {
    assert!(matches!(whole("'0"), Found::Token(BaseToken::OwnershipLiteral(OwnershipLiteral::Zero))));
    assert!(matches!(whole("'1"), Found::Token(BaseToken::OwnershipLiteral(OwnershipLiteral::One))));
    assert!(matches!(whole("'inf"), Found::Token(BaseToken::OwnershipLiteral(OwnershipLiteral::Inf))));
}

#[test]
fn ownership_variable() {
    for input in ["'_a", "'ab", "'a", "'à", "'àbc"] {
        let n = input.chars().count();
        match whole(input) {
            Found::OwnershipName(1, e) => assert_eq!(e, n),
            other => panic!("{}: {:?}", input, other),
        }
    }
    assert!(matches!(whole("____a"), Found::Name(0, 5)));
    assert!(matches!(whole("_b23d"), Found::Name(0, 5)));
}

fn uint(found: Found) -> (UintKind, u64) {
    match found {
        Found::Token(BaseToken::UintLiteral(l)) => (l.kind, l.value),
        other => panic!("{:?}", other),
    }
}

#[test]
fn octal() {
    assert_eq!(uint(whole("0o0")), (UintKind::Octal, 0));
    assert_eq!(uint(whole("0o00")), (UintKind::Octal, 0));
    assert_eq!(uint(whole("0o1")), (UintKind::Octal, 1));
    assert_eq!(uint(whole("0o1234")), (UintKind::Octal, 0o1234));
    assert!(matches!(
        whole("0o2_3_4"),
        Found::Refused(LexerReportKind::CantParseU64(ParseU64Error::InvalidDigit))
    ));
}

#[test]
fn hex() {
    assert_eq!(uint(whole("0x0")), (UintKind::Hex, 0));
    assert_eq!(uint(whole("0x00")), (UintKind::Hex, 0));
    assert_eq!(uint(whole("0x1")), (UintKind::Hex, 1));
    assert_eq!(uint(whole("0x1234")), (UintKind::Hex, 0x1234));
    assert_eq!(uint(whole("0xfF")), (UintKind::Hex, 255));
    assert!(matches!(
        whole("0x2_3_4"),
        Found::Refused(LexerReportKind::CantParseU64(ParseU64Error::InvalidDigit))
    ));
}

#[test]
fn binary() {
    assert_eq!(uint(whole("0b0")), (UintKind::Binary, 0));
    assert_eq!(uint(whole("0b00")), (UintKind::Binary, 0));
    assert_eq!(uint(whole("0b1")), (UintKind::Binary, 1));
    assert_eq!(uint(whole("0b101")), (UintKind::Binary, 5));
    assert!(matches!(
        whole("0b001010_1_0100_001"),
        Found::Refused(LexerReportKind::CantParseU64(ParseU64Error::InvalidDigit))
    ));
}

#[test]
fn numeric() {
    assert_eq!(uint(whole("0")), (UintKind::Unspecified, 0));
    assert_eq!(uint(whole("1")), (UintKind::Unspecified, 1));
    assert!(matches!(
        whole("2_3_4"),
        Found::Refused(LexerReportKind::CantParseU64(ParseU64Error::InvalidDigit))
    ));
    for input in ["34345.384e32", "0_89_79.52218E-32", "839_3479.52788e+32"] {
        assert!(
            matches!(whole(input), Found::Refused(LexerReportKind::FloatLiteralNotSupported)),
            "input: {}",
            input
        );
    }
}

#[test]
fn numbers_too_large_overflow() {
    assert!(matches!(
        whole("18446744073709551616"),
        Found::Refused(LexerReportKind::CantParseU64(ParseU64Error::PosOverflow))
    ));
    assert_eq!(uint(whole("18446744073709551615")), (UintKind::Unspecified, u64::MAX));
}

#[test]
fn exponent_needs_a_decimal_part() {
    let (found, end) = lexeme("12e5");
    assert_eq!(end, 2);
    assert_eq!(uint(found), (UintKind::Unspecified, 12));
    let (found, end) = lexeme("1.5e+x");
    assert_eq!(end, 3);
    assert!(matches!(found, Found::Refused(LexerReportKind::FloatLiteralNotSupported)));
}

#[test]
fn keywords_and_longest_operators() {
    assert!(matches!(whole("let"), Found::Token(BaseToken::Let)));
    assert!(matches!(whole("unqualified"), Found::Token(BaseToken::Unqualified)));
    assert!(matches!(whole("lets"), Found::Name(0, 4)));
    let (found, end) = lexeme("<*>x");
    assert!(matches!(found, Found::Token(BaseToken::Appliative)));
    assert_eq!(end, 3);
    let (found, end) = lexeme("'infinite");
    assert!(matches!(found, Found::Token(BaseToken::OwnershipLiteral(OwnershipLiteral::Inf))));
    assert_eq!(end, 4);
}

#[test]
fn unknown_char_is_not_matched() {
    let chars = chars_of("~");
    assert!(lexeme_of(&chars, 0).is_none());
}

#[test]
fn block_comments_close_at_their_own_braces() {
    match whole("{- a -x} -}") {
        Found::Block(CommentKind::NonDocumentation, CommentBraceKind::Brace0, 3, 9) => {}
        other => panic!("{:?}", other),
    }
    match whole("{--| doc --}") {
        Found::Block(CommentKind::Documentation, CommentBraceKind::Brace1, 4, 9) => {}
        other => panic!("{:?}", other),
    }
    let (found, end) = lexeme("{- a --}");
    assert!(matches!(found, Found::Refused(LexerReportKind::CouldntMatchBlockComment(CommentBraceKind::Brace0))));
    assert_eq!(end, 2);
}

/// Every base token of a source, or the first report.
fn base_tokens(src: &str, store: &mut Store) -> Vec<(Span, BaseToken)> {
    let mut lexer = BaseLexerContext::new(src);
    let mut out = Vec::new();
    while let Some(r) = lexer.next(store) {
        out.push(r.expect("no report"));
    }
    out
}

#[test]
fn lexes_a_definition() {
    let mut store = Store::default();
    let tokens = base_tokens("let x = 0x1F in x", &mut store);
    let kinds: Vec<&BaseToken> = tokens.iter().map(|(_, t)| t).collect();
    assert_eq!(kinds.len(), 6);
    assert!(matches!(kinds[0], BaseToken::Let));
    assert!(matches!(kinds[1], BaseToken::Identifier(_)));
    assert!(matches!(kinds[2], BaseToken::Asignation));
    assert!(matches!(kinds[3], BaseToken::UintLiteral(l) if l.value == 31 && l.kind == UintKind::Hex));
    assert!(matches!(kinds[4], BaseToken::In));
    match (kinds[1], kinds[5]) {
        (BaseToken::Identifier(a), BaseToken::Identifier(b)) => {
            assert_eq!(a.as_tuple(), b.as_tuple());
            assert_eq!(store.regular.resolve(a.as_tuple().0), Some("x"));
        }
        _ => panic!("identifiers expected"),
    }
}

#[test]
fn positions_count_lines_and_bytes() {
    let mut store = Store::default();
    let tokens = base_tokens("ab\n  àc d", &mut store);
    assert_eq!(tokens.len(), 3);
    let span = tokens[1].0;
    assert_eq!((span.start.source_index, span.start.line, span.start.column), (5, 1, 2));
    assert_eq!((span.end.source_index, span.end.line, span.end.column), (8, 1, 5));
    let last = tokens[2].0;
    assert_eq!((last.start.source_index, last.start.line, last.start.column), (9, 1, 6));
}

#[test]
fn unexpected_char_is_reported_without_moving() {
    let mut store = Store::default();
    let mut lexer = BaseLexerContext::new("  ~");
    match lexer.next(&mut store) {
        Some(Err(report)) => {
            assert!(matches!(report.report, ParserReport::Lexer(LexerReportKind::UnexpectedCharacter)));
            match report.location {
                Location::Position(p) => assert_eq!((p.source_index, p.line, p.column), (2, 0, 2)),
                _ => panic!("a position is expected"),
            }
        }
        other => panic!("{:?}", other),
    }
    assert!(matches!(lexer.next(&mut store), Some(Err(_))));
}

#[test]
fn line_comments_keep_their_text() {
    let mut store = Store::default();
    let tokens = base_tokens("-- | some doc\n// other", &mut store);
    assert_eq!(tokens.len(), 2);
    match &tokens[0].1 {
        BaseToken::LineComment(l) => {
            assert_eq!(l.kind, CommentKind::Documentation);
            assert_eq!(l.start, LineCommentStart::DoubleHyphen);
            assert_eq!(store.comments.get(l.content.get_index()), Some(" some doc"));
            assert_eq!(l.content.get_len(), 9);
            assert_eq!((l.span.end.line, l.span.end.column), (1, 0));
        }
        other => panic!("{:?}", other),
    }
    match &tokens[1].1 {
        BaseToken::LineComment(l) => {
            assert_eq!(l.kind, CommentKind::NonDocumentation);
            assert_eq!(store.comments.get(l.content.get_index()), Some("other"));
        }
        other => panic!("{:?}", other),
    }
}

#[test]
fn block_comments_store_their_lines() {
    let mut store = Store::default();
    let tokens = base_tokens("{- one\ntwo -}", &mut store);
    assert_eq!(tokens.len(), 1);
    match &tokens[0].1 {
        BaseToken::BlockComment(b) => {
            assert_eq!(b.content.len(), 2);
            assert_eq!(store.comments.get(b.content[0].get_index()), Some("one"));
            assert_eq!(store.comments.get(b.content[1].get_index()), Some("two "));
        }
        other => panic!("{:?}", other),
    }
}

/// Every token with its comments.
fn tokens(src: &str, store: &mut Store) -> Vec<Token> {
    let mut lexer = LexerContext::new(None, BaseLexerContext::new(src));
    let mut out = Vec::new();
    while let Some(r) = lexer.next(store) {
        let (_, t, _) = r.expect("no report");
        out.push(t);
    }
    out
}

fn comment_text(c: &Comment, store: &Store) -> String {
    match c {
        Comment::Line(l) => store.comments.get(l.content.get_index()).unwrap().to_string(),
        Comment::Block(b) => store.comments.get(b.content[0].get_index()).unwrap().to_string(),
    }
}

#[test]
fn comments_attach_to_tokens() {
    let mut store = Store::default();
    let ts = tokens("-- before\na -- same line\n-- next\nb", &mut store);
    assert_eq!(ts.len(), 2);
    match (&ts[0], &ts[1]) {
        (Token::Identifier(ia, _), Token::Identifier(ib, _)) => {
            assert_eq!(ia.comments.before.len(), 1);
            assert_eq!(comment_text(&ia.comments.before[0], &store), "before");
            assert_eq!(ia.comments.after.len(), 1);
            assert_eq!(comment_text(&ia.comments.after[0], &store), "same line");
            assert_eq!(ib.comments.before.len(), 1);
            assert_eq!(comment_text(&ib.comments.before[0], &store), "next");
            assert_eq!(ib.comments.after.len(), 0);
        }
        other => panic!("{:?}", other),
    }
}

#[test]
fn last_comments_make_a_token() {
    let mut store = Store::default();
    let ts = tokens("a\n-- one\n{- two -}", &mut store);
    assert_eq!(ts.len(), 2);
    match &ts[1] {
        Token::LastComments(info, cs) => {
            assert_eq!(cs.len(), 2);
            assert_eq!(comment_text(&cs[0], &store), "one");
            assert_eq!(comment_text(&cs[1], &store), "two ");
            assert_eq!(info.span.start.source_index, 2);
            assert_eq!(info.span.end.source_index, 18);
        }
        other => panic!("{:?}", other),
    }
}

#[test]
fn only_comments_make_one_token() {
    let mut store = Store::default();
    let ts = tokens("// alone", &mut store);
    assert_eq!(ts.len(), 1);
    assert!(matches!(&ts[0], Token::LastComments(_, cs) if cs.len() == 1));
    let empty = tokens("   \n ", &mut store);
    assert!(empty.is_empty());
}

#[test]
fn reports_pass_through_the_token_lexer() {
    let mut store = Store::default();
    let mut lexer = LexerContext::new(None, BaseLexerContext::new("a {- never closed"));
    let first = lexer.next(&mut store).expect("a token");
    assert!(first.is_ok());
    match lexer.next(&mut store) {
        Some(Err(report)) => assert!(matches!(
            report.report,
            ParserReport::Lexer(LexerReportKind::CouldntMatchBlockComment(CommentBraceKind::Brace0))
        )),
        other => panic!("{:?}", other),
    }
}

#[test]
fn split_keeps_order() {
    let mut store = Store::default();
    let ts = base_tokens("-- a\n-- b\n-- c", &mut store);
    let comments: Vec<Comment> = ts
        .into_iter()
        .map(|(_, t)| match t {
            BaseToken::LineComment(l) => Comment::Line(l),
            _ => panic!("comment expected"),
        })
        .collect();
    let (same, other) = split_comments_by_line(1, comments);
    assert_eq!(same.len(), 1);
    assert_eq!(comment_text(&same[0], &store), "b");
    assert_eq!(other.len(), 2);
    assert_eq!(comment_text(&other[0], &store), "a");
    assert_eq!(comment_text(&other[1], &store), "c");
}

#[test]
fn position_display() {
    let p = Position { source_index: 10, line: 3, column: 14 };
    assert_eq!(p.to_string(), "[3, 14]");
    let s = Span { start: p, end: Position { source_index: 12, line: 3, column: 16 } };
    assert_eq!(s.to_string(), "[3, 14] - [3, 16]");
}

#[test]
fn tokens_convert_to_syntax_tree_tokens() {
    let mut store = Store::default();
    let ts = tokens("x 7", &mut store);
    let id = octizys::parser::tokens::identifier_token_to_token(ts[0].clone()).unwrap();
    assert_eq!(id.info.span.start.source_index, 0);
    assert_eq!(store.regular.resolve(id.value.as_tuple().0), Some("x"));
    let n = octizys::parser::tokens::uint_token_to_token(ts[1].clone()).unwrap();
    assert_eq!(n.value.value, 7);
    let e = octizys::parser::tokens::uint_token_to_token(ts[0].clone()).unwrap_err();
    assert!(matches!(e.report, ParserReport::Lexer(LexerReportKind::CantTranslateToToken(_))));
    match e.location {
        Location::Span(s) => assert_eq!((s.start.source_index, s.end.source_index), (0, 1)),
        _ => panic!("a span is expected"),
    }
}

#[test]
fn base_tokens_keep_their_kind() {
    let info = octizys::cst::base::TokenInfo::make(
        octizys::cst::comments::CommentsInfo::empty(),
        Position { source_index: 1, line: 0, column: 1 },
        Position { source_index: 3, line: 0, column: 3 },
    );
    let t = octizys::parser::tokens::aux_base_token_to_token(BaseToken::LogicPathSeparator, info.clone());
    assert!(matches!(t, Token::ModuleSeparator(_)));
    assert_eq!(*t.info(), info);
    let t = octizys::parser::tokens::aux_base_token_to_token(BaseToken::NamedHole(4), info);
    assert!(matches!(t, Token::NamedHole(_, 4)));
}

#[test]
fn every_comment_reaches_a_token_in_order() {
    let mut store = Store::default();
    let ts = tokens("-- a\nx -- b\n{- c -} y\n-- d\n", &mut store);
    let mut seen = Vec::new();
    for t in &ts {
        match t {
            Token::LastComments(_, cs) => seen.extend(cs.iter().map(|c| comment_text(c, &store))),
            other => {
                let info = other.info();
                seen.extend(info.comments.before.iter().map(|c| comment_text(c, &store)));
                seen.extend(info.comments.after.iter().map(|c| comment_text(c, &store)));
            }
        }
    }
    assert_eq!(seen, vec!["a", "b", "c ", "d"]);
    assert_eq!(ts.len(), 3);
}

#[test]
fn lexer_report_texts() {
    let k = LexerReportKind::UnexpectedCharacter;
    assert_eq!(k.get_report_name(), "UnexpectedCharacter");
    assert_eq!(k.get_short_description(), "The provided character doesn't correspond to a valid program.");
    assert!(k.get_expected().is_none());
    let k = LexerReportKind::CantCreateIdentifier;
    assert_eq!(k.get_report_name(), "Internal:CantCreateIdentifier");
    assert_eq!(k.get_short_description(), "This is a bug in octizys, please report it!");
    let p = ParserReport::Lexer(LexerReportKind::CouldntMatchBlockComment(CommentBraceKind::Brace2));
    assert_eq!(p.get_report_name(), "CouldntMatchBlockComment");
    assert_eq!(p.get_expected(), Some(vec![String::from("---}")]));
    assert!(p.get_long_description(&ReportTarget::default()).unwrap().starts_with("We were looking"));
}

fn plain_info(i: usize) -> octizys::cst::base::TokenInfo {
    octizys::cst::base::TokenInfo::make(
        octizys::cst::comments::CommentsInfo::empty(),
        Position { source_index: i, line: 0, column: i },
        Position { source_index: i + 1, line: 0, column: i + 1 },
    )
}

#[test]
fn each_token_kind_converts_only_itself() {
    let mut store = Store::default();
    let id = octizys::identifier::Identifier::make("f", &mut store).unwrap();
    let sel = octizys::parser::tokens::selector_token_to_token(Token::Selector(plain_info(2), id)).unwrap();
    assert_eq!((sel.value, sel.info.span.start.source_index), (id, 2));
    let hole = octizys::parser::tokens::named_hole_token_to_token(Token::NamedHole(plain_info(5), 9)).unwrap();
    assert_eq!(hole.value, 9);
    let s = octizys::parser::tokens::string_token_to_token(Token::StringLiteral(plain_info(1), StringLiteral { kind: StringKind::Raw0, value: vec![] }))
        .unwrap();
    assert!(s.value.value.is_empty());
    let i = octizys::parser::tokens::interpolation_token_to_token(Token::StringInterpolation(plain_info(1), InterpolationString { value: vec![] }))
        .unwrap();
    assert!(i.value.value.is_empty());
    let f = octizys::parser::tokens::ufloat_token_to_token(Token::UFloatLiteral(
        plain_info(3),
        UFloatingPointLiteral { kind: UFloatingPointKind::F64, integral_part: 12, exponent: 2 },
    ))
    .unwrap();
    assert_eq!(f.value.integral_part, 12);
    let e = octizys::parser::tokens::named_hole_token_to_token(Token::Selector(plain_info(4), id)).unwrap_err();
    assert!(matches!(e.report, ParserReport::Lexer(LexerReportKind::CantTranslateToToken(Token::Selector(_, _)))));
    let e = octizys::parser::tokens::last_comment_token_to_token(Token::NamedHole(plain_info(6), 1)).unwrap_err();
    match e.location {
        Location::Span(s) => assert_eq!(s.start.source_index, 6),
        _ => panic!("a span is expected"),
    }
    let ts = tokens("x -- note\ny", &mut store);
    assert!(octizys::parser::tokens::last_comment_token_to_token(ts[0].clone()).is_err());
}

#[test]
fn whole_sources_are_lexed_with_every_comment() {
    let mut store = Store::default();
    let ts = lex_all("-- a\nx -- b\n{- c -} y\n-- d\n", &mut store).expect("no report");
    assert_eq!(ts.len(), 3);
    let mut seen = Vec::new();
    for t in &ts {
        match t {
            Token::LastComments(_, cs) => seen.extend(cs.iter().map(|c| comment_text(c, &store))),
            other => {
                let info = other.info();
                seen.extend(info.comments.before.iter().map(|c| comment_text(c, &store)));
                seen.extend(info.comments.after.iter().map(|c| comment_text(c, &store)));
            }
        }
    }
    assert_eq!(seen, vec!["a", "b", "c ", "d"]);
    assert!(lex_all("", &mut store).unwrap().is_empty());
}

#[test]
fn whole_sources_stop_at_the_first_report() {
    let mut store = Store::default();
    let report = lex_all("a b ~ c", &mut store).unwrap_err();
    assert!(matches!(report.report, ParserReport::Lexer(LexerReportKind::UnexpectedCharacter)));
    let text = report.report_text(ReportTarget::default(), "a b ~ c", "main.oct", 80);
    assert_eq!(
        text,
        "Error![UnexpectedCharacter]: The provided character doesn't correspond to a valid program.\n  -->main.oct::At::Line{1}::Column{5}\n    a b ~ c\n        ^\n  While reading the code, we were unable to understand this particular character."
    );
    let machine = report.report_text(ReportTarget::Machine(octizys::report::ReportUserKind::New), "a b ~ c", "m", 80);
    assert!(machine.starts_with("Error!:The provided character"));
}

#[test]
fn reports_show_what_was_expected() {
    let report = octizys::parser::report::OctizysParserReport {
        kind: octizys::report::ReportKind::Error,
        report: ParserReport::Lexer(LexerReportKind::CouldntMatchBlockComment(CommentBraceKind::Brace0)),
        location: Location::Span(Span {
            start: Position { source_index: 2, line: 0, column: 2 },
            end: Position { source_index: 4, line: 0, column: 4 },
        }),
    };
    let text = report.report_text(ReportTarget::default(), "a {- x", "f", 80);
    let lines: Vec<&str> = text.split('\n').collect();
    assert_eq!(lines[1], "  -->f::From::Line{1}::Column{3}::To::Line{1}::Column{5}");
    assert_eq!(lines[2], "    a {- x");
    assert_eq!(lines[3], "      ^^Expected:-}");
    assert!(lines[4].starts_with("  We were looking"));
    let machine = report.report_text(ReportTarget::Machine(octizys::report::ReportUserKind::New), "a {- x", "f", 80);
    assert!(machine.contains("^^Expected one of: -}"));
}
