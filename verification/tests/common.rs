use octizys::arguments::{AvailableRenderers, FormatterConfiguration, GlobalOptions};
use octizys::configuration::PrettyCSTConfiguration;
use octizys::equivalence::Equivalence;
use octizys::cst::base::{Comma, LogicPathSeparator, Token, TokenInfo, TrailingList};
use octizys::cst::comments::{
    Comment, CommentBlock, CommentLine, LineCommentStart, CommentBraceKind, CommentKind, CommentLineContent, CommentsInfo,
};
use octizys::cst::expressions::Expression;
use octizys::cst::plain;
use octizys::cst::types::{Type, TypeBase};
use octizys::cst::pretty::{PrettyCSTCache, PrettyCSTConfig, PrettyCSTContext};
use octizys::identifier::{Identifier, IdentifierError};
use octizys::language::common::{unsafe_make_record, Label, Record};
use octizys::logic_path::{LogicPath, LogicPathError};
use octizys::module_logic_path::{ModuleLogicPath, ModuleLogicPathError};
use octizys::report::{source_excerpt, IOError, ReportFormat, ReportKind, ReportTarget, ReportUserKind};
use octizys::span::{range_to_span, Location, Position, Span};
use octizys::store::Store;

fn pos(i: usize) -> Position {
    Position { source_index: i, line: 0, column: i }
}

#[test]
fn add_of_library() {
    assert_eq!(octizys::add(2, 2), 4);
}

#[test]
fn spans_add_to_the_smallest_cover() {
    let a = Span { start: pos(3), end: pos(5) };
    let b = Span { start: pos(1), end: pos(4) };
    let c = a + b;
    assert_eq!((c.start.source_index, c.end.source_index), (1, 5));
    let d = b + a;
    assert_eq!((d.start.source_index, d.end.source_index), (1, 5));
    assert!(a + a == a);
    let e = Span::from(((1, 0, 1), (2, 0, 2)));
    assert_eq!(e.end.column, 2);
    let r = range_to_span(4..9);
    assert_eq!((r.start.source_index, r.end.source_index, r.end.line), (4, 9, 0));
    assert!(Position::from((7, 1, 2)) == Position { source_index: 7, line: 9, column: 9 });
}

#[test]
fn position_text_around() {
    let src = "hello world";
    let p = pos(6);
    assert_eq!(p.get_text_at(src, None), ("hello ", "world"));
    let src = "ab\ncd\nef";
    let p = Position { source_index: 4, line: 1, column: 1 };
    assert_eq!(p.get_text_at(src, Some(4)), ("c", "d"));
}

#[test]
fn position_text_around_multibyte() {
    let src = "aé b";
    let p = Position { source_index: 4, line: 0, column: 4 };
    let (before, after) = p.get_text_at(src, Some(2));
    assert_eq!((before, after), (" ", "b"));
    let p = Position { source_index: 3, line: 0, column: 3 };
    let (before, after) = p.get_text_at(src, Some(2));
    assert_eq!((before, after), ("é", " "));
}

#[test]
fn span_text_around() {
    let src = "one\ntwo three\nfour";
    let s = Span { start: pos(8), end: pos(13) };
    assert_eq!(s.get_text_at(src, None), ("", "three", ""));
    assert_eq!(s.get_text_at(src, Some(1)), ("", "three", ""));
    assert_eq!(s.get_text_at(src, Some(20)), ("two ", "three", ""));
}

#[test]
fn identifiers_are_checked_and_stored() {
    let mut store = Store::default();
    let a = Identifier::make("_abc1", &mut store).unwrap();
    let b = Identifier::make("_abc1", &mut store).unwrap();
    assert_eq!(a.as_tuple(), b.as_tuple());
    assert_eq!(a.as_tuple().1, 5);
    assert_eq!(store.regular.len(), 1);
    assert_eq!(store.regular.resolve(a.as_tuple().0), Some("_abc1"));
    assert_eq!(Identifier::make("", &mut store), Err(IdentifierError::EmptyIdentifier));
    match Identifier::make("1abc", &mut store) {
        Err(IdentifierError::ContainsInvalidCodePoint(t)) => assert_eq!(t, "1abc"),
        other => panic!("{:?}", other),
    }
    match Identifier::make("a b", &mut store) {
        Err(e) => assert_eq!(e.to_string(), "invalid char in Identifier: a b"),
        other => panic!("{:?}", other),
    }
    assert_eq!(IdentifierError::EmptyIdentifier.to_string(), "attempt to build empty identifier");
    assert_eq!(store.regular.len(), 1);
}

#[test]
fn logic_paths_drop_the_last_piece() {
    let mut store = Store::default();
    let p = LogicPath::make("a::b::cder::", &mut store).unwrap();
    assert_eq!(p.identifiers().len(), 3);
    let names: Vec<&str> =
        p.identifiers().iter().map(|i| store.regular.resolve(i.as_tuple().0).unwrap()).collect();
    assert_eq!(names, vec!["a", "b", "cder"]);
    let q = LogicPath::make("a::b", &mut store).unwrap();
    assert_eq!(q.identifiers().len(), 1);
    assert_eq!(LogicPath::make("a::1b::", &mut store), Err(LogicPathError::NotIdentifier));
    assert_eq!(LogicPathError::NotIdentifier.to_string(), "invalid char in Identifier while building path");
    let m = ModuleLogicPath::make("x::y::", &mut store).unwrap();
    assert_eq!(m.identifiers().len(), 2);
    assert_eq!(ModuleLogicPath::make("x::-::", &mut store), Err(ModuleLogicPathError::NotIdentifier));
    assert_eq!(ModuleLogicPathError::EmptyString.to_string(), "attempt to build empty identifier");
    assert_eq!(LogicPath::try_from(Vec::new()), Err(LogicPathError::EmptyString));
}

#[test]
fn stores_intern_once() {
    let mut store = Store::default();
    let a = store.regular.unsafe_add("x");
    let b = store.regular.unsafe_add("y");
    let c = store.regular.unsafe_add("x");
    assert_eq!(a.0, 0);
    assert_eq!(b.0, 1);
    assert_eq!(c.0, 0);
    assert_eq!(store.regular.resolve(b), Some("y"));
    assert_eq!(store.comments.add_str("line"), Some(0));
    assert_eq!(store.comments.add_str("two\nlines"), None);
    assert_eq!(store.comments.get(0), Some("line"));
    assert_eq!(store.comments.len(), 1);
}

fn line(store: &mut Store, text: &str, i: usize) -> Comment {
    let content = CommentLineContent::make_register(text, store).unwrap();
    Comment::Line(octizys::cst::comments::CommentLine {
        kind: CommentKind::NonDocumentation,
        start: octizys::cst::comments::LineCommentStart::DoubleHyphen,
        content,
        span: Span { start: pos(i), end: pos(i + 1) },
    })
}

#[test]
fn comments_move_and_merge() {
    let mut store = Store::default();
    let c1 = line(&mut store, "a", 1);
    let c2 = line(&mut store, "b", 2);
    let c3 = line(&mut store, "c", 3);
    let c4 = line(&mut store, "d", 4);
    let mut info = CommentsInfo { before: vec![c1.clone()], after: vec![c2.clone(), c3.clone()] };
    info.move_after_to_before();
    assert_eq!(info.before, vec![c1.clone(), c3.clone(), c2.clone()]);
    assert!(info.after.is_empty());
    let mut other = CommentsInfo::empty();
    other.push(c4.clone());
    let mut target = CommentsInfo { before: vec![], after: vec![c1.clone()] };
    target.consume_info(other.clone());
    assert_eq!(target.before, vec![c1.clone(), c4.clone()]);
    let mut absorbing = CommentsInfo::empty();
    absorbing.absorb_info(CommentsInfo { before: vec![c2.clone()], after: vec![c3.clone()] });
    assert_eq!(absorbing.before, vec![c2.clone(), c3.clone()]);
    let mut extended = CommentsInfo::default();
    extended.extend(vec![c1.clone(), c2.clone()]);
    assert_eq!(extended.before.len(), 2);
    extended.compact_comments();
    assert_eq!(extended.before.len(), 1);
    match &extended.before[0] {
        Comment::Block(b) => {
            assert_eq!(b.content.len(), 2);
            assert_eq!((b.span.start.source_index, b.span.end.source_index), (1, 3));
        }
        _ => panic!("a block is expected"),
    }
    assert_eq!(c3.get_span().start.source_index, 3);
}

#[test]
fn token_infos_merge() {
    let mut store = Store::default();
    let c1 = line(&mut store, "a", 1);
    let mut a = TokenInfo::make(CommentsInfo { before: vec![], after: vec![c1.clone()] }, pos(5), pos(6));
    let b = TokenInfo::make(CommentsInfo::empty(), pos(2), pos(3));
    a.consume_info(b);
    assert_eq!((a.span.start.source_index, a.span.end.source_index), (2, 6));
    assert_eq!(a.comments.before, vec![c1]);
    assert!(a.comments.after.is_empty());
}

#[test]
fn block_comments_store_lines() {
    let mut store = Store::default();
    let b = CommentBlock::make(
        CommentKind::Documentation,
        CommentBraceKind::Brace2,
        "x\ny\n",
        pos(0),
        pos(9),
        &mut store,
    );
    assert_eq!(b.content.len(), 3);
    assert_eq!(store.comments.get(b.content[1].get_index()), Some("y"));
    assert_eq!(store.comments.get(b.content[2].get_index()), Some(""));
    assert_eq!(CommentBraceKind::Brace2.len(), 4);
    let parts = CommentLineContent::decompose_register("é\nab", &mut store);
    assert_eq!(parts[0].get_len(), 2);
    assert_eq!(parts[1].get_len(), 2);
}

#[test]
fn plain_comment_lines() {
    assert_eq!(plain::CommentLineContent::make("abc").unwrap().content, "abc");
    assert_eq!(
        plain::CommentLineContent::make("a\nb"),
        Err(String::from("CommentLines souldn't containt line breaks!"))
    );
    let lines = plain::CommentLineContent::decompose("a\nb\n\nc");
    let texts: Vec<&str> = lines.iter().map(|l| l.content.as_str()).collect();
    assert_eq!(texts, vec!["a", "b", "", "c"]);
    let config = plain::PrettyCSTConfig::new();
    assert_eq!((config.line_width, config.indentation_deep), (80, 2));
}

#[test]
fn layout_defaults() {
    let a = PrettyCSTConfig::default();
    assert!(!a.add_trailing_separator);
    assert_eq!(a.indentation_deep, 2);
    let b = PrettyCSTConfiguration::default();
    assert!(b.add_trailing_separator);
    assert_eq!(b.separe_comments_by, 1);
}

#[test]
fn cache_words_are_stored() {
    let mut store = Store::default();
    let cache = PrettyCSTCache::new(&mut store);
    assert_eq!(store.regular.resolve(cache.import.symbol), Some("import"));
    assert_eq!(store.regular.resolve(cache.right_arrow.symbol), Some("->"));
    assert_eq!(cache.right_arrow.len, 2);
    assert_eq!(cache.slash.symbol, cache.div.symbol);
    let context = PrettyCSTContext::new(PrettyCSTConfig::default(), cache);
    assert_eq!(context.cache.import.symbol, cache.import.symbol);
}

#[test]
fn io_error_reports() {
    let e = IOError::FileLoadError { path: Some(String::from("a.oct")) };
    let r = e.build_report_request(ReportTarget::default(), String::from("other"), 70);
    assert_eq!(r.source_context.src_name, "a.oct");
    assert_eq!(r.source_context.max_line_width, 70);
    assert_eq!(r.kind, ReportKind::Error);
    assert_eq!(e.get_report_name(), "OctizysCommandLineArgument");
    assert_eq!(e.get_short_description(), "Can't open a file!");
    assert_eq!(
        e.get_long_description(&ReportTarget::default()),
        Some(String::from("Couldn't open the file:a.oct"))
    );
    assert!(e.get_expected().is_none());
    assert!(e.get_location_maybe().is_none());
    let e = IOError::FileLoadError { path: None };
    let r = e.build_report_request(ReportTarget::default(), String::from("other"), 70);
    assert_eq!(r.source_context.src_name, "other");
    let e = IOError::REPlCantReadLine { error: String::from("closed") };
    assert_eq!(e.get_report_name(), "OctizysREPL");
    assert_eq!(e.get_short_description(), "Can't read line!");
    assert_eq!(
        e.get_long_description(&ReportTarget::default()),
        Some(String::from("While trying to read a line:closed"))
    );
    assert_eq!(ReportKind::Warning.as_str(), "Warning");
}

#[test]
fn core_records_keep_fields() {
    let l = Label::make(String::from("x")).unwrap();
    let r = match Record::make(vec![(l.clone(), 3u64)]) {
        Ok(r) => r,
        Err(_) => panic!("every list of fields makes a record"),
    };
    assert_eq!(r, unsafe_make_record(vec![(l, 3u64)]));
}

fn formatter(machine: bool, advanced: bool) -> FormatterConfiguration {
    FormatterConfiguration {
        indentation_deep: 4,
        leading_commas: false,
        add_trailing_separator: true,
        move_documentantion_before_object: false,
        separe_by: 3,
        compact_comments: false,
        use_machine_representation: machine,
        use_advanced_errors: advanced,
        renderer: AvailableRenderers::AnsiC8,
        column_width: 100,
    }
}

#[test]
fn options_from_the_command_line() {
    let human = GlobalOptions::from(formatter(false, true));
    assert_eq!(human.target, ReportTarget::Human(ReportUserKind::Advanced));
    assert_eq!(human.renderer, AvailableRenderers::AnsiC8);
    assert_eq!(human.column_width, 100);
    assert_eq!(human.pretty_configuration.indentation_deep, 4);
    assert_eq!(human.pretty_configuration.separe_comments_by, 3);
    assert!(!human.pretty_configuration.indent_comment_blocks);
    let machine = GlobalOptions::from(formatter(true, false));
    assert_eq!(machine.target, ReportTarget::Machine(ReportUserKind::New));
    assert_eq!(machine.renderer, AvailableRenderers::PlainText);
}

/// A line comment with the given text, stored in the store, at `i`.
fn line_comment(text: &str, i: usize, store: &mut Store) -> Comment {
    Comment::Line(CommentLine {
        kind: CommentKind::NonDocumentation,
        start: LineCommentStart::DoubleHyphen,
        content: CommentLineContent::make_register(text, store).unwrap(),
        span: Span { start: pos(i), end: pos(i + 1) },
    })
}

fn info_at(i: usize, before: Vec<Comment>, after: Vec<Comment>) -> TokenInfo {
    TokenInfo::make(CommentsInfo { before, after }, pos(i), pos(i + 1))
}

#[test]
fn identifier_list_becomes_a_path_with_all_comments() {
    let mut store = Store::default();
    let a = Identifier::make("a", &mut store).unwrap();
    let b = Identifier::make("b", &mut store).unwrap();
    let c = Identifier::make("c", &mut store).unwrap();
    let c1 = line_comment("one", 0, &mut store);
    let c2 = line_comment("two", 1, &mut store);
    let c3 = line_comment("three", 2, &mut store);
    let c4 = line_comment("four", 3, &mut store);
    let first = Token { value: a, info: info_at(0, vec![c1.clone()], vec![c2.clone()]) };
    let list: TrailingList<Token<Identifier>, LogicPathSeparator> = TrailingList::from_parts(
        first,
        vec![
            (info_at(1, vec![], vec![]), Token { value: b, info: info_at(3, vec![c3.clone()], vec![]) }),
            (info_at(4, vec![], vec![]), Token { value: c, info: info_at(6, vec![], vec![c4.clone()]) }),
        ],
        None,
    );
    assert_eq!(list.items.len(), 2);
    assert_eq!(list.items[1].separator.span.start.source_index, 4);
    let path = list.to_logic_path();
    assert_eq!(path.value.identifiers().clone(), vec![a, b, c]);
    assert_eq!(path.info.span, Span { start: pos(0), end: pos(1) });
    assert_eq!(path.info.comments.before, vec![c1, c2, c3, c4]);
    assert!(path.info.comments.after.is_empty());
}

#[test]
fn consuming_a_token_moves_its_comments() {
    let mut store = Store::default();
    let c1 = line_comment("one", 0, &mut store);
    let c2 = line_comment("two", 1, &mut store);
    let c3 = line_comment("three", 2, &mut store);
    let mut t = Token { value: 1u64, info: info_at(2, vec![c1.clone()], vec![c2.clone()]) };
    let other = Token { value: "x", info: info_at(7, vec![], vec![c3.clone()]) };
    let v = t.consume_token(other);
    assert_eq!(v, "x");
    assert_eq!(t.value, 1);
    assert_eq!(t.info.comments.before, vec![c1, c2, c3]);
    assert!(t.info.comments.after.is_empty());
    assert_eq!(t.info.span, Span { start: pos(2), end: pos(8) });
}

#[test]
fn list_keeps_the_trailing_separator() {
    let list: TrailingList<u64, Comma> =
        TrailingList::from_parts(1, vec![(info_at(1, vec![], vec![]), 2), (info_at(3, vec![], vec![]), 3)], Some(info_at(5, vec![], vec![])));
    assert_eq!(list.first, 1);
    assert_eq!(list.items.iter().map(|i| i.item).collect::<Vec<_>>(), vec![2, 3]);
    assert_eq!(list.trailing_sep.unwrap().span.start.source_index, 5);
}

fn base_type(b: TypeBase, i: usize) -> Type {
    Type::Base(Token { value: b, info: info_at(i, vec![], vec![]) })
}

#[test]
fn types_that_need_parentheses() {
    let t = base_type(TypeBase::U64, 0);
    assert!(!t.need_parens_application());
    assert!(!t.need_parens_arrow());
    let app = Type::Application {
        start: Box::new(base_type(TypeBase::U8, 0)),
        second: Box::new(base_type(TypeBase::Char, 2)),
        remain: vec![],
    };
    assert!(app.need_parens_application());
    assert!(!app.need_parens_arrow());
    let arrow = Type::Arrow { first: Box::new(base_type(TypeBase::I32, 0)), remain: vec![] };
    assert!(arrow.need_parens_application());
    assert!(arrow.need_parens_arrow());
}

#[test]
fn expressions_that_need_parentheses() {
    let mut store = Store::default();
    let hole = Expression::NamedHole(Token { value: 3, info: info_at(0, vec![], vec![]) });
    assert!(!hole.need_parens());
    let applied = Expression::TypeArgument {
        at: info_at(0, vec![], vec![]),
        type_: Type::Application {
            start: Box::new(base_type(TypeBase::U8, 1)),
            second: Box::new(base_type(TypeBase::Char, 3)),
            remain: vec![],
        },
    };
    assert!(applied.need_parens());
    let simple = Expression::TypeArgument { at: info_at(0, vec![], vec![]), type_: base_type(TypeBase::String, 1) };
    assert!(!simple.need_parens());
    let field = Identifier::make("field", &mut store).unwrap();
    let accessor = Token { value: field, info: info_at(2, vec![], vec![]) };
    let asked = Expression::selector_from_args(Box::new(hole), accessor.clone(), Some(info_at(7, vec![], vec![])));
    match &asked {
        Expression::Interrogation { expression, symbol } => {
            assert_eq!(symbol.span.start.source_index, 7);
            match &**expression {
                Expression::Selector(s) => assert_eq!(s.accessor, accessor),
                _ => panic!("expected a selector"),
            }
        }
        _ => panic!("expected an interrogation"),
    }
    assert!(!asked.need_parens());
    let plain_hole = Expression::NamedHole(Token { value: 4, info: info_at(0, vec![], vec![]) });
    let selected = Expression::selector_from_args(Box::new(plain_hole), accessor, None);
    assert!(matches!(selected, Expression::Selector(_)));
}

fn kinded_line(kind: CommentKind, text: &str, i: usize, store: &mut Store) -> Comment {
    Comment::Line(CommentLine {
        kind,
        start: LineCommentStart::DoubleSlash,
        content: CommentLineContent::make_register(text, store).unwrap(),
        span: Span { start: pos(i), end: pos(i + 1) },
    })
}

#[test]
fn compacting_merges_runs_of_one_kind() {
    let mut store = Store::default();
    let d = CommentKind::Documentation;
    let n = CommentKind::NonDocumentation;
    let mut before = Vec::new();
    for (k, t, i) in [(d, "1", 0), (d, "2", 1), (d, "3", 2), (d, "4", 3), (d, "6", 4), (n, "8", 5)] {
        before.push(kinded_line(k, t, i, &mut store));
    }
    before.push(Comment::Block(CommentBlock::make(n, CommentBraceKind::Brace1, "9", pos(6), pos(7), &mut store)));
    for (k, t, i) in [(d, "10", 8), (d, "11", 9)] {
        before.push(kinded_line(k, t, i, &mut store));
    }
    let after = vec![kinded_line(n, "after", 12, &mut store)];
    let mut info = CommentsInfo { before, after: after.clone() };
    info.compact_comments();
    assert_eq!(info.after, after);
    assert_eq!(info.before.len(), 3);
    let mut texts = Vec::new();
    let mut kinds = Vec::new();
    for c in &info.before {
        match c {
            Comment::Block(b) => {
                kinds.push(b.kind);
                texts.push(
                    b.content.iter().map(|l| store.comments.get(l.get_index()).unwrap().to_string()).collect::<Vec<_>>(),
                );
            }
            _ => panic!("every comment should be a block"),
        }
    }
    assert_eq!(kinds, vec![d, n, d]);
    assert_eq!(texts, vec![vec!["1", "2", "3", "4", "6"], vec!["8", "9"], vec!["10", "11"]]);
    match &info.before[1] {
        Comment::Block(b) => {
            assert_eq!(b.brace, CommentBraceKind::Brace1);
            assert_eq!(b.span, Span { start: pos(5), end: pos(7) });
        }
        _ => unreachable!(),
    }
}

#[test]
fn identifiers_from_a_match_answer() {
    let mut store = Store::default();
    let a = Identifier::from_match("élan", true, &mut store).unwrap();
    assert_eq!(a.as_tuple().1, 4);
    assert_eq!(store.regular.resolve(a.as_tuple().0), Some("élan"));
    assert_eq!(
        Identifier::from_match("élan", false, &mut store),
        Err(IdentifierError::ContainsInvalidCodePoint(String::from("élan")))
    );
    assert_eq!(Identifier::from_match("", true, &mut store), Err(IdentifierError::EmptyIdentifier));
    assert_eq!(store.regular.len(), 1);
}

#[test]
fn identifier_lists_stop_at_the_first_failing_piece() {
    let mut store = Store::default();
    let pieces = vec![String::from("a"), String::from("1x"), String::from("")];
    assert_eq!(
        octizys::identifier::make_identifiers(&pieces, &mut store),
        Err(IdentifierError::ContainsInvalidCodePoint(String::from("1x")))
    );
    assert_eq!(store.regular.len(), 1);
    let pieces = vec![String::from("a"), String::from(""), String::from("1x")];
    assert_eq!(octizys::identifier::make_identifiers(&pieces, &mut store), Err(IdentifierError::EmptyIdentifier));
}

#[test]
fn io_errors_have_whole_report_texts() {
    let e = IOError::FileLoadError { path: Some(String::from("a.oct")) };
    assert_eq!(
        e.report_text(ReportTarget::default(), String::from("Cmd")),
        "Error![OctizysCommandLineArgument]: Can't open a file!\n  -->a.oct\n  Couldn't open the file:a.oct"
    );
    let e = IOError::REPlCantReadLine { error: String::from("eof") };
    assert_eq!(
        e.report_text(ReportTarget::default(), String::from("Repl")),
        "Error![OctizysREPL]: Can't read line!\n  -->Repl\n  While trying to read a line:eof"
    );
}

#[test]
fn source_excerpts_point_at_the_place() {
    let src = "let x = 12 + y\nnext line";
    let one_line = Span { start: pos(8), end: pos(10) };
    let e = source_excerpt(src, Location::Span(one_line), 80);
    assert_eq!((e.before, e.content, e.after), ("let x = ", "12", " + y"));
    assert_eq!((e.indent, e.pointer.as_str()), (8, "^^"));
    let narrow = source_excerpt(src, Location::Span(one_line), 6);
    assert_eq!((narrow.before, narrow.content, narrow.after), ("= ", "12", " +"));
    assert_eq!(narrow.indent, 2);
    let p = Position { source_index: 4, line: 0, column: 4 };
    let e = source_excerpt(src, Location::Position(p), 80);
    assert_eq!((e.before, e.content, e.after), ("let ", "x", " = 12 + y"));
    assert_eq!((e.indent, e.pointer.as_str()), (4, "^"));
    let several = Span { start: pos(11), end: Position { source_index: 19, line: 1, column: 4 } };
    let e = source_excerpt(src, Location::Span(several), 80);
    assert_eq!((e.before, e.content, e.after, e.pointer.as_str()), ("", "+ y\nnext", "", ""));
}

#[test]
fn equivalence_ignores_places_and_names() {
    let mut store = Store::default();
    let a = Identifier::make("a", &mut store).unwrap();
    let b = Identifier::make("b", &mut store).unwrap();
    assert!(a.equivalent(&b));
    let p1 = LogicPath::from_identifiers(vec![a, b]);
    let p2 = LogicPath::from_identifiers(vec![b, a]);
    let p3 = LogicPath::from_identifier(a);
    assert!(p1.equivalent(&p2));
    assert!(!p1.equivalent(&p3));
    let t1 = Token { value: 3u64, info: info_at(0, vec![], vec![]) };
    let t2 = Token { value: 3u64, info: info_at(9, vec![], vec![]) };
    let t3 = Token { value: 4u64, info: info_at(0, vec![], vec![]) };
    assert!(t1.equivalent(&t2));
    assert!(!t1.equivalent(&t3));
    assert!(vec![1u8, 2].equivalent(&vec![1u8, 2]));
    assert!(!vec![1u8, 2].equivalent(&vec![1u8]));
    assert!(Some(String::from("x")).equivalent(&Some(String::from("x"))));
    assert!(!Some(String::from("x")).equivalent(&None));
    let c1 = line_comment("one", 0, &mut store);
    let mut c2 = c1.clone();
    if let Comment::Line(l) = &mut c2 {
        l.span = Span { start: pos(5), end: pos(9) };
    }
    assert!(c1.equivalent(&c2));
    let c3 = kinded_line(CommentKind::Documentation, "one", 0, &mut store);
    assert!(!c1.equivalent(&c3));
    let list: TrailingList<u64, Comma> = TrailingList::from_parts(1, vec![(info_at(1, vec![], vec![]), 2)], None);
    let other: TrailingList<u64, Comma> =
        TrailingList::from_parts(1, vec![(info_at(7, vec![], vec![]), 2)], Some(info_at(8, vec![], vec![])));
    assert!(list.equivalent(&other));
}
