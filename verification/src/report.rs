//! Reports (errors, warnings and notes) about a source.
use vstd::prelude::*;
use vstd::string::*;
use vstd::utf8::is_char_boundary;
use crate::span::{bytes_of, position_text_at, span_text_at, Location, Position};
use crate::text::{decimal, decimal_text, string_views};

verus! {

/// The source that a report is about.
#[derive(Debug)]
pub struct ReportSourceContext<'source> {
    pub src: &'source str,
    pub src_name: String,
    pub max_line_width: u16,
}

impl<'a> Default for ReportSourceContext<'a> {
    fn default() -> (r: Self)
        ensures
            r.src@.len() == 0,
            r.src_name@ == "octizys_repl"@,
            r.max_line_width == 80,
    {
        let src = "";
        proof {
            reveal_strlit("");
        }
        ReportSourceContext {
            src,
            src_name: String::from_str("octizys_repl"),
            max_line_width: 80,
        }
    }
}

/// Who reads the report.
#[derive(Debug, Clone, Copy, PartialEq, Eq, Structural)]
pub enum ReportUserKind {
    /// A user that is new to programming in general and needs verbose errors
    /// with detailed explanations about basic things.
    New,
    /// A user with some background in programming, who can understand
    /// technical errors with fewer words.
    Advanced,
}

impl Default for ReportUserKind {
    fn default() -> (r: Self)
        ensures
            r == ReportUserKind::New,
    {
        ReportUserKind::New
    }
}

/// Where the report goes.
#[derive(Debug, Clone, Copy, PartialEq, Eq, Structural)]
pub enum ReportTarget {
    /// Regular compiler errors in a terminal or an editor.
    Human(ReportUserKind),
    /// Output that a program processes.
    Machine(ReportUserKind),
}

impl Default for ReportTarget {
    fn default() -> (r: Self)
        ensures
            r == ReportTarget::Human(ReportUserKind::New),
    {
        ReportTarget::Human(ReportUserKind::New)
    }
}

/// How serious a report is.
#[derive(Debug, Clone, Copy, PartialEq, Eq, Structural)]
pub enum ReportKind {
    Error,
    Warning,
    Info,
    Note,
}

impl Default for ReportKind {
    fn default() -> (r: Self)
        ensures
            r == ReportKind::Error,
    {
        ReportKind::Error
    }
}

impl ReportKind {
    /// The name of the kind, as reports show it.
    pub fn as_str(&self) -> (r: &'static str)
        ensures
            r@ == match *self {
                ReportKind::Error => "Error"@,
                ReportKind::Warning => "Warning"@,
                ReportKind::Info => "Info"@,
                ReportKind::Note => "Note"@,
            },
    {
        match self {
            ReportKind::Error => "Error",
            ReportKind::Warning => "Warning",
            ReportKind::Info => "Info",
            ReportKind::Note => "Note",
        }
    }
}

/// What a report tells: its name, its descriptions, what was expected
/// and where it happened.
pub trait ReportFormat {
    fn get_report_name(&self) -> &'static str;

    fn get_short_description(&self) -> &'static str;

    fn get_long_description(&self, target: &ReportTarget) -> Option<String>;

    fn get_expected(&self) -> Option<Vec<String>>;

    fn get_location_maybe(&self) -> Option<Location>;
}

/// What a report needs to be shown: the report, its source, its reader
/// and its kind.
pub struct ReportRequest<'source, T> where T: ReportFormat {
    pub report: &'source T,
    pub source_context: ReportSourceContext<'source>,
    pub target: ReportTarget,
    pub kind: ReportKind,
}

/// The problems with the files and the lines that the program reads.
#[derive(Debug, Clone)]
pub enum IOError {
    /// A file could not be opened; the path, when it is text.
    FileLoadError { path: Option<String> },
    /// The interactive loop could not read a line; the reason.
    REPlCantReadLine { error: String },
}

impl IOError {
    /// The request to show the report of the problem: an error, whose
    /// source is named by the path of the file when it is text, and else by
    /// `alternative_name`.
    pub fn build_report_request(&self, target: ReportTarget, alternative_name: String, line_width: u16) -> (r:
        ReportRequest<IOError>)
        ensures
            r.report == self,
            r.target == target,
            r.kind == ReportKind::Error,
            r.source_context.src@.len() == 0,
            r.source_context.max_line_width == line_width,
            r.source_context.src_name@ == match *self {
                IOError::FileLoadError { path: Some(p) } => p@,
                _ => alternative_name@,
            },
    {
        let mut source_context: ReportSourceContext = Default::default();
        source_context.max_line_width = line_width;
        let kind = ReportKind::Error;
        match self {
            IOError::FileLoadError { path } => {
                let name = match path {
                    Some(p) => p.clone(),
                    None => alternative_name,
                };
                source_context.src_name = name;
                ReportRequest { report: self, source_context, target, kind }
            },
            IOError::REPlCantReadLine { .. } => {
                source_context.src_name = alternative_name;
                ReportRequest { report: self, source_context, target, kind }
            },
        }
    }
}

impl ReportFormat for IOError {
    fn get_report_name(&self) -> (r: &'static str)
        ensures
            r@ == match *self {
                IOError::FileLoadError { .. } => "OctizysCommandLineArgument"@,
                IOError::REPlCantReadLine { .. } => "OctizysREPL"@,
            },
    {
        match self {
            IOError::FileLoadError { .. } => "OctizysCommandLineArgument",
            IOError::REPlCantReadLine { .. } => "OctizysREPL",
        }
    }

    fn get_short_description(&self) -> (r: &'static str)
        ensures
            r@ == match *self {
                IOError::FileLoadError { .. } => "Can't open a file!"@,
                IOError::REPlCantReadLine { .. } => "Can't read line!"@,
            },
    {
        match self {
            IOError::FileLoadError { .. } => "Can't open a file!",
            IOError::REPlCantReadLine { .. } => "Can't read line!",
        }
    }

    fn get_long_description(&self, target: &ReportTarget) -> (r: Option<String>)
        ensures
            r matches Some(t) && t@ == match *self {
                IOError::FileLoadError { path: Some(p) } => "Couldn't open the file:"@ + p@,
                IOError::FileLoadError { path: None } => "Couldn't open the file:"@,
                IOError::REPlCantReadLine { error } => "While trying to read a line:"@ + error@,
            },
    {
        match self {
            IOError::FileLoadError { path } => {
                let mut text = String::from_str("Couldn't open the file:");
                match path {
                    Some(p) => text.append(p.as_str()),
                    None => {},
                }
                Some(text)
            },
            IOError::REPlCantReadLine { error } => {
                let mut text = String::from_str("While trying to read a line:");
                text.append(error.as_str());
                Some(text)
            },
        }
    }

    fn get_expected(&self) -> (r: Option<Vec<String>>)
        ensures
            r is None,
    {
        None
    }

    fn get_location_maybe(&self) -> (r: Option<Location>)
        ensures
            r is None,
    {
        None
    }
}

/// A position as a report shows it, counting lines and columns from one:
/// `Line{l}::Column{c}`.
pub open spec fn position_text(p: Position) -> Seq<char> {
    "Line{"@ + decimal((p.line + 1) as nat) + "}"@ + "::Column{"@ + decimal((p.column + 1) as nat)
        + "}"@
}

/// The position fits the count from one.
pub open spec fn position_countable(p: Position) -> bool {
    p.line < usize::MAX && p.column < usize::MAX
}

/// The place of a report: `::From::start::To::end` for a span, `::At::p`
/// for a position.
pub open spec fn location_text(l: Location) -> Seq<char> {
    match l {
        Location::Span(s) => "::From::"@ + position_text(s.start) + "::To::"@ + position_text(s.end),
        Location::Position(p) => "::At::"@ + position_text(p),
    }
}

/// The positions of the place fit the count from one.
pub open spec fn location_countable(l: Location) -> bool {
    match l {
        Location::Span(s) => position_countable(s.start) && position_countable(s.end),
        Location::Position(p) => position_countable(p),
    }
}

/// Writes a position as a report shows it.
pub fn write_position(p: Position) -> (r: String)
    requires
        position_countable(p),
    ensures
        r@ == position_text(p),
{
    let mut out = String::from_str("Line{");
    out.append(decimal_text(p.line + 1).as_str());
    out.append("}");
    out.append("::Column{");
    out.append(decimal_text(p.column + 1).as_str());
    out.append("}");
    out
}

/// Writes the place of a report.
pub fn write_location(l: Location) -> (r: String)
    requires
        location_countable(l),
    ensures
        r@ == location_text(l),
{
    match l {
        Location::Span(s) => {
            let mut out = String::from_str("::From::");
            out.append(write_position(s.start).as_str());
            out.append("::To::");
            out.append(write_position(s.end).as_str());
            out
        },
        Location::Position(p) => {
            let mut out = String::from_str("::At::");
            out.append(write_position(p).as_str());
            out
        },
    }
}

/// The start of a report: for a person, the kind, the name of the report
/// and its short description, `Error![Name]: description`; for a program,
/// `Error!:description`; then, on a line of its own indented by two, `-->`,
/// the name of the source and the place, if any.
pub open spec fn report_info_start_text(
    kind: ReportKind,
    target: ReportTarget,
    name: Seq<char>,
    short: Seq<char>,
    src_name: Seq<char>,
    location: Option<Location>,
) -> Seq<char> {
    let kind_text = match kind {
        ReportKind::Error => "Error"@,
        ReportKind::Warning => "Warning"@,
        ReportKind::Info => "Info"@,
        ReportKind::Note => "Note"@,
    };
    let head = match target {
        ReportTarget::Human(_) => kind_text + "!["@ + name + "]: "@,
        ReportTarget::Machine(_) => kind_text + "!:"@,
    };
    head + short + "\n  "@ + "-->"@ + src_name + match location {
        Some(l) => location_text(l),
        None => Seq::empty(),
    }
}

/// Writes the start of a report (see [`report_info_start_text`]).
pub fn report_info_start(
    kind: ReportKind,
    target: ReportTarget,
    name: &str,
    short: &str,
    src_name: &str,
    location: Option<Location>,
) -> (r: String)
    requires
        location matches Some(l) ==> location_countable(l),
    ensures
        r@ == report_info_start_text(kind, target, name@, short@, src_name@, location),
{
    let mut out = String::from_str(kind.as_str());
    match target {
        ReportTarget::Human(_) => {
            out.append("![");
            out.append(name);
            out.append("]: ");
        },
        ReportTarget::Machine(_) => {
            out.append("!:");
        },
    }
    out.append(short);
    out.append("\n  ");
    out.append("-->");
    out.append(src_name);
    match location {
        Some(l) => {
            out.append(write_location(l).as_str());
        },
        None => {},
    }
    out
}

/// Whether the positions of the place fit the count from one.
pub fn is_location_countable(l: Location) -> (r: bool)
    ensures
        r == location_countable(l),
{
    match l {
        Location::Span(s) => s.start.line < usize::MAX && s.start.column < usize::MAX && s.end.line
            < usize::MAX && s.end.column < usize::MAX,
        Location::Position(p) => p.line < usize::MAX && p.column < usize::MAX,
    }
}

/// The whole text of a report: its start (see [`report_info_start_text`]),
/// showing the place only when its positions can be counted from one; then,
/// when there is one, the piece of the source on lines of their own indented
/// by four (see [`excerpt_lines`]); then, on a line of its own indented by
/// two, the long description, if any.
pub open spec fn full_report_text(
    kind: ReportKind,
    target: ReportTarget,
    name: Seq<char>,
    short: Seq<char>,
    long: Option<Seq<char>>,
    src_name: Seq<char>,
    location: Option<Location>,
    excerpt: Option<Seq<char>>,
) -> Seq<char> {
    let shown = match location {
        Some(l) => if location_countable(l) {
            Some(l)
        } else {
            None
        },
        None => None,
    };
    report_info_start_text(kind, target, name, short, src_name, shown) + match excerpt {
        Some(x) => "\n    "@ + x,
        None => Seq::empty(),
    } + "\n  "@ + match long {
        Some(t) => t,
        None => Seq::empty(),
    }
}

/// Writes the whole text of a report (see [`full_report_text`]).
pub fn report_text(
    kind: ReportKind,
    target: ReportTarget,
    name: &str,
    short: &str,
    long: Option<String>,
    src_name: &str,
    location: Option<Location>,
    excerpt: Option<String>,
) -> (r: String)
    ensures
        r@ == full_report_text(
            kind,
            target,
            name@,
            short@,
            match long {
                Some(t) => Some(t@),
                None => None,
            },
            src_name@,
            location,
            match excerpt {
                Some(t) => Some(t@),
                None => None,
            },
        ),
{
    let shown = match location {
        Some(l) => if is_location_countable(l) {
            Some(l)
        } else {
            None
        },
        None => None,
    };
    let mut text = report_info_start(kind, target, name, short, src_name, shown);
    match excerpt {
        Some(x) => {
            text.append("\n    ");
            text.append(x.as_str());
        },
        None => {},
    }
    text.append("\n  ");
    match long {
        Some(t) => {
            text.append(t.as_str());
        },
        None => {},
    }
    text
}

/// The items of a list joined by `sep`.
pub open spec fn joined(items: Seq<Seq<char>>, sep: Seq<char>) -> Seq<char>
    decreases items.len(),
{
    if items.len() == 0 {
        Seq::empty()
    } else if items.len() == 1 {
        items[0]
    } else {
        joined(items.drop_last(), sep) + sep + items.last()
    }
}

/// What was expected at the place of a report: nothing without items; for
/// a person and a single item, `Expected:` and the item; else
/// `Expected one of:`, a space for a program, and the items joined by ` ,`.
pub open spec fn expected_text(expected: Option<Seq<Seq<char>>>, target: ReportTarget) -> Seq<char> {
    match expected {
        None => Seq::empty(),
        Some(v) => if v.len() == 0 {
            Seq::empty()
        } else {
            let human = target is Human;
            let head = if v.len() == 1 && human {
                "Expected:"@
            } else {
                "Expected one of:"@
            };
            head + (if human {
                Seq::empty()
            } else {
                " "@
            }) + joined(v, " ,"@)
        },
    }
}

/// Writes what was expected at the place of a report (see
/// [`expected_text`]).
pub fn write_expected(expected: &Option<Vec<String>>, target: ReportTarget) -> (r: String)
    ensures
        r@ == expected_text(
            match *expected {
                Some(v) => Some(string_views(v@)),
                None => None,
            },
            target,
        ),
{
    proof {
        reveal_strlit("");
        reveal_strlit(" ");
    }
    match expected {
        None => String::from_str(""),
        Some(v) => {
            if v.len() == 0 {
                return String::from_str("");
            }
            let human = match target {
                ReportTarget::Human(_) => true,
                ReportTarget::Machine(_) => false,
            };
            let mut out = if v.len() == 1 && human {
                String::from_str("Expected:")
            } else {
                String::from_str("Expected one of:")
            };
            if !human {
                out.append(" ");
            }
            let ghost head = out@;
            let ghost items = string_views(v@);
            out.append(v[0].as_str());
            let mut k: usize = 1;
            proof {
                assert(items.take(1) =~= seq![items[0]]);
                reveal_with_fuel(joined, 2);
            }
            while k < v.len()
                invariant
                    1 <= k <= v@.len(),
                    items == string_views(v@),
                    out@ == head + joined(items.take(k as int), " ,"@),
                decreases v@.len() - k,
            {
                proof {
                    reveal_strlit(" ,");
                }
                out.append(" ,");
                out.append(v[k].as_str());
                proof {
                    let t = items.take(k + 1);
                    assert(t.drop_last() =~= items.take(k as int));
                    assert(t.last() == v@[k as int]@);
                }
                k = k + 1;
            }
            proof {
                assert(items.take(k as int) =~= items);
            }
            out
        },
    }
}

/// The lines of a piece of the source: the text before the place, the
/// place and the text after it; then, on a line of its own indented by four
/// and by the width of the text before, the pointer and what was expected.
pub open spec fn excerpt_lines(e: SourceExcerpt, expected: Seq<char>) -> Seq<char> {
    e.before@ + e.content@ + e.after@ + "\n    "@ + Seq::new(e.indent as nat, |_i: int| ' ')
        + e.pointer@ + expected
}

/// Writes the lines of a piece of the source (see [`excerpt_lines`]).
pub fn write_excerpt(e: &SourceExcerpt, expected: &str) -> (r: String)
    ensures
        r@ == excerpt_lines(*e, expected@),
{
    let mut out = String::from_str(e.before);
    out.append(e.content);
    out.append(e.after);
    out.append("\n    ");
    let ghost head = out@;
    let mut k: usize = 0;
    while k < e.indent
        invariant
            k <= e.indent,
            out@ == head + Seq::new(k as nat, |_i: int| ' '),
        decreases e.indent - k,
    {
        proof {
            reveal_strlit(" ");
        }
        out.append(" ");
        k = k + 1;
        assert(out@ =~= head + Seq::new(k as nat, |_i: int| ' '));
    }
    out.append(e.pointer.as_str());
    out.append(expected);
    proof {
        reveal_strlit("\n    ");
    }
    out
}

impl IOError {
    /// The whole text of the report of the problem (see
    /// [`IOError::build_report_request`] and [`full_report_text`]).
    pub fn report_text(&self, target: ReportTarget, alternative_name: String) -> (r: String)
        ensures
            r@ == full_report_text(
                ReportKind::Error,
                target,
                match *self {
                    IOError::FileLoadError { .. } => "OctizysCommandLineArgument"@,
                    IOError::REPlCantReadLine { .. } => "OctizysREPL"@,
                },
                match *self {
                    IOError::FileLoadError { .. } => "Can't open a file!"@,
                    IOError::REPlCantReadLine { .. } => "Can't read line!"@,
                },
                Some(
                    match *self {
                        IOError::FileLoadError { path: Some(p) } => "Couldn't open the file:"@ + p@,
                        IOError::FileLoadError { path: None } => "Couldn't open the file:"@,
                        IOError::REPlCantReadLine { error } => "While trying to read a line:"@ + error@,
                    },
                ),
                match *self {
                    IOError::FileLoadError { path: Some(p) } => p@,
                    _ => alternative_name@,
                },
                None,
                None,
            ),
    {
        let request = self.build_report_request(target, alternative_name, 80);
        report_text(
            request.kind,
            request.target,
            self.get_report_name(),
            self.get_short_description(),
            self.get_long_description(&target),
            request.source_context.src_name.as_str(),
            self.get_location_maybe(),
            None,
        )
    }
}

/// The piece of the source that a report shows, without its colours: the
/// text before the place, the text of the place, the text after it, the
/// width of the text before (how far the pointer line is indented), and the
/// pointer line itself.
#[derive(Debug)]
pub struct SourceExcerpt<'source> {
    pub before: &'source str,
    pub content: &'source str,
    pub after: &'source str,
    pub indent: usize,
    pub pointer: String,
}

/// The width left around a piece of `content_width` chars on a line of
/// `max_line_width`: none when the piece does not fit a `u16`.
pub open spec fn remaining_width(content_width: nat, max_line_width: u16) -> usize {
    if content_width <= u16::MAX && content_width <= max_line_width {
        (max_line_width - content_width) as usize
    } else {
        0
    }
}

/// A line of `n` carets.
pub open spec fn carets(n: nat) -> Seq<char> {
    Seq::new(n, |_i: int| '^')
}

/// The place can be read in the source: its ends are char boundaries and a
/// span does not end before it starts.
pub open spec fn readable_location(src: &str, location: Location) -> bool {
    match location {
        Location::Span(span) => span.start.source_index <= span.end.source_index && is_char_boundary(
            bytes_of(src),
            span.start.source_index as int,
        ) && is_char_boundary(bytes_of(src), span.end.source_index as int),
        Location::Position(p) => is_char_boundary(bytes_of(src), p.source_index as int),
    }
}

/// Writes a line of `n` carets.
fn caret_line(n: usize) -> (r: String)
    ensures
        r@ == carets(n as nat),
{
    let mut out = String::from_str("");
    proof {
        reveal_strlit("");
        reveal_strlit("^");
    }
    let mut k: usize = 0;
    while k < n
        invariant
            k <= n,
            out@ == carets(k as nat),
        decreases n - k,
    {
        proof {
            reveal_strlit("^");
        }
        out.append("^");
        k = k + 1;
        assert(out@ =~= carets(k as nat));
    }
    out
}

/// The piece of the source that a report about `location` shows (see
/// [`source_excerpt`]).
pub open spec fn excerpt_of(src: &str, location: Location, max_line_width: u16, r: SourceExcerpt) -> bool {
    &&& r.indent == r.before@.len()
    &&& match location {
        Location::Span(span) => if span.start.line == span.end.line {
            (bytes_of(r.before), bytes_of(r.content), bytes_of(r.after)) == span_text_at(
                bytes_of(src),
                span.start.source_index as int,
                span.end.source_index as int,
                Some(remaining_width(r.content@.len(), max_line_width)),
            ) && r.pointer@ == carets(r.content@.len())
        } else {
            r.before@.len() == 0 && r.after@.len() == 0 && bytes_of(r.content)
                == bytes_of(src).subrange(
                span.start.source_index as int,
                span.end.source_index as int,
            ) && r.pointer@.len() == 0
        },
        Location::Position(p) => {
            let (b, a) = position_text_at(bytes_of(src), p.source_index as int, Some(80));
            &&& bytes_of(r.before) == b
            &&& vstd::utf8::encode_utf8(r.content@ + r.after@) == a
            &&& r.content@.len() <= 1
            &&& r.content@.len() == 0 ==> r.after@.len() == 0
            &&& r.pointer@ == carets(1)
        },
    }
}

/// The piece of the source that a report about `location` shows.
///
/// - A span on one line: the text of the span, with as much text around
///   it, before and after on the same line, as the width that the span
///   leaves on a line of `max_line_width` (see [`remaining_width`]); the
///   pointer is a caret under each char of the span, indented by the width
///   of the text before.
/// - A span over several lines: the text of the span alone, with no
///   pointer.
/// - A position: the text around it, up to 80 bytes, cut at line breaks;
///   the first char after the position is the content, and the pointer is
///   one caret under it.
pub fn source_excerpt<'source>(src: &'source str, location: Location, max_line_width: u16) -> (r:
    SourceExcerpt<'source>)
    requires
        readable_location(src, location),
    ensures
        excerpt_of(src, location, max_line_width, r),
{
    match location {
        Location::Span(span) => {
            let (_, content, _) = span.get_text_at(src, None);
            if span.start.line == span.end.line {
                let width = content.unicode_len();
                let remain: u16 = if width <= 65535 && width <= max_line_width as usize {
                    max_line_width - (width as u16)
                } else {
                    0
                };
                let (before, _, after) = span.get_text_at(src, Some(remain as usize));
                let indent = before.unicode_len();
                let pointer = caret_line(width);
                SourceExcerpt { before, content, after, indent, pointer }
            } else {
                let empty = content.substring_char(0, 0);
                proof {
                    reveal_strlit("");
                }
                SourceExcerpt { before: empty, content, after: empty, indent: 0, pointer: String::from_str("") }
            }
        },
        Location::Position(p) => {
            let (before, rest) = p.get_text_at(src, Some(80));
            let n = rest.unicode_len();
            let k: usize = if n > 0 {
                1
            } else {
                0
            };
            let content = rest.substring_char(0, k);
            let after = rest.substring_char(k, n);
            let indent = before.unicode_len();
            proof {
                assert(content@ + after@ =~= rest@);
            }
            SourceExcerpt { before, content, after, indent, pointer: caret_line(1) }
        },
    }
}

} // verus!
