//! The reports that the lexer gives.
use vstd::prelude::*;
use crate::cst::comments::{brace_hyphens, CommentBraceKind};
use crate::parser::tokens::Token;
use crate::report::{
    excerpt_lines, excerpt_of, expected_text, full_report_text, readable_location, report_text,
    source_excerpt, write_excerpt, write_expected, ReportFormat, ReportKind, ReportTarget,
    SourceExcerpt,
};
use crate::text::string_views;
use crate::span::Location;

verus! {

/// Why a number could not be read as a `u64`.
#[derive(Debug, Clone, Copy, PartialEq, Eq, Structural)]
pub enum ParseU64Error {
    /// There are no digits.
    Empty,
    /// A char is not a digit of the base.
    InvalidDigit,
    /// The value is larger than `u64::MAX`.
    PosOverflow,
}

/// The problems that the lexer reports.
#[derive(Debug, Clone)]
pub enum LexerReportKind {
    UnexpectedCharacter,
    /// The punctuation rule matched a text without token: a bug.
    UnexpectedPunctuationMatch,
    /// The comment rule matched a text that starts no comment: a bug.
    UnexpectedCommentMatch,
    /// A line comment could not be read: a bug.
    NonFinishedLineComment,
    /// A line comment had no content: a bug.
    NonContentInLineComment,
    /// The store refused the content of a line comment: a bug.
    CantCreateCommentLine,
    /// The beginning of a block comment without its end; for the user,
    /// most likely an unbalanced bracket.
    CouldntMatchBlockComment(CommentBraceKind),
    Notu64NamedHole,
    /// A text read as an identifier is not one: a bug.
    CantCreateIdentifier,
    /// A token could not be turned into a syntax tree token: a bug.
    CantTranslateToToken(Token),
    /// An ownership literal matched a text it does not know: a bug.
    UnexpectedOwnershipLiteralMatch,
    /// A text read as an integer literal is not a `u64`.
    CantParseU64(ParseU64Error),
    /// The start of a string literal: string literals are not read yet.
    StringLiteralNotSupported,
    /// A floating point literal: they are not read yet.
    FloatLiteralNotSupported,
}

/// The problems of the parser.
#[derive(Debug, Clone)]
pub enum ParserReport {
    Lexer(LexerReportKind),
}

/// A report of the parser, with its kind and its place.
#[derive(Debug, Clone)]
pub struct OctizysParserReport {
    pub kind: ReportKind,
    pub report: ParserReport,
    pub location: Location,
}

/// The text of the short description shared by the reports of bugs.
pub open spec fn bug_description() -> Seq<char> {
    "This is a bug in octizys, please report it!"@
}

impl LexerReportKind {
    /// Whether the report is about a bug of the lexer rather than the source.
    pub open spec fn is_bug(&self) -> bool {
        !(self is UnexpectedCharacter || self is CouldntMatchBlockComment || self is Notu64NamedHole
            || self is StringLiteralNotSupported || self is FloatLiteralNotSupported)
    }
}

/// The hyphens and brace that close a block of the given kind.
pub open spec fn closing_brace_text(kind: CommentBraceKind) -> Seq<char> {
    Seq::new(brace_hyphens(kind), |i: int| '-').push('}')
}

/// Writes the hyphens and brace that close a block of the given kind.
fn closing_brace(kind: CommentBraceKind) -> (r: String)
    ensures
        r@ == closing_brace_text(kind),
{
    let text = match kind {
        CommentBraceKind::Brace0 => "-}",
        CommentBraceKind::Brace1 => "--}",
        CommentBraceKind::Brace2 => "---}",
        CommentBraceKind::Brace3 => "----}",
    };
    proof {
        reveal_strlit("-}");
        reveal_strlit("--}");
        reveal_strlit("---}");
        reveal_strlit("----}");
    }
    String::from_str(text)
}

/// The name of a report of the lexer.
pub open spec fn lexer_report_name(kind: LexerReportKind) -> Seq<char> {
    match kind {
        LexerReportKind::UnexpectedCharacter => "UnexpectedCharacter"@,
        LexerReportKind::UnexpectedPunctuationMatch => "Internal:UnexpectedPunctuationMatch"@,
        LexerReportKind::UnexpectedCommentMatch => "Internal:UnexpectedCommentMatch"@,
        LexerReportKind::NonFinishedLineComment => "Internal:NonFinishedLineComment"@,
        LexerReportKind::NonContentInLineComment => "Internal:NonContentInLineComment"@,
        LexerReportKind::CantCreateCommentLine => "Internal:CantCreateCommentLine"@,
        LexerReportKind::CouldntMatchBlockComment(_) => "CouldntMatchBlockComment"@,
        LexerReportKind::Notu64NamedHole => "Notu64NamedHole"@,
        LexerReportKind::CantCreateIdentifier => "Internal:CantCreateIdentifier"@,
        LexerReportKind::CantTranslateToToken(_) => "Internal:CantTranslateToToken"@,
        LexerReportKind::UnexpectedOwnershipLiteralMatch => "Internal:UnexpectedOwnershipLiteralMatch"@,
        LexerReportKind::CantParseU64(_) => "Internal:CantParseU64"@,
        LexerReportKind::StringLiteralNotSupported => "StringLiteralNotSupported"@,
        LexerReportKind::FloatLiteralNotSupported => "FloatLiteralNotSupported"@,
    }
}

/// The short description of a report of the lexer.
pub open spec fn lexer_short_description(kind: LexerReportKind) -> Seq<char> {
    match kind {
        LexerReportKind::UnexpectedCharacter => "The provided character doesn't correspond to a valid program."@,
        LexerReportKind::UnexpectedPunctuationMatch => "This is a bug in octizys, please report it!"@,
        LexerReportKind::UnexpectedCommentMatch => "This is a bug in octizys, please report it!"@,
        LexerReportKind::NonFinishedLineComment => "This is a bug in octizys, please report it!"@,
        LexerReportKind::NonContentInLineComment => "This is a bug in octizys, please report it!"@,
        LexerReportKind::CantCreateCommentLine => "This is a bug in octizys, please report it!"@,
        LexerReportKind::CouldntMatchBlockComment(_) => "We found the beginning of a block comment but couldn't finished it!"@,
        LexerReportKind::Notu64NamedHole => "Named holes are limited to u64 integers."@,
        LexerReportKind::CantCreateIdentifier => "This is a bug in octizys, please report it!"@,
        LexerReportKind::CantTranslateToToken(_) => "This is a bug in octizys, please report it!"@,
        LexerReportKind::UnexpectedOwnershipLiteralMatch => "This is a bug in octizys, please report it!"@,
        LexerReportKind::CantParseU64(_) => "This is a bug in octizys, please report it!"@,
        LexerReportKind::StringLiteralNotSupported => "String literals can't be read yet."@,
        LexerReportKind::FloatLiteralNotSupported => "Floating point literals can't be read yet."@,
    }
}

/// The long description of a report of the lexer.
pub open spec fn lexer_long_description(kind: LexerReportKind) -> Seq<char> {
    match kind {
        LexerReportKind::UnexpectedCharacter => "While reading the code, we were unable to understand this particular character."@,
        LexerReportKind::UnexpectedPunctuationMatch => "The internal way to find punctuation marks and operators failed, it recognized a character that we didn't support!"@,
        LexerReportKind::UnexpectedCommentMatch => "The intnernal way to find a comment failed after succeeding!"@,
        LexerReportKind::NonFinishedLineComment => "We find the start of a comment but not the end for some reason (not unbalanced brackets)"@,
        LexerReportKind::NonContentInLineComment => "We find a comment but we were unable to retrieve the content"@,
        LexerReportKind::CantCreateCommentLine => "We got the content of a comment but the internalizer disagree with us that this comment has the right format!"@,
        LexerReportKind::CouldntMatchBlockComment(_) => "We were looking for a matching end for the comment.\nEither we didn't find it, and we consumed all the code looking for it.\nOr something else got wrong in the search (improbable)"@,
        LexerReportKind::Notu64NamedHole => "Internally the named holes are stored as u64 integers.\nThe provided value for the hole is out of the bound for this range.\nPlease modify the hole value to something between 0 and 2^64 -1"@,
        LexerReportKind::CantCreateIdentifier => "Internally we expected something to follow the same rules as an identifier, but it didn't follow those rules"@,
        LexerReportKind::CantTranslateToToken(_) => "The internal translation between simple Tokens and the CST::Tokens failed!"@,
        LexerReportKind::UnexpectedOwnershipLiteralMatch => "We find what seems to look like an ownership literal, but something unexpected passed while working with it!"@,
        LexerReportKind::CantParseU64(_) => "We find what seems to look like an u64 literal, but something unexpected passed while working with it!"@,
        LexerReportKind::StringLiteralNotSupported => "We found the start of a string literal, but reading string literals is not supported yet."@,
        LexerReportKind::FloatLiteralNotSupported => "We found a floating point literal, but reading floating point literals is not supported yet."@,
    }
}

impl ReportFormat for LexerReportKind {
    fn get_report_name(&self) -> (r: &'static str)
        ensures
            r@ == lexer_report_name(*self),
    {
        match self {
            LexerReportKind::UnexpectedCharacter => "UnexpectedCharacter",
            LexerReportKind::UnexpectedPunctuationMatch => "Internal:UnexpectedPunctuationMatch",
            LexerReportKind::UnexpectedCommentMatch => "Internal:UnexpectedCommentMatch",
            LexerReportKind::NonFinishedLineComment => "Internal:NonFinishedLineComment",
            LexerReportKind::NonContentInLineComment => "Internal:NonContentInLineComment",
            LexerReportKind::CantCreateCommentLine => "Internal:CantCreateCommentLine",
            LexerReportKind::CouldntMatchBlockComment(_) => "CouldntMatchBlockComment",
            LexerReportKind::Notu64NamedHole => "Notu64NamedHole",
            LexerReportKind::CantCreateIdentifier => "Internal:CantCreateIdentifier",
            LexerReportKind::CantTranslateToToken(_) => "Internal:CantTranslateToToken",
            LexerReportKind::UnexpectedOwnershipLiteralMatch => "Internal:UnexpectedOwnershipLiteralMatch",
            LexerReportKind::CantParseU64(_) => "Internal:CantParseU64",
            LexerReportKind::StringLiteralNotSupported => "StringLiteralNotSupported",
            LexerReportKind::FloatLiteralNotSupported => "FloatLiteralNotSupported",
        }
    }

    fn get_short_description(&self) -> (r: &'static str)
        ensures
            r@ == lexer_short_description(*self),
            self.is_bug() ==> r@ == bug_description(),
    {
        let common = "This is a bug in octizys, please report it!";
        match self {
            LexerReportKind::UnexpectedCharacter => "The provided character doesn't correspond to a valid program.",
            LexerReportKind::UnexpectedPunctuationMatch => common,
            LexerReportKind::UnexpectedCommentMatch => common,
            LexerReportKind::NonFinishedLineComment => common,
            LexerReportKind::NonContentInLineComment => common,
            LexerReportKind::CantCreateCommentLine => common,
            LexerReportKind::CouldntMatchBlockComment(_) => "We found the beginning of a block comment but couldn't finished it!",
            LexerReportKind::Notu64NamedHole => "Named holes are limited to u64 integers.",
            LexerReportKind::CantCreateIdentifier => common,
            LexerReportKind::CantTranslateToToken(_) => common,
            LexerReportKind::UnexpectedOwnershipLiteralMatch => common,
            LexerReportKind::CantParseU64(_) => common,
            LexerReportKind::StringLiteralNotSupported => "String literals can't be read yet.",
            LexerReportKind::FloatLiteralNotSupported => "Floating point literals can't be read yet.",
        }
    }

    fn get_long_description(&self, _target: &ReportTarget) -> (r: Option<String>)
        ensures
            r matches Some(t) && t@ == lexer_long_description(*self),
    {
        let text = match self {
            LexerReportKind::UnexpectedCharacter => "While reading the code, we were unable to understand this particular character.",
            LexerReportKind::UnexpectedPunctuationMatch => "The internal way to find punctuation marks and operators failed, it recognized a character that we didn't support!",
            LexerReportKind::UnexpectedCommentMatch => "The intnernal way to find a comment failed after succeeding!",
            LexerReportKind::NonFinishedLineComment => "We find the start of a comment but not the end for some reason (not unbalanced brackets)",
            LexerReportKind::NonContentInLineComment => "We find a comment but we were unable to retrieve the content",
            LexerReportKind::CantCreateCommentLine => "We got the content of a comment but the internalizer disagree with us that this comment has the right format!",
            LexerReportKind::CouldntMatchBlockComment(_) => "We were looking for a matching end for the comment.\nEither we didn't find it, and we consumed all the code looking for it.\nOr something else got wrong in the search (improbable)",
            LexerReportKind::Notu64NamedHole => "Internally the named holes are stored as u64 integers.\nThe provided value for the hole is out of the bound for this range.\nPlease modify the hole value to something between 0 and 2^64 -1",
            LexerReportKind::CantCreateIdentifier => "Internally we expected something to follow the same rules as an identifier, but it didn't follow those rules",
            LexerReportKind::CantTranslateToToken(_) => "The internal translation between simple Tokens and the CST::Tokens failed!",
            LexerReportKind::UnexpectedOwnershipLiteralMatch => "We find what seems to look like an ownership literal, but something unexpected passed while working with it!",
            LexerReportKind::CantParseU64(_) => "We find what seems to look like an u64 literal, but something unexpected passed while working with it!",
            LexerReportKind::StringLiteralNotSupported => "We found the start of a string literal, but reading string literals is not supported yet.",
            LexerReportKind::FloatLiteralNotSupported => "We found a floating point literal, but reading floating point literals is not supported yet.",
        };
        Some(String::from_str(text))
    }

    fn get_expected(&self) -> (r: Option<Vec<String>>)
        ensures
            match *self {
                LexerReportKind::CouldntMatchBlockComment(kind) => r matches Some(v) && v@.len()
                    == 1 && v@[0]@ == closing_brace_text(kind),
                _ => r is None,
            },
    {
        match self {
            LexerReportKind::CouldntMatchBlockComment(kind) => {
                let mut v = Vec::new();
                v.push(closing_brace(*kind));
                Some(v)
            },
            _ => None,
        }
    }

    fn get_location_maybe(&self) -> (r: Option<Location>)
        ensures
            r is None,
    {
        None
    }
}

impl ReportFormat for ParserReport {
    fn get_report_name(&self) -> (r: &'static str)
        ensures
            r@ == match *self {
                ParserReport::Lexer(e) => lexer_report_name(e),
            },
    {
        match self {
            ParserReport::Lexer(e) => e.get_report_name(),
        }
    }

    fn get_short_description(&self) -> (r: &'static str)
        ensures
            r@ == match *self {
                ParserReport::Lexer(e) => lexer_short_description(e),
            },
    {
        match self {
            ParserReport::Lexer(e) => e.get_short_description(),
        }
    }

    fn get_long_description(&self, target: &ReportTarget) -> (r: Option<String>)
        ensures
            r matches Some(t) && t@ == match *self {
                ParserReport::Lexer(e) => lexer_long_description(e),
            },
    {
        match self {
            ParserReport::Lexer(e) => e.get_long_description(target),
        }
    }

    fn get_expected(&self) -> (r: Option<Vec<String>>)
        ensures
            match *self {
                ParserReport::Lexer(LexerReportKind::CouldntMatchBlockComment(kind)) => r matches Some(
                    v,
                ) && v@.len() == 1 && v@[0]@ == closing_brace_text(kind),
                _ => r is None,
            },
    {
        match self {
            ParserReport::Lexer(e) => e.get_expected(),
        }
    }

    fn get_location_maybe(&self) -> (r: Option<Location>)
        ensures
            r is None,
    {
        match self {
            ParserReport::Lexer(e) => e.get_location_maybe(),
        }
    }
}

impl ReportFormat for OctizysParserReport {
    fn get_report_name(&self) -> (r: &'static str)
        ensures
            r@ == match self.report {
                ParserReport::Lexer(e) => lexer_report_name(e),
            },
    {
        self.report.get_report_name()
    }

    fn get_short_description(&self) -> (r: &'static str)
        ensures
            r@ == match self.report {
                ParserReport::Lexer(e) => lexer_short_description(e),
            },
    {
        self.report.get_short_description()
    }

    fn get_long_description(&self, target: &ReportTarget) -> (r: Option<String>)
        ensures
            r matches Some(t) && t@ == match self.report {
                ParserReport::Lexer(e) => lexer_long_description(e),
            },
    {
        self.report.get_long_description(target)
    }

    fn get_expected(&self) -> (r: Option<Vec<String>>)
        ensures
            match self.report {
                ParserReport::Lexer(LexerReportKind::CouldntMatchBlockComment(kind)) => r matches Some(
                    v,
                ) && v@.len() == 1 && v@[0]@ == closing_brace_text(kind),
                _ => r is None,
            },
    {
        self.report.get_expected()
    }

    fn get_location_maybe(&self) -> (r: Option<Location>)
        ensures
            r == Some(self.location),
    {
        Some(self.location)
    }
}

/// What the lexer expected at the place of a report: the closing braces of
/// a block comment that was not closed, and nothing else.
pub open spec fn lexer_expected(kind: LexerReportKind) -> Option<Seq<Seq<char>>> {
    match kind {
        LexerReportKind::CouldntMatchBlockComment(brace) => Some(seq![closing_brace_text(brace)]),
        _ => None,
    }
}

impl OctizysParserReport {
    /// The whole text of the report, for the source `src` of the given name:
    /// its start, the piece of the source at its place with what was
    /// expected there, and its long description (see [`full_report_text`]
    /// and [`source_excerpt`]).
    pub fn report_text(&self, target: ReportTarget, src: &str, src_name: &str, max_line_width: u16) -> (r:
        String)
        requires
            readable_location(src, self.location),
        ensures
            exists|e: SourceExcerpt|
                #[trigger] excerpt_of(src, self.location, max_line_width, e) && r@ == full_report_text(
                    self.kind,
                    target,
                    match self.report {
                        ParserReport::Lexer(k) => lexer_report_name(k),
                    },
                    match self.report {
                        ParserReport::Lexer(k) => lexer_short_description(k),
                    },
                    Some(
                        match self.report {
                            ParserReport::Lexer(k) => lexer_long_description(k),
                        },
                    ),
                    src_name@,
                    Some(self.location),
                    Some(
                        excerpt_lines(
                            e,
                            expected_text(
                                match self.report {
                                    ParserReport::Lexer(k) => lexer_expected(k),
                                },
                                target,
                            ),
                        ),
                    ),
                ),
    {
        let excerpt = source_excerpt(src, self.location, max_line_width);
        let expected = self.get_expected();
        proof {
            if expected is Some {
                let v = expected->0;
                assert(string_views(v@) =~= seq![v@[0]@]);
            }
        }
        let expected_line = write_expected(&expected, target);
        let lines = write_excerpt(&excerpt, expected_line.as_str());
        let r = report_text(
            self.kind,
            target,
            self.get_report_name(),
            self.get_short_description(),
            self.get_long_description(&target),
            src_name,
            self.get_location_maybe(),
            Some(lines),
        );
        assert(excerpt_of(src, self.location, max_line_width, excerpt));
        r
    }
}

} // verus!
