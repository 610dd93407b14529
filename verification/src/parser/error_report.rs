//! What a report of the parser says about itself, and the source it is about.
use vstd::prelude::*;
use crate::span::{Position, Span};

verus! {

/// The source that a report of the parser is about, and its name.
pub struct ParserErrorContext<'source> {
    pub src: &'source str,
    pub src_name: &'source str,
}

impl<'a> Default for ParserErrorContext<'a> {
    fn default() -> (r: Self)
        ensures
            r.src@ == ""@,
            r.src_name@ == "octizys_repl"@,
    {
        ParserErrorContext { src: "", src_name: "octizys_repl" }
    }
}

/// Where a report of the parser points: a span or a position.
pub enum ErrorLocation {
    Span(Span),
    Position(Position),
}

/// What a report of the parser tells: its name, its descriptions, what was
/// expected and where.
pub trait ParserErrorReport {
    fn get_error_name(&self) -> &str;

    fn get_short_description(&self) -> &str;

    fn get_long_description(&self) -> Option<&str>;

    /// What was expected, each as a text.
    fn get_expected(&self) -> Option<&Vec<String>>;

    fn get_location(&self) -> ErrorLocation;
}

/// A parsed file; none is made yet.
#[derive(Debug)]
pub struct ParsedFile;

} // verus!
