//! Regular expressions and the Unicode classes of chars that the language uses.
use vstd::prelude::*;

verus! {

/// Whether `text` holds a match of the regular expression `pattern`, as the
/// `regex` crate decides it.
pub uninterp spec fn regex_matches(pattern: Seq<char>, text: Seq<char>) -> bool;

/// Calls `regex::Regex::new` on the pattern and, when it compiles,
/// `regex::Regex::is_match` on the text; a pattern that fails to compile
/// answers `false`. The contract claims only that the answer is a function of
/// the pattern and the text (it is named [`regex_matches`]); it leaves unsaid
/// which texts a pattern matches, and what a pattern that fails to compile
/// gives (every pattern of this crate compiles).
#[verifier::external_body]
pub(crate) fn regex_is_match(pattern: &str, text: &str) -> (r: bool)
    ensures
        r == regex_matches(pattern@, text@),
{
    match regex::Regex::new(pattern) {
        Ok(re) => re.is_match(text),
        Err(_) => false,
    }
}

/// A whole text that is an identifier: underscores, then a char that can
/// start an identifier, then chars that can continue one.
pub const IDENTIFIER_PATTERN: &'static str = r"^_*\p{XID_START}\p{XID_CONTINUE}*$";

/// A single char that can start an identifier.
pub const XID_START_PATTERN: &'static str = r"^\p{XID_START}$";

/// A single char that can continue an identifier.
pub const XID_CONTINUE_PATTERN: &'static str = r"^\p{XID_CONTINUE}$";

/// A single white space char.
pub const WHITE_SPACE_PATTERN: &'static str = r"^\s$";

/// The char can start an identifier (Unicode `XID_Start`).
pub open spec fn xid_start(c: char) -> bool {
    regex_matches(XID_START_PATTERN@, seq![c])
}

/// The char can continue an identifier (Unicode `XID_Continue`).
pub open spec fn xid_continue(c: char) -> bool {
    regex_matches(XID_CONTINUE_PATTERN@, seq![c])
}

/// The char is white space (Unicode `White_Space`).
pub open spec fn white_space(c: char) -> bool {
    regex_matches(WHITE_SPACE_PATTERN@, seq![c])
}

/// Calls std's `ToString::to_string` on a char: the text made of that one char.
#[verifier::external_body]
fn char_text(c: char) -> (r: String)
    ensures
        r@ == seq![c],
{
    c.to_string()
}

/// Whether the char can start an identifier.
pub fn is_xid_start(c: char) -> (r: bool)
    ensures
        r == xid_start(c),
{
    let t = char_text(c);
    regex_is_match(XID_START_PATTERN, t.as_str())
}

/// Whether the char can continue an identifier.
pub fn is_xid_continue(c: char) -> (r: bool)
    ensures
        r == xid_continue(c),
{
    let t = char_text(c);
    regex_is_match(XID_CONTINUE_PATTERN, t.as_str())
}

/// Whether the char is white space.
pub fn is_white_space(c: char) -> (r: bool)
    ensures
        r == white_space(c),
{
    let t = char_text(c);
    regex_is_match(WHITE_SPACE_PATTERN, t.as_str())
}

} // verus!
