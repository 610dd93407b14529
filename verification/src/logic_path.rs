//! Logic paths: the qualified names of the language, like `a::b::cder::`.
use vstd::prelude::*;
use vstd::string::*;
use crate::identifier::{
    first_non_identifier, identifiers_of, intern_pieces, make_identifiers, Identifier,
};
use crate::store::Store;
use crate::text::{split_by, split_str};

use crate::equivalence::Equivalence;
verus! {

/// The separator between the items of a logic path.
pub const MODULE_LOGIC_PATH_SEPARATOR: &'static str = "::";

/// The separator between the items of a logic path, as chars.
pub open spec fn path_separator() -> Seq<char> {
    seq![':', ':']
}

/// The items of the text of a logic path: the pieces between the separators,
/// without the last one (a path ends with `::`).
pub open spec fn path_items(s: Seq<char>) -> Seq<Seq<char>> {
    split_by(s, path_separator()).drop_last()
}

/// Why a text or a vector is not a logic path.
#[derive(Debug, Clone, Copy, PartialEq, Eq, Structural, PartialOrd, Ord, Hash)]
pub enum LogicPathError {
    NotIdentifier,
    /// For the conversion from a vector, not for [`LogicPath::make`].
    EmptyString,
}

impl LogicPathError {
    /// The message of the error.
    pub fn to_string(&self) -> (r: String)
        ensures
            r@ == match *self {
                LogicPathError::NotIdentifier => "invalid char in Identifier while building path"@,
                LogicPathError::EmptyString => "attempt to build empty identifier"@,
            },
    {
        match self {
            LogicPathError::NotIdentifier => String::from_str("invalid char in Identifier while building path"),
            LogicPathError::EmptyString => String::from_str("attempt to build empty identifier"),
        }
    }
}

/// The abstract representation of a logic path inside the language.
///
/// Example:
///
/// ```txt
/// a::b::cder::
/// ```
#[derive(Debug, Clone, PartialEq, Eq, PartialOrd, Ord, Hash)]
pub struct LogicPath(Vec<Identifier>);

impl View for LogicPath {
    type V = Seq<Identifier>;

    closed spec fn view(&self) -> Seq<Identifier> {
        self.0@
    }
}

impl LogicPath {
    /// A path of one identifier.
    pub fn from_identifier(value: Identifier) -> (r: Self)
        ensures
            r@ == seq![value],
    {
        let r = LogicPath(vec![value]);
        assert(r@ =~= seq![value]);
        r
    }

    /// A path of the given identifiers; a path is never empty.
    pub fn from_identifiers(v: Vec<Identifier>) -> (r: Self)
        requires
            v@.len() > 0,
        ensures
            r@ == v@,
    {
        LogicPath(v)
    }

    /// Expects a text of the form `Identifier::Identifier::...`.
    /// It must end in `::` or the last item is forgotten.
    /// Every item is stored in the store, in order, until the first item
    /// that is not an identifier.
    pub fn make(s: &str, store: &mut Store) -> (r: Result<LogicPath, LogicPathError>)
        ensures
            ({
                let items = path_items(s@);
                let v = old(store).regular@;
                match first_non_identifier(items) {
                    None => r matches Ok(p) && identifiers_of(v, items, p@)
                        && final(store).regular@ == intern_pieces(v, items),
                    Some(k) => r == Err::<LogicPath, LogicPathError>(LogicPathError::NotIdentifier)
                        && final(store).regular@ == intern_pieces(v, items.take(k)),
                }
            }),
            final(store).comments@ == old(store).comments@,
    {
        let sep = vec![':', ':'];
        assert(sep@ =~= path_separator());
        let mut pieces = split_str(s, &sep);
        let ghost all = crate::text::string_views(pieces@);
        pieces.pop();
        proof {
            assert(crate::text::string_views(pieces@) =~= all.drop_last());
        }
        match make_identifiers(&pieces, store) {
            Ok(v) => Ok(LogicPath(v)),
            Err(_) => Err(LogicPathError::NotIdentifier),
        }
    }

    /// Adds an identifier at the end of the path.
    pub fn push(&mut self, i: Identifier)
        ensures
            final(self)@ == old(self)@.push(i),
    {
        self.0.push(i)
    }

    /// The identifiers of the path.
    pub fn identifiers(&self) -> (r: &Vec<Identifier>)
        ensures
            r@ == self@,
    {
        &self.0
    }
}

impl From<Identifier> for LogicPath {
    fn from(value: Identifier) -> (r: Self)
        ensures
            r@ == seq![value],
    {
        LogicPath::from_identifier(value)
    }
}

impl From<LogicPath> for Vec<Identifier> {
    fn from(value: LogicPath) -> (r: Self)
        ensures
            r@ == value@,
    {
        value.0
    }
}

/// The path that `from` gives is stated by the `ensures` of the impl above
/// (its identifiers are the one given) rather than by `from_spec`: to Verus,
/// two paths with the same identifiers need not be the same value.
impl vstd::std_specs::convert::FromSpecImpl<Identifier> for LogicPath {
    open spec fn obeys_from_spec() -> bool {
        false
    }

    closed spec fn from_spec(value: Identifier) -> LogicPath {
        choose|p: LogicPath| p@ == seq![value]
    }
}

impl vstd::std_specs::convert::FromSpecImpl<LogicPath> for Vec<Identifier> {
    open spec fn obeys_from_spec() -> bool {
        true
    }

    closed spec fn from_spec(value: LogicPath) -> Vec<Identifier> {
        value.0
    }
}

impl TryFrom<Vec<Identifier>> for LogicPath {
    type Error = LogicPathError;

    fn try_from(value: Vec<Identifier>) -> (r: Result<Self, Self::Error>)
        ensures
            value@.len() == 0 ==> r == Err::<Self, Self::Error>(LogicPathError::EmptyString),
            value@.len() > 0 ==> (r matches Ok(p) && p@ == value@),
    {
        if value.len() == 0 {
            Err(LogicPathError::EmptyString)
        } else {
            Ok(LogicPath(value))
        }
    }
}

impl vstd::std_specs::convert::TryFromSpecImpl<Vec<Identifier>> for LogicPath {
    open spec fn obeys_try_from_spec() -> bool {
        true
    }

    closed spec fn try_from_spec(value: Vec<Identifier>) -> Result<Self, LogicPathError> {
        if value@.len() == 0 {
            Err(LogicPathError::EmptyString)
        } else {
            Ok(LogicPath(value))
        }
    }
}


/// Two paths are equivalent when they have the same number of identifiers
/// (identifiers are opaque to equivalence).
impl Equivalence for LogicPath {
    open spec fn equivalent_spec(&self, other: &Self) -> bool {
        self@.len() == other@.len()
    }

    fn equivalent(&self, other: &Self) -> (r: bool) {
        self.0.len() == other.0.len()
    }
}


/// Any two identifiers are equivalent, and two paths are equivalent exactly
/// when they have as many identifiers.
pub proof fn lemma_path_equivalence(a: LogicPath, b: LogicPath, x: Identifier, y: Identifier)
    ensures
        x.equivalent_spec(&y),
        a.equivalent_spec(&b) <==> a@.len() == b@.len(),
{
}

} // verus!
