//! Import paths of the language, like `a::b::cder::`.
use vstd::prelude::*;
use vstd::string::*;
use crate::identifier::{
    first_non_identifier, identifiers_of, intern_pieces, make_identifiers, Identifier,
};
use crate::logic_path::{path_items, path_separator};
use crate::store::Store;
use crate::text::split_str;

verus! {

/// Why a text or a vector is not a module logic path.
#[derive(Debug, Clone, Copy, PartialEq, Eq, Structural, PartialOrd, Ord, Hash)]
pub enum ModuleLogicPathError {
    NotIdentifier,
    /// For the conversion from a vector, not for [`ModuleLogicPath::make`].
    EmptyString,
}

impl ModuleLogicPathError {
    /// The message of the error.
    pub fn to_string(&self) -> (r: String)
        ensures
            r@ == match *self {
                ModuleLogicPathError::NotIdentifier => "invalid char in Identifier while building path"@,
                ModuleLogicPathError::EmptyString => "attempt to build empty identifier"@,
            },
    {
        match self {
            ModuleLogicPathError::NotIdentifier => String::from_str("invalid char in Identifier while building path"),
            ModuleLogicPathError::EmptyString => String::from_str("attempt to build empty identifier"),
        }
    }
}

/// The abstract representation of an import path inside the language,
/// usually called a logic path.
///
/// Example:
///
/// ```txt
/// a::b::cder::
/// ```
#[derive(Debug, Clone, PartialEq, Eq, PartialOrd, Ord, Hash)]
pub struct ModuleLogicPath(Vec<Identifier>);

impl View for ModuleLogicPath {
    type V = Seq<Identifier>;

    closed spec fn view(&self) -> Seq<Identifier> {
        self.0@
    }
}

impl ModuleLogicPath {
    /// A path of one identifier.
    pub fn from_identifier(value: Identifier) -> (r: Self)
        ensures
            r@ == seq![value],
    {
        let r = ModuleLogicPath(vec![value]);
        assert(r@ =~= seq![value]);
        r
    }

    /// Expects a text of the form `Identifier::Identifier::...`.
    /// It must end in `::` or the last item is forgotten.
    /// Every item is stored in the store, in order, until the first item
    /// that is not an identifier.
    pub fn make(s: &str, store: &mut Store) -> (r: Result<ModuleLogicPath, ModuleLogicPathError>)
        ensures
            ({
                let items = path_items(s@);
                let v = old(store).regular@;
                match first_non_identifier(items) {
                    None => r matches Ok(p) && identifiers_of(v, items, p@)
                        && final(store).regular@ == intern_pieces(v, items),
                    Some(k) => r == Err::<ModuleLogicPath, ModuleLogicPathError>(
                        ModuleLogicPathError::NotIdentifier,
                    ) && final(store).regular@ == intern_pieces(v, items.take(k)),
                }
            }),
            final(store).comments@ == old(store).comments@,
    {
        let sep = vec![':', ':'];
        assert(sep@ =~= path_separator());
        let mut pieces = split_str(s, &sep);
        let ghost all = crate::text::string_views(pieces@);
        pieces.pop();
        proof {
            assert(crate::text::string_views(pieces@) =~= all.drop_last());
        }
        match make_identifiers(&pieces, store) {
            Ok(v) => Ok(ModuleLogicPath(v)),
            Err(_) => Err(ModuleLogicPathError::NotIdentifier),
        }
    }

    /// The identifiers of the path.
    pub fn identifiers(&self) -> (r: &Vec<Identifier>)
        ensures
            r@ == self@,
    {
        &self.0
    }
}

impl TryFrom<Vec<Identifier>> for ModuleLogicPath {
    type Error = ModuleLogicPathError;

    fn try_from(value: Vec<Identifier>) -> (r: Result<Self, Self::Error>)
        ensures
            value@.len() == 0 ==> r == Err::<Self, Self::Error>(ModuleLogicPathError::EmptyString),
            value@.len() > 0 ==> (r matches Ok(p) && p@ == value@),
    {
        if value.len() == 0 {
            Err(ModuleLogicPathError::EmptyString)
        } else {
            Ok(ModuleLogicPath(value))
        }
    }
}

impl vstd::std_specs::convert::TryFromSpecImpl<Vec<Identifier>> for ModuleLogicPath {
    open spec fn obeys_try_from_spec() -> bool {
        true
    }

    closed spec fn try_from_spec(value: Vec<Identifier>) -> Result<Self, ModuleLogicPathError> {
        if value@.len() == 0 {
            Err(ModuleLogicPathError::EmptyString)
        } else {
            Ok(ModuleLogicPath(value))
        }
    }
}

} // verus!
