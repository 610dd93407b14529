//! Names, labels and records of the core language.
use vstd::prelude::*;

verus! {

/// The label of a field of a record.
#[derive(Debug, PartialEq, Eq, Clone, PartialOrd, Ord)]
pub struct Label(String);

/// Why a text is not a label.
#[derive(Debug, PartialEq, Eq)]
pub struct MakeLabelError(pub String);

impl View for Label {
    type V = Seq<char>;

    closed spec fn view(&self) -> Seq<char> {
        self.0@
    }
}

impl Label {
    /// A label with the given text. Every text is accepted for now.
    pub fn make(s: String) -> (r: Result<Label, MakeLabelError>)
        ensures
            r matches Ok(l) && l@ == s@,
    {
        Ok(Label(s))
    }
}

/// A name of the core language.
#[derive(Debug, PartialEq, Eq, Clone)]
pub struct Identifier(String);

/// Why a text is not a name.
pub struct MakeIdentifierError(String);

impl View for Identifier {
    type V = Seq<char>;

    closed spec fn view(&self) -> Seq<char> {
        self.0@
    }
}

impl Identifier {
    /// A name with the given text. Every text is accepted for now.
    pub fn make(s: String) -> (r: Result<Identifier, MakeIdentifierError>)
        ensures
            r matches Ok(i) && i@ == s@,
    {
        Ok(Identifier(s))
    }
}

/// Why fields do not make a record.
pub struct MakeRecordError(String);

/// The fields of a record, each a label and a value.
#[derive(Debug, PartialEq, Eq, Clone)]
pub struct Record<T>(Vec<(Label, T)>);

impl<T> View for Record<T> {
    type V = Seq<(Label, T)>;

    closed spec fn view(&self) -> Seq<(Label, T)> {
        self.0@
    }
}

impl<T> Record<T> {
    /// A record with the given fields, in their order. Every list of fields
    /// is accepted for now.
    pub fn make(v: Vec<(Label, T)>) -> (r: Result<Record<T>, MakeRecordError>)
        ensures
            r matches Ok(rec) && rec@ == v@,
    {
        Ok(Record(v))
    }
}

/// A record with the given fields, without any check.
pub fn unsafe_make_record<T>(v: Vec<(Label, T)>) -> (r: Record<T>)
    ensures
        r@ == v@,
{
    Record(v)
}

/// A variable: by name, or by its index among the binders around it.
#[derive(Debug, PartialEq, Eq, Clone)]
pub enum Variable {
    Named(Identifier),
    Free(u32),
}

/// A list with at least one item: the first one and the rest.
#[derive(Debug, PartialEq, Eq, Clone)]
pub struct NonEmptyVec<T>(pub T, pub Vec<T>);

} // verus!
