//! Literal values of the language.
use vstd::prelude::*;
use crate::identifier::Identifier;
use crate::span::Span;

use crate::equivalence::Equivalence;
verus! {

/// How a string literal is delimited.
#[derive(Debug, Clone, Copy, PartialEq, Eq, Structural, PartialOrd, Ord, Hash)]
pub enum StringKind {
    /// `r#"`
    Raw0,
    /// `r##"`
    Raw1,
    /// `r###"`
    Raw2,
    /// `r####"`
    Raw3,
    /// `"`
    Normal,
}

impl Default for StringKind {
    fn default() -> (r: Self)
        ensures
            r == StringKind::Normal,
    {
        StringKind::Normal
    }
}

/// A piece of a string literal: plain text or an escaped text.
#[derive(Debug, Clone, PartialEq, Eq, PartialOrd, Ord, Hash)]
pub enum StringComponent {
    RegularString(String),
    Scaped(String),
}

impl Default for StringComponent {
    fn default() -> (r: Self)
        ensures
            r matches StringComponent::RegularString(s) && s@.len() == 0,
    {
        Self::RegularString(String::new())
    }
}

/// A string literal.
#[derive(Debug, Clone, PartialEq, Eq, Hash, PartialOrd, Ord)]
pub struct StringLiteral {
    pub kind: StringKind,
    pub value: Vec<StringComponent>,
}

/// Options of an interpolated value.
#[derive(Debug, Clone, Copy, PartialEq, Eq, Structural, PartialOrd, Ord, Hash)]
pub struct InterpolationOptions {
    pub is_debug: bool,
}

impl Default for InterpolationOptions {
    fn default() -> (r: Self)
        ensures
            !r.is_debug,
    {
        InterpolationOptions { is_debug: false }
    }
}

/// A piece of an interpolation string.
#[derive(Debug, Clone, PartialEq, Eq, Hash)]
pub enum InterpolationComponent {
    RegularString(String),
    Scaped(char),
    Interpolation { variable: Identifier, span: Span, options: InterpolationOptions },
}

/// A string with interpolated values.
#[derive(Debug, Clone, PartialEq, Eq)]
pub struct InterpolationString {
    pub value: Vec<InterpolationComponent>,
}

/// The notation or the type suffix of an unsigned integer literal.
#[derive(Debug, Clone, Copy, PartialEq, Eq, Structural, PartialOrd, Ord, Hash)]
pub enum UintKind {
    Hex,
    Octal,
    Binary,
    U8,
    U16,
    U32,
    U64,
    /// A decimal literal without a type suffix.
    Unspecified,
}

impl Default for UintKind {
    fn default() -> (r: Self)
        ensures
            r == UintKind::Unspecified,
    {
        UintKind::Unspecified
    }
}

/// An unsigned integer literal.
#[derive(Debug, Clone, Copy, PartialEq, Eq, Structural, PartialOrd, Ord, Hash)]
pub struct UintLiteral {
    pub kind: UintKind,
    pub value: u64,
}

impl Default for UintLiteral {
    fn default() -> (r: Self)
        ensures
            r.kind == UintKind::Unspecified && r.value == 0,
    {
        UintLiteral { kind: UintKind::Unspecified, value: 0 }
    }
}

/// The type of a floating point literal.
#[derive(Debug, Clone, Copy, PartialEq, Eq, Structural, PartialOrd, Ord, Hash)]
pub enum UFloatingPointKind {
    F32,
    F64,
}

impl Default for UFloatingPointKind {
    fn default() -> (r: Self)
        ensures
            r == UFloatingPointKind::F64,
    {
        UFloatingPointKind::F64
    }
}

/// A floating point literal, kept as its integral part and its exponent.
#[derive(Debug, Clone, Copy, PartialEq, Eq, Structural, PartialOrd, Ord, Hash)]
pub struct UFloatingPointLiteral {
    pub kind: UFloatingPointKind,
    pub integral_part: u64,
    pub exponent: u8,
}

impl Default for UFloatingPointLiteral {
    fn default() -> (r: Self)
        ensures
            r.kind == UFloatingPointKind::F64 && r.integral_part == 0 && r.exponent == 0,
    {
        UFloatingPointLiteral { kind: UFloatingPointKind::F64, integral_part: 0, exponent: 0 }
    }
}


impl Equivalence for StringKind {
    open spec fn equivalent_spec(&self, other: &Self) -> bool {
        *self == *other
    }

    fn equivalent(&self, other: &Self) -> (r: bool) {
        *self == *other
    }
}

impl Equivalence for InterpolationOptions {
    open spec fn equivalent_spec(&self, other: &Self) -> bool {
        *self == *other
    }

    fn equivalent(&self, other: &Self) -> (r: bool) {
        *self == *other
    }
}

impl Equivalence for UintKind {
    open spec fn equivalent_spec(&self, other: &Self) -> bool {
        *self == *other
    }

    fn equivalent(&self, other: &Self) -> (r: bool) {
        *self == *other
    }
}

impl Equivalence for UintLiteral {
    open spec fn equivalent_spec(&self, other: &Self) -> bool {
        *self == *other
    }

    fn equivalent(&self, other: &Self) -> (r: bool) {
        *self == *other
    }
}

impl Equivalence for UFloatingPointKind {
    open spec fn equivalent_spec(&self, other: &Self) -> bool {
        *self == *other
    }

    fn equivalent(&self, other: &Self) -> (r: bool) {
        *self == *other
    }
}

impl Equivalence for UFloatingPointLiteral {
    open spec fn equivalent_spec(&self, other: &Self) -> bool {
        *self == *other
    }

    fn equivalent(&self, other: &Self) -> (r: bool) {
        *self == *other
    }
}

impl Equivalence for StringComponent {
    open spec fn equivalent_spec(&self, other: &Self) -> bool {
        match (*self, *other) {
            (StringComponent::RegularString(a), StringComponent::RegularString(b)) => a.equivalent_spec(&b),
            (StringComponent::Scaped(a), StringComponent::Scaped(b)) => a.equivalent_spec(&b),
            _ => false,
        }
    }

    fn equivalent(&self, other: &Self) -> (r: bool) {
        match (self, other) {
            (StringComponent::RegularString(a), StringComponent::RegularString(b)) => a.equivalent(b),
            (StringComponent::Scaped(a), StringComponent::Scaped(b)) => a.equivalent(b),
            _ => false,
        }
    }
}

impl Equivalence for StringLiteral {
    open spec fn equivalent_spec(&self, other: &Self) -> bool {
        self.kind.equivalent_spec(&other.kind) && self.value.equivalent_spec(&other.value)
    }

    fn equivalent(&self, other: &Self) -> (r: bool) {
        self.kind.equivalent(&other.kind) && self.value.equivalent(&other.value)
    }
}

/// Pieces of interpolation strings are equivalent when they are of the
/// same kind with equivalent parts; the region of an interpolated value
/// does not count.
impl Equivalence for InterpolationComponent {
    open spec fn equivalent_spec(&self, other: &Self) -> bool {
        match (*self, *other) {
            (InterpolationComponent::RegularString(a), InterpolationComponent::RegularString(b)) => a.equivalent_spec(&b),
            (InterpolationComponent::Scaped(a), InterpolationComponent::Scaped(b)) => a.equivalent_spec(&b),
            (
                InterpolationComponent::Interpolation { variable: v1, options: o1, .. },
                InterpolationComponent::Interpolation { variable: v2, options: o2, .. },
            ) => v1.equivalent_spec(&v2) && o1.equivalent_spec(&o2),
            _ => false,
        }
    }

    fn equivalent(&self, other: &Self) -> (r: bool) {
        match (self, other) {
            (InterpolationComponent::RegularString(a), InterpolationComponent::RegularString(b)) => a.equivalent(b),
            (InterpolationComponent::Scaped(a), InterpolationComponent::Scaped(b)) => a.equivalent(b),
            (
                InterpolationComponent::Interpolation { variable: v1, options: o1, .. },
                InterpolationComponent::Interpolation { variable: v2, options: o2, .. },
            ) => v1.equivalent(v2) && o1.equivalent(o2),
            _ => false,
        }
    }
}

impl Equivalence for InterpolationString {
    open spec fn equivalent_spec(&self, other: &Self) -> bool {
        self.value.equivalent_spec(&other.value)
    }

    fn equivalent(&self, other: &Self) -> (r: bool) {
        self.value.equivalent(&other.value)
    }
}

} // verus!
