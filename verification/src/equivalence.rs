//! Equivalence: comparing values without the information of where they
//! stand in a source (places, comments, and what identifiers stand for).
use vstd::prelude::*;
use crate::text::same_text;

verus! {

/// Values that can be compared without positional information.
pub trait Equivalence: Sized {
    /// The two values are equivalent.
    spec fn equivalent_spec(&self, other: &Self) -> bool;

    /// Whether the two values are equivalent.
    fn equivalent(&self, other: &Self) -> (r: bool)
        ensures
            r == self.equivalent_spec(other),
    ;
}

impl Equivalence for bool {
    open spec fn equivalent_spec(&self, other: &Self) -> bool {
        *self == *other
    }

    fn equivalent(&self, other: &Self) -> (r: bool) {
        *self == *other
    }
}

impl Equivalence for u8 {
    open spec fn equivalent_spec(&self, other: &Self) -> bool {
        *self == *other
    }

    fn equivalent(&self, other: &Self) -> (r: bool) {
        *self == *other
    }
}

impl Equivalence for u16 {
    open spec fn equivalent_spec(&self, other: &Self) -> bool {
        *self == *other
    }

    fn equivalent(&self, other: &Self) -> (r: bool) {
        *self == *other
    }
}

impl Equivalence for u32 {
    open spec fn equivalent_spec(&self, other: &Self) -> bool {
        *self == *other
    }

    fn equivalent(&self, other: &Self) -> (r: bool) {
        *self == *other
    }
}

impl Equivalence for u64 {
    open spec fn equivalent_spec(&self, other: &Self) -> bool {
        *self == *other
    }

    fn equivalent(&self, other: &Self) -> (r: bool) {
        *self == *other
    }
}

impl Equivalence for u128 {
    open spec fn equivalent_spec(&self, other: &Self) -> bool {
        *self == *other
    }

    fn equivalent(&self, other: &Self) -> (r: bool) {
        *self == *other
    }
}

impl Equivalence for usize {
    open spec fn equivalent_spec(&self, other: &Self) -> bool {
        *self == *other
    }

    fn equivalent(&self, other: &Self) -> (r: bool) {
        *self == *other
    }
}

impl Equivalence for i8 {
    open spec fn equivalent_spec(&self, other: &Self) -> bool {
        *self == *other
    }

    fn equivalent(&self, other: &Self) -> (r: bool) {
        *self == *other
    }
}

impl Equivalence for i16 {
    open spec fn equivalent_spec(&self, other: &Self) -> bool {
        *self == *other
    }

    fn equivalent(&self, other: &Self) -> (r: bool) {
        *self == *other
    }
}

impl Equivalence for i32 {
    open spec fn equivalent_spec(&self, other: &Self) -> bool {
        *self == *other
    }

    fn equivalent(&self, other: &Self) -> (r: bool) {
        *self == *other
    }
}

impl Equivalence for i64 {
    open spec fn equivalent_spec(&self, other: &Self) -> bool {
        *self == *other
    }

    fn equivalent(&self, other: &Self) -> (r: bool) {
        *self == *other
    }
}

impl Equivalence for i128 {
    open spec fn equivalent_spec(&self, other: &Self) -> bool {
        *self == *other
    }

    fn equivalent(&self, other: &Self) -> (r: bool) {
        *self == *other
    }
}

impl Equivalence for isize {
    open spec fn equivalent_spec(&self, other: &Self) -> bool {
        *self == *other
    }

    fn equivalent(&self, other: &Self) -> (r: bool) {
        *self == *other
    }
}

impl Equivalence for char {
    open spec fn equivalent_spec(&self, other: &Self) -> bool {
        *self == *other
    }

    fn equivalent(&self, other: &Self) -> (r: bool) {
        *self == *other
    }
}

impl Equivalence for String {
    open spec fn equivalent_spec(&self, other: &Self) -> bool {
        self@ == other@
    }

    fn equivalent(&self, other: &Self) -> (r: bool) {
        same_text(self.as_str(), other.as_str())
    }
}

impl<'a> Equivalence for &'a str {
    open spec fn equivalent_spec(&self, other: &Self) -> bool {
        (*self)@ == (*other)@
    }

    fn equivalent(&self, other: &Self) -> (r: bool) {
        same_text(*self, *other)
    }
}

impl<T: Equivalence> Equivalence for Option<T> {
    open spec fn equivalent_spec(&self, other: &Self) -> bool {
        match (*self, *other) {
            (None, None) => true,
            (Some(s), Some(o)) => s.equivalent_spec(&o),
            _ => false,
        }
    }

    fn equivalent(&self, other: &Self) -> (r: bool) {
        match (self, other) {
            (None, None) => true,
            (Some(s), Some(o)) => s.equivalent(o),
            _ => false,
        }
    }
}

impl<T: Equivalence> Equivalence for Box<T> {
    open spec fn equivalent_spec(&self, other: &Self) -> bool {
        (**self).equivalent_spec(&**other)
    }

    fn equivalent(&self, other: &Self) -> (r: bool) {
        (**self).equivalent(&**other)
    }
}

/// Two lists are equivalent when they have the same length and their items
/// are equivalent pair by pair.
pub open spec fn seq_equivalent<T: Equivalence>(a: Seq<T>, b: Seq<T>) -> bool {
    a.len() == b.len() && forall|i: int| 0 <= i < a.len() ==> (#[trigger] a[i]).equivalent_spec(&b[i])
}

impl<T: Equivalence> Equivalence for Vec<T> {
    open spec fn equivalent_spec(&self, other: &Self) -> bool {
        seq_equivalent(self@, other@)
    }

    fn equivalent(&self, other: &Self) -> (r: bool) {
        if self.len() != other.len() {
            return false;
        }
        let mut k: usize = 0;
        while k < self.len()
            invariant
                self@.len() == other@.len(),
                k <= self@.len(),
                forall|i: int| 0 <= i < k ==> (#[trigger] self@[i]).equivalent_spec(&other@[i]),
            decreases self@.len() - k,
        {
            if !self[k].equivalent(&other[k]) {
                return false;
            }
            k = k + 1;
        }
        true
    }
}


/// Two vectors are equivalent exactly when they have the same length and
/// the items at each index are equivalent.
pub proof fn lemma_vec_equivalence<T: Equivalence>(a: Vec<T>, b: Vec<T>)
    ensures
        a.equivalent_spec(&b) <==> (a@.len() == b@.len() && forall|i: int|
            0 <= i < a@.len() ==> (#[trigger] a@[i]).equivalent_spec(&b@[i])),
        a@.len() != b@.len() ==> !a.equivalent_spec(&b),
        forall|k: int|
            0 <= k < a@.len() && k < b@.len() && !(#[trigger] a@[k]).equivalent_spec(&b@[k])
                ==> !a.equivalent_spec(&b),
{
}

/// Equivalent vectors stay equivalent when equivalent items are added at
/// their ends, and stop being so when items that are not are.
pub proof fn lemma_vec_equivalence_push<T: Equivalence>(a: Vec<T>, b: Vec<T>, x: T, y: T)
    requires
        a@.len() == b@.len(),
    ensures
        seq_equivalent(a@.push(x), b@.push(y)) <==> (a.equivalent_spec(&b) && x.equivalent_spec(&y)),
{
    let p = a@.push(x);
    let q = b@.push(y);
    assert(p[a@.len() as int] == x);
    assert(q[b@.len() as int] == y);
    if a.equivalent_spec(&b) && x.equivalent_spec(&y) {
        assert forall|i: int| 0 <= i < p.len() implies (#[trigger] p[i]).equivalent_spec(&q[i]) by {
            if i < a@.len() {
                assert(p[i] == a@[i]);
                assert(q[i] == b@[i]);
            }
        }
    }
    if seq_equivalent(p, q) {
        assert forall|i: int| 0 <= i < a@.len() implies (#[trigger] a@[i]).equivalent_spec(&b@[i]) by {
            assert(p[i] == a@[i]);
            assert(q[i] == b@[i]);
        }
    }
}


/// Options are equivalent when both are empty, or both hold equivalent
/// values; an empty option is equivalent to no full one.
pub proof fn lemma_option_equivalence<T: Equivalence>(a: Option<T>, b: Option<T>)
    ensures
        (a is None && b is None) ==> a.equivalent_spec(&b),
        (a is None) != (b is None) ==> !a.equivalent_spec(&b),
        a matches Some(x) ==> (b matches Some(y) ==> (a.equivalent_spec(&b) <==> x.equivalent_spec(&y))),
{
}

/// Texts are equivalent exactly when they hold the same chars.
pub proof fn lemma_text_equivalence(a: String, b: String)
    ensures
        a.equivalent_spec(&b) <==> a@ == b@,
{
}

} // verus!
