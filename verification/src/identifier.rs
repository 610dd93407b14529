//! Identifiers of the language.
use vstd::prelude::*;
use vstd::string::*;
use crate::matching::{regex_is_match, regex_matches, IDENTIFIER_PATTERN};
use crate::store::{interned, interned_symbol, Store, StoreSymbol};

use crate::equivalence::Equivalence;
verus! {

/// An identifier: a reference to its text in the [`Store`] and its width.
#[derive(Debug, PartialEq, Eq, Structural, Clone, Copy, PartialOrd, Ord, Hash)]
pub struct Identifier {
    symbol: StoreSymbol,
    len: usize,
}

impl View for Identifier {
    type V = (StoreSymbol, usize);

    closed spec fn view(&self) -> (StoreSymbol, usize) {
        (self.symbol, self.len)
    }
}

/// Why a text is not an identifier.
#[derive(Debug, Clone, PartialEq, Eq, PartialOrd, Ord, Hash)]
pub enum IdentifierError {
    ContainsInvalidCodePoint(String),
    EmptyIdentifier,
}

impl IdentifierError {
    /// The message of the error.
    pub fn to_string(&self) -> (r: String)
        ensures
            r@ == match *self {
                IdentifierError::ContainsInvalidCodePoint(s) => "invalid char in Identifier: "@ + s@,
                IdentifierError::EmptyIdentifier => "attempt to build empty identifier"@,
            },
    {
        match self {
            IdentifierError::ContainsInvalidCodePoint(s) => {
                let mut m = String::from_str("invalid char in Identifier: ");
                m.append(s.as_str());
                m
            },
            IdentifierError::EmptyIdentifier => String::from_str("attempt to build empty identifier"),
        }
    }
}

/// The text is an identifier: underscores, a char that can start an
/// identifier and chars that can continue one, as the regular expression
/// [`IDENTIFIER_PATTERN`] decides.
pub open spec fn is_identifier_text(s: Seq<char>) -> bool {
    s.len() > 0 && regex_matches(IDENTIFIER_PATTERN@, s)
}

impl Identifier {
    /// The symbol and the width of the identifier.
    pub fn as_tuple(&self) -> (r: (StoreSymbol, usize))
        ensures
            r == self@,
    {
        (self.symbol, self.len)
    }

    /// Checks that the text is an identifier and stores it.
    /// The width of an identifier is its number of chars.
    pub fn make(s: &str, store: &mut Store) -> (r: Result<Identifier, IdentifierError>)
        ensures
            s@.len() == 0 ==> r == Err::<Identifier, IdentifierError>(
                IdentifierError::EmptyIdentifier,
            ) && final(store).regular@ == old(store).regular@,
            s@.len() > 0 && !regex_matches(IDENTIFIER_PATTERN@, s@) ==> (r matches Err(
                IdentifierError::ContainsInvalidCodePoint(t),
            ) && t@ == s@) && final(store).regular@ == old(store).regular@,
            is_identifier_text(s@) ==> (r matches Ok(id) && id@ == (
                StoreSymbol(interned_symbol(old(store).regular@, s@)),
                s@.len() as usize,
            )) && final(store).regular@ == interned(old(store).regular@, s@),
            final(store).comments@ == old(store).comments@,
            r matches Ok(id) ==> id@.0.0 < final(store).regular@.len()
                && final(store).regular@[id@.0.0 as int] == s@,
    {
        if s.is_empty() {
            return Err(IdentifierError::EmptyIdentifier);
        }
        let matches = regex_is_match(IDENTIFIER_PATTERN, s);
        Identifier::from_match(s, matches, store)
    }

    /// Makes an identifier of the text, given whether the text matches
    /// [`IDENTIFIER_PATTERN`]: an empty text is refused, a text that does not
    /// match is refused with the text, and a text that matches is stored.
    /// The width of an identifier is its number of chars.
    pub fn from_match(s: &str, matches: bool, store: &mut Store) -> (r: Result<Identifier, IdentifierError>)
        ensures
            s@.len() == 0 ==> r == Err::<Identifier, IdentifierError>(
                IdentifierError::EmptyIdentifier,
            ) && final(store).regular@ == old(store).regular@,
            s@.len() > 0 && !matches ==> (r matches Err(IdentifierError::ContainsInvalidCodePoint(t))
                && t@ == s@) && final(store).regular@ == old(store).regular@,
            s@.len() > 0 && matches ==> (r matches Ok(id) && id@ == (
                StoreSymbol(interned_symbol(old(store).regular@, s@)),
                s@.len() as usize,
            )) && final(store).regular@ == interned(old(store).regular@, s@),
            final(store).comments@ == old(store).comments@,
            r matches Ok(id) ==> id@.0.0 < final(store).regular@.len()
                && final(store).regular@[id@.0.0 as int] == s@,
    {
        if s.is_empty() {
            return Err(IdentifierError::EmptyIdentifier);
        }
        if matches {
            let symbol = store.regular.unsafe_add(s);
            let len = s.unicode_len();
            Ok(Identifier { symbol, len })
        } else {
            Err(IdentifierError::ContainsInvalidCodePoint(String::from_str(s)))
        }
    }
}

/// The error that making an identifier of a text that is not one gives:
/// for an empty text, [`IdentifierError::EmptyIdentifier`]; for another,
/// [`IdentifierError::ContainsInvalidCodePoint`] with the text.
pub open spec fn is_error_of(e: IdentifierError, s: Seq<char>) -> bool {
    if s.len() == 0 {
        e == IdentifierError::EmptyIdentifier
    } else {
        e matches IdentifierError::ContainsInvalidCodePoint(t) && t@ == s
    }
}

/// The texts of an interner after interning `pieces` in order.
pub open spec fn intern_pieces(v: Seq<Seq<char>>, pieces: Seq<Seq<char>>) -> Seq<Seq<char>>
    decreases pieces.len(),
{
    if pieces.len() == 0 {
        v
    } else {
        intern_pieces(interned(v, pieces[0]), pieces.drop_first())
    }
}

/// The index of the first piece that is not an identifier.
pub open spec fn first_non_identifier(pieces: Seq<Seq<char>>) -> Option<int>
    decreases pieces.len(),
{
    if pieces.len() == 0 {
        None
    } else if !is_identifier_text(pieces[0]) {
        Some(0)
    } else {
        match first_non_identifier(pieces.drop_first()) {
            Some(i) => Some(i + 1),
            None => None,
        }
    }
}

/// The identifiers that interning `pieces` in order, in an interner with
/// texts `v`, gives: the i-th one refers to the i-th piece.
pub open spec fn identifiers_of(v: Seq<Seq<char>>, pieces: Seq<Seq<char>>, ids: Seq<Identifier>) -> bool {
    &&& ids.len() == pieces.len()
    &&& forall|i: int|
        0 <= i < pieces.len() ==> (#[trigger] ids[i])@ == (
            StoreSymbol(interned_symbol(intern_pieces(v, pieces.take(i)), pieces[i])),
            pieces[i].len() as usize,
        )
}

pub proof fn lemma_intern_pieces_push(v: Seq<Seq<char>>, pieces: Seq<Seq<char>>, p: Seq<char>)
    ensures
        intern_pieces(v, pieces.push(p)) == interned(intern_pieces(v, pieces), p),
    decreases pieces.len(),
{
    let q = pieces.push(p);
    if pieces.len() > 0 {
        assert(q.drop_first() =~= pieces.drop_first().push(p));
        assert(q[0] == pieces[0]);
        lemma_intern_pieces_push(interned(v, pieces[0]), pieces.drop_first(), p);
        assert(intern_pieces(v, q) == intern_pieces(interned(v, q[0]), q.drop_first()));
        assert(intern_pieces(v, pieces) == intern_pieces(interned(v, pieces[0]), pieces.drop_first()));
    } else {
        assert(q.drop_first() =~= Seq::<Seq<char>>::empty());
        assert(q[0] == p);
        assert(intern_pieces(v, q) == intern_pieces(interned(v, p), q.drop_first()));
        assert(intern_pieces(interned(v, p), q.drop_first()) == interned(v, p));
    }
}

proof fn lemma_first_non_identifier(pieces: Seq<Seq<char>>)
    ensures
        first_non_identifier(pieces) matches Some(k) ==> 0 <= k < pieces.len()
            && !is_identifier_text(pieces[k]) && forall|j: int|
            0 <= j < k ==> is_identifier_text(#[trigger] pieces[j]),
        first_non_identifier(pieces) is None ==> forall|j: int|
            0 <= j < pieces.len() ==> is_identifier_text(#[trigger] pieces[j]),
    decreases pieces.len(),
{
    if pieces.len() > 0 {
        let rest = pieces.drop_first();
        lemma_first_non_identifier(rest);
        assert(forall|j: int| 0 < j < pieces.len() ==> #[trigger] pieces[j] == rest[j - 1]);
    }
}

/// Makes an identifier of each piece, in order, and stops at the first piece
/// that is not an identifier.
pub fn make_identifiers(pieces: &Vec<String>, store: &mut Store) -> (r: Result<
    Vec<Identifier>,
    IdentifierError,
>)
    ensures
        ({
            let texts = crate::text::string_views(pieces@);
            let v = old(store).regular@;
            match first_non_identifier(texts) {
                None => r matches Ok(ids) && identifiers_of(v, texts, ids@)
                    && final(store).regular@ == intern_pieces(v, texts),
                Some(k) => (r matches Err(e) && is_error_of(e, texts[k])) && final(store).regular@
                    == intern_pieces(v, texts.take(k)),
            }
        }),
        final(store).comments@ == old(store).comments@,
        r matches Ok(ids) ==> forall|i: int|
            0 <= i < ids@.len() ==> (#[trigger] ids@[i])@.0.0 < final(store).regular@.len()
                && final(store).regular@[ids@[i]@.0.0 as int] == pieces@[i]@,
{
    let ghost texts = crate::text::string_views(pieces@);
    let ghost v = store.regular@;
    proof {
        lemma_first_non_identifier(texts);
        assert(texts.take(0) =~= Seq::<Seq<char>>::empty());
    }
    let mut ids: Vec<Identifier> = Vec::new();
    let mut k: usize = 0;
    while k < pieces.len()
        invariant
            texts == crate::text::string_views(pieces@),
            texts.len() == pieces@.len(),
            0 <= k <= pieces@.len(),
            forall|j: int| 0 <= j < k ==> is_identifier_text(#[trigger] texts[j]),
            ids@.len() == k,
            forall|i: int|
                0 <= i < k ==> (#[trigger] ids@[i])@ == (
                    StoreSymbol(interned_symbol(intern_pieces(v, texts.take(i)), texts[i])),
                    texts[i].len() as usize,
                ),
            store.regular@ == intern_pieces(v, texts.take(k as int)),
            store.comments@ == old(store).comments@,
            v == old(store).regular@,
            first_non_identifier(texts) matches Some(f) ==> k <= f,
            forall|i: int|
                0 <= i < k ==> (#[trigger] ids@[i])@.0.0 < store.regular@.len()
                    && store.regular@[ids@[i]@.0.0 as int] == texts[i],
        decreases pieces@.len() - k,
    {
        let ghost before = store.regular@;
        let made = Identifier::make(pieces[k].as_str(), store);
        match made {
            Ok(id) => {
                proof {
                    assert(texts[k as int] == pieces@[k as int]@);
                    lemma_intern_pieces_push(v, texts.take(k as int), texts[k as int]);
                    assert(texts.take(k + 1) =~= texts.take(k as int).push(texts[k as int]));
                    assert(is_identifier_text(texts[k as int]));
                    lemma_first_non_identifier(texts);
                }
                ids.push(id);
                k = k + 1;
            },
            Err(e) => {
                proof {
                    assert(texts[k as int] == pieces@[k as int]@);
                    assert(!is_identifier_text(texts[k as int]));
                    lemma_first_non_identifier(texts);
                    assert(first_non_identifier(texts) == Some(k as int));
                    assert(store.regular@ == before);
                }
                return Err(e);
            },
        }
    }
    proof {
        assert(texts.take(k as int) =~= texts);
    }
    Ok(ids)
}


/// Identifiers are opaque to equivalence: any two are equivalent, since
/// equivalence compares trees without what their names stand for.
impl Equivalence for Identifier {
    open spec fn equivalent_spec(&self, other: &Self) -> bool {
        true
    }

    fn equivalent(&self, other: &Self) -> (r: bool) {
        true
    }
}

} // verus!
