//! Storage for the text of identifiers and comments.
//!
//! Identifiers are interned: a text is stored once and referred to by a
//! [`StoreSymbol`]. Comment lines are stored in order, one entry per line.
use vstd::prelude::*;
use vstd::string::*;
use crate::text::{has_line_break, same_text, string_views};

verus! {

/// A reference to a text stored in an [`Interner`].
#[derive(Debug, Clone, Copy, PartialEq, Eq, Structural, PartialOrd, Ord, Hash)]
pub struct StoreSymbol(pub usize);

/// The first index where `s` appears in `v`.
pub open spec fn index_of(v: Seq<Seq<char>>, s: Seq<char>) -> Option<int>
    decreases v.len(),
{
    if v.len() == 0 {
        None
    } else if v.last() == s {
        match index_of(v.drop_last(), s) {
            Some(i) => Some(i),
            None => Some(v.len() - 1),
        }
    } else {
        index_of(v.drop_last(), s)
    }
}

/// The texts of `v` hold no text twice.
pub open spec fn no_duplicates(v: Seq<Seq<char>>) -> bool {
    forall|i: int, j: int| 0 <= i < j < v.len() ==> v[i] != v[j]
}

/// The store that `s` leaves after being interned in a store with texts `v`.
pub open spec fn interned(v: Seq<Seq<char>>, s: Seq<char>) -> Seq<Seq<char>> {
    match index_of(v, s) {
        Some(_) => v,
        None => v.push(s),
    }
}

/// The symbol that interning `s` gives in a store with texts `v`.
pub open spec fn interned_symbol(v: Seq<Seq<char>>, s: Seq<char>) -> usize {
    match index_of(v, s) {
        Some(i) => i as usize,
        None => v.len() as usize,
    }
}

pub proof fn lemma_index_of(v: Seq<Seq<char>>, s: Seq<char>)
    ensures
        index_of(v, s) matches Some(i) ==> 0 <= i < v.len() && v[i] == s && forall|j: int|
            0 <= j < i ==> v[j] != s,
        index_of(v, s) is None ==> forall|j: int| 0 <= j < v.len() ==> v[j] != s,
    decreases v.len(),
{
    if v.len() > 0 {
        let w = v.drop_last();
        lemma_index_of(w, s);
        assert(forall|j: int| 0 <= j < w.len() ==> #[trigger] v[j] == w[j]);
        assert(v.last() == v[v.len() - 1]);
        match index_of(w, s) {
            Some(i) => {
                assert(index_of(v, s) == Some(i));
            },
            None => {
                if v.last() == s {
                    assert(index_of(v, s) == Some(v.len() - 1));
                } else {
                    assert(index_of(v, s) is None);
                }
            },
        }
    }
}

/// Interning a text keeps the texts that were there in their places, and the
/// symbol it gives stands for the text; interning it again changes nothing
/// and gives the same symbol.
pub proof fn lemma_intern_twice(v: Seq<Seq<char>>, s: Seq<char>)
    requires
        v.len() < usize::MAX,
    ensures
        forall|i: int| 0 <= i < v.len() ==> interned(v, s)[i] == v[i],
        interned(v, s)[interned_symbol(v, s) as int] == s,
        interned(interned(v, s), s) == interned(v, s),
        interned_symbol(interned(v, s), s) == interned_symbol(v, s),
{
    lemma_index_of(v, s);
    let w = interned(v, s);
    if index_of(v, s) is None {
        assert(w.drop_last() =~= v);
        assert(w.last() == s);
        assert(index_of(w, s) == Some(v.len() as int));
    }
}

/// An interner of texts: each text is stored once.
pub struct Interner {
    strings: Vec<String>,
}

impl View for Interner {
    type V = Seq<Seq<char>>;

    closed spec fn view(&self) -> Seq<Seq<char>> {
        string_views(self.strings@)
    }
}

impl Interner {
    #[verifier::type_invariant]
    closed spec fn wf(&self) -> bool {
        no_duplicates(self@)
    }

    /// An interner without texts.
    pub fn new() -> (r: Interner)
        ensures
            r@ == Seq::<Seq<char>>::empty(),
    {
        let r = Interner { strings: Vec::new() };
        assert(r@ =~= Seq::<Seq<char>>::empty());
        r
    }

    /// Stores the text (if it is not already there) and returns its symbol.
    pub fn unsafe_add(&mut self, s: &str) -> (sym: StoreSymbol)
        ensures
            final(self)@ == interned(old(self)@, s@),
            sym.0 == interned_symbol(old(self)@, s@),
            sym.0 < final(self)@.len(),
            final(self)@[sym.0 as int] == s@,
            no_duplicates(final(self)@),
    {
        proof {
            use_type_invariant(&*self);
            lemma_index_of(self@, s@);
        }
        let mut k: usize = 0;
        while k < self.strings.len()
            invariant
                0 <= k <= self.strings@.len(),
                self@.len() == self.strings@.len(),
                forall|j: int| 0 <= j < self.strings@.len() ==> self@[j] == #[trigger] self.strings@[j]@,
                forall|j: int| 0 <= j < k ==> self@[j] != s@,
                no_duplicates(self@),
            decreases self.strings@.len() - k,
        {
            if same_text(self.strings[k].as_str(), s) {
                proof {
                    lemma_index_of(self@, s@);
                }
                return StoreSymbol(k);
            }
            k = k + 1;
        }
        let n = self.strings.len();
        let ghost old_view = self@;
        let mut strings = Vec::new();
        std::mem::swap(&mut strings, &mut self.strings);
        strings.push(String::from_str(s));
        proof {
            assert(string_views(strings@) =~= old_view.push(s@));
            assert(no_duplicates(string_views(strings@)));
        }
        self.strings = strings;
        StoreSymbol(n)
    }

    /// The text of a symbol, if the symbol belongs to this interner.
    pub fn resolve(&self, sym: StoreSymbol) -> (r: Option<&str>)
        ensures
            sym.0 < self@.len() ==> r is Some && r->0@ == self@[sym.0 as int],
            sym.0 >= self@.len() ==> r is None,
            no_duplicates(self@),
    {
        proof {
            use_type_invariant(self);
        }
        if sym.0 < self.strings.len() {
            Some(self.strings[sym.0].as_str())
        } else {
            None
        }
    }

    /// The number of stored texts.
    pub fn len(&self) -> (n: usize)
        ensures
            n == self@.len(),
    {
        self.strings.len()
    }
}

/// The stored lines of comments, in the order they were added.
pub struct CommentStore {
    lines: Vec<String>,
}

impl View for CommentStore {
    type V = Seq<Seq<char>>;

    closed spec fn view(&self) -> Seq<Seq<char>> {
        string_views(self.lines@)
    }
}

impl CommentStore {
    /// A store without lines.
    pub fn new() -> (r: CommentStore)
        ensures
            r@ == Seq::<Seq<char>>::empty(),
    {
        let r = CommentStore { lines: Vec::new() };
        assert(r@ =~= Seq::<Seq<char>>::empty());
        r
    }

    /// Stores a line of text and returns its index; a text with a line
    /// break is refused and nothing is stored.
    pub fn add_str(&mut self, value: &str) -> (r: Option<usize>)
        ensures
            value@.contains('\n') ==> r is None && final(self)@ == old(self)@,
            !value@.contains('\n') ==> r is Some && r->0 == old(self)@.len() && final(self)@
                == old(self)@.push(value@),
    {
        if has_line_break(value) {
            return None;
        }
        let n = self.lines.len();
        let ghost old_view = self@;
        self.lines.push(String::from_str(value));
        assert(self@ =~= old_view.push(value@));
        Some(n)
    }

    /// The text of a stored line.
    pub fn get(&self, index: usize) -> (r: Option<&str>)
        ensures
            index < self@.len() ==> r is Some && r->0@ == self@[index as int],
            index >= self@.len() ==> r is None,
    {
        if index < self.lines.len() {
            Some(self.lines[index].as_str())
        } else {
            None
        }
    }

    /// The number of stored lines.
    pub fn len(&self) -> (n: usize)
        ensures
            n == self@.len(),
    {
        self.lines.len()
    }
}

/// All the texts of a source: identifiers and comments.
pub struct Store {
    pub regular: Interner,
    pub comments: CommentStore,
}

impl Default for Store {
    fn default() -> (r: Store)
        ensures
            r.regular@ == Seq::<Seq<char>>::empty(),
            r.comments@ == Seq::<Seq<char>>::empty(),
    {
        Store { regular: Interner::new(), comments: CommentStore::new() }
    }
}

} // verus!
