//! Small helpers on strings and sequences of chars.
use vstd::prelude::*;
use vstd::string::*;
use vstd::std_specs::iter::IteratorSpec;

verus! {

broadcast use vstd::string::group_string_axioms;

/// The chars of a string, in order.
pub fn chars_of(s: &str) -> (v: Vec<char>)
    ensures
        v@ == s@,
{
    let mut it = s.chars();
    let mut v: Vec<char> = Vec::new();
    loop
        invariant
            it.obeys_prophetic_iter_laws(),
            s@ == v@ + it.remaining(),
            v@.len() <= s@.len(),
        decreases s@.len() - v@.len(),
    {
        match it.next() {
            Some(c) => {
                v.push(c);
            },
            None => {
                assert(v@ =~= s@);
                return v;
            },
        }
    }
}


/// Whether `sep` occurs in `s` at index `i`.
pub open spec fn occurs_at(s: Seq<char>, sep: Seq<char>, i: int) -> bool {
    0 <= i && i + sep.len() <= s.len() && s.subrange(i, i + sep.len()) == sep
}

/// The first index at or after `i` where `sep` occurs in `s`.
pub open spec fn find_from(s: Seq<char>, sep: Seq<char>, i: int) -> Option<int>
    decreases s.len() - i,
{
    if i < 0 || i >= s.len() || i + sep.len() > s.len() {
        None
    } else if occurs_at(s, sep, i) {
        Some(i)
    } else {
        find_from(s, sep, i + 1)
    }
}

/// The pieces of `s` between the non overlapping occurrences of `sep`,
/// found from left to right (as `str::split` does). There is always at
/// least one piece.
pub open spec fn split_by(s: Seq<char>, sep: Seq<char>) -> Seq<Seq<char>>
    recommends
        sep.len() > 0,
    decreases s.len(),
{
    if sep.len() == 0 {
        seq![s]
    } else {
        match find_from(s, sep, 0) {
            None => seq![s],
            Some(i) => if 0 <= i && i + sep.len() <= s.len() {
                seq![s.take(i)] + split_by(s.skip(i + sep.len()), sep)
            } else {
                seq![s]
            },
        }
    }
}

proof fn lemma_find_from_bounds(s: Seq<char>, sep: Seq<char>, i: int)
    ensures
        find_from(s, sep, i) matches Some(j) ==> i <= j && j + sep.len() <= s.len() && occurs_at(
            s,
            sep,
            j,
        ),
    decreases s.len() - i,
{
    if !(i < 0 || i >= s.len() || i + sep.len() > s.len()) && !occurs_at(s, sep, i) {
        lemma_find_from_bounds(s, sep, i + 1);
    }
}

/// Searching in a suffix is searching in the whole from the suffix start on.
proof fn lemma_find_from_skip(s: Seq<char>, sep: Seq<char>, start: int, i: int)
    requires
        0 <= start <= i,
        start <= s.len(),
    ensures
        find_from(s.skip(start), sep, i - start) == match find_from(s, sep, i) {
            Some(j) => Some(j - start),
            None => None::<int>,
        },
    decreases s.len() - i,
{
    let t = s.skip(start);
    if i >= s.len() || i + sep.len() > s.len() {
    } else {
        assert(t.subrange(i - start, i - start + sep.len()) =~= s.subrange(i, i + sep.len()));
        if !occurs_at(s, sep, i) {
            lemma_find_from_skip(s, sep, start, i + 1);
        }
    }
}

/// Whether `sep` occurs in `s` at index `i`, computed.
fn occurs_at_exec(s: &Vec<char>, sep: &Vec<char>, i: usize) -> (r: bool)
    ensures
        r == occurs_at(s@, sep@, i as int),
{
    if i > s.len() || sep.len() > s.len() - i {
        return false;
    }
    let mut k: usize = 0;
    while k < sep.len()
        invariant
            i + sep@.len() <= s@.len(),
            s@.len() == s.len(),
            0 <= k <= sep@.len(),
            forall|j: int| 0 <= j < k ==> s@[i + j] == sep@[j],
        decreases sep@.len() - k,
    {
        if s[i + k] != sep[k] {
            assert(s@.subrange(i as int, i + sep@.len())[k as int] != sep@[k as int]);
            return false;
        }
        k = k + 1;
    }
    assert(s@.subrange(i as int, i + sep@.len()) =~= sep@);
    true
}

/// Before the first occurrence that [`find_from`] finds, the separator does not occur.
pub proof fn lemma_find_from_first(s: Seq<char>, sep: Seq<char>, i: int, j: int)
    requires
        0 <= i <= j,
        match find_from(s, sep, i) {
            Some(f) => j < f,
            None => true,
        },
    ensures
        !occurs_at(s, sep, j) || j >= s.len(),
    decreases j - i,
{
    if i < 0 || i >= s.len() || i + sep.len() > s.len() {
        if j < s.len() && occurs_at(s, sep, j) {
            assert(j + sep.len() <= s.len());
        }
    } else if occurs_at(s, sep, i) {
    } else if i < j {
        lemma_find_from_first(s, sep, i + 1, j);
    }
}

/// The pieces of a split at a single char do not hold that char.
pub proof fn lemma_split_by_char(s: Seq<char>, c: char)
    ensures
        forall|k: int|
            0 <= k < split_by(s, seq![c]).len() ==> !(#[trigger] split_by(s, seq![c])[k]).contains(c),
    decreases s.len(),
{
    let sep = seq![c];
    lemma_find_from_bounds(s, sep, 0);
    match find_from(s, sep, 0) {
        None => {
            assert forall|j: int| 0 <= j < s.len() implies s[j] != c by {
                lemma_find_from_first(s, sep, 0, j);
                if s[j] == c {
                    assert(s.subrange(j, j + 1) =~= sep);
                }
            }
        },
        Some(i) => {
            let rest = s.skip(i + 1);
            lemma_split_by_char(rest, c);
            assert forall|j: int| 0 <= j < i implies s.take(i)[j] != c by {
                lemma_find_from_first(s, sep, 0, j);
                if s[j] == c {
                    assert(s.subrange(j, j + 1) =~= sep);
                }
            }
            let pieces = split_by(s, sep);
            assert(pieces == seq![s.take(i)] + split_by(rest, sep));
            assert forall|k: int| 0 <= k < pieces.len() implies !(#[trigger] pieces[k]).contains(c) by {
                if k > 0 {
                    assert(pieces[k] == split_by(rest, sep)[k - 1]);
                }
            }
        },
    }
}

/// The views of a vector of strings.
pub open spec fn string_views(v: Seq<String>) -> Seq<Seq<char>> {
    v.map_values(|p: String| p@)
}

/// Splits `s` at the non overlapping occurrences of a non empty `sep`,
/// from left to right.
pub fn split_str(s: &str, sep: &Vec<char>) -> (pieces: Vec<String>)
    requires
        sep@.len() > 0,
    ensures
        string_views(pieces@) == split_by(s@, sep@),
{
    let chars = chars_of(s);
    let n = chars.len();
    let mut pieces: Vec<String> = Vec::new();
    let mut start: usize = 0;
    let mut i: usize = 0;
    proof {
        assert(chars@.skip(0) =~= chars@);
        assert(string_views(pieces@) =~= Seq::<Seq<char>>::empty());
        assert(split_by(chars@, sep@) =~= string_views(pieces@) + split_by(chars@.skip(0), sep@));
    }
    while i < n
        invariant
            n == chars@.len(),
            chars@ == s@,
            sep@.len() > 0,
            0 <= start <= i <= n,
            find_from(chars@, sep@, start as int) == find_from(chars@, sep@, i as int),
            split_by(chars@, sep@) == string_views(pieces@) + split_by(
                chars@.skip(start as int),
                sep@,
            ),
        decreases n - i,
    {
        if occurs_at_exec(&chars, sep, i) {
            let piece = s.substring_char(start, i);
            let ghost rest = chars@.skip(start as int);
            let ghost old_views = string_views(pieces@);
            proof {
                lemma_find_from_skip(chars@, sep@, start as int, start as int);
                assert(find_from(chars@, sep@, i as int) == Some(i as int));
                assert(find_from(rest, sep@, 0) == Some(i - start));
                assert(rest.take(i - start) =~= chars@.subrange(start as int, i as int));
                assert(rest.skip(i - start + sep@.len()) =~= chars@.skip(i + sep@.len()));
                assert(split_by(rest, sep@) == seq![rest.take(i - start)] + split_by(
                    rest.skip(i - start + sep@.len()),
                    sep@,
                ));
            }
            pieces.push(String::from_str(piece));
            i = i + sep.len();
            start = i;
            proof {
                assert(string_views(pieces@) =~= old_views.push(piece@));
                assert(split_by(chars@, sep@) =~= string_views(pieces@) + split_by(
                    chars@.skip(start as int),
                    sep@,
                ));
            }
        } else {
            i = i + 1;
        }
    }
    let last = s.substring_char(start, n);
    let ghost old_views = string_views(pieces@);
    proof {
        let rest = chars@.skip(start as int);
        lemma_find_from_skip(chars@, sep@, start as int, start as int);
        assert(find_from(rest, sep@, 0) is None);
        assert(rest =~= chars@.subrange(start as int, n as int));
    }
    pieces.push(String::from_str(last));
    proof {
        assert(string_views(pieces@) =~= old_views.push(last@));
    }
    pieces
}


/// The length in bytes of a string.
pub fn byte_len(src: &str) -> (n: usize)
    ensures
        n == src.spec_bytes().len(),
        n == vstd::utf8::encode_utf8(src@).len(),
{
    src.as_bytes().len()
}

/// Whether two strings hold the same text.
pub fn same_text(a: &str, b: &str) -> (r: bool)
    ensures
        r == (a@ == b@),
{
    let x = a.as_bytes();
    let y = b.as_bytes();
    proof {
        vstd::utf8::encode_utf8_decode_utf8(a@);
        vstd::utf8::encode_utf8_decode_utf8(b@);
    }
    assert(a@ == b@ ==> x@ == y@);
    if x.len() != y.len() {
        return false;
    }
    let mut k: usize = 0;
    while k < x.len()
        invariant
            x@.len() == y@.len(),
            0 <= k <= x@.len(),
            forall|j: int| 0 <= j < k ==> x@[j] == y@[j],
            a@ == b@ ==> x@ == y@,
            x@ == a.spec_bytes(),
            y@ == b.spec_bytes(),
        decreases x@.len() - k,
    {
        if x[k] != y[k] {
            return false;
        }
        k = k + 1;
    }
    assert(x@ =~= y@);
    true
}

/// Whether a string holds a line break.
pub fn has_line_break(s: &str) -> (r: bool)
    ensures
        r == s@.contains('\n'),
{
    let chars = chars_of(s);
    let mut k: usize = 0;
    while k < chars.len()
        invariant
            chars@ == s@,
            0 <= k <= chars@.len(),
            forall|j: int| 0 <= j < k ==> chars@[j] != '\n',
        decreases chars@.len() - k,
    {
        if chars[k] == '\n' {
            return true;
        }
        k = k + 1;
    }
    false
}


/// The number of bytes of the UTF-8 encoding of a char.
pub open spec fn char_width(c: char) -> nat {
    vstd::utf8::encode_scalar(c as u32).len()
}

/// The number of bytes of the UTF-8 encoding of a text.
pub open spec fn utf8_len(s: Seq<char>) -> nat {
    vstd::utf8::encode_utf8(s).len()
}

/// The number of bytes of the UTF-8 encoding of a char, computed.
pub fn char_byte_width(c: char) -> (w: usize)
    ensures
        w == char_width(c),
        1 <= w <= 4,
{
    proof {
        vstd::utf8::char_is_scalar(c);
    }
    let v = c as u32;
    if v <= 0x7f {
        1
    } else if v <= 0x7ff {
        2
    } else if v <= 0xffff {
        3
    } else {
        4
    }
}

/// Encoding a concatenation is concatenating the encodings.
pub proof fn lemma_encode_utf8_concat(a: Seq<char>, b: Seq<char>)
    ensures
        vstd::utf8::encode_utf8(a + b) == vstd::utf8::encode_utf8(a) + vstd::utf8::encode_utf8(b),
    decreases a.len(),
{
    if a.len() == 0 {
        assert(a + b =~= b);
        assert(vstd::utf8::encode_utf8(a) =~= Seq::<u8>::empty());
        assert(vstd::utf8::encode_utf8(a) + vstd::utf8::encode_utf8(b) =~= vstd::utf8::encode_utf8(b));
    } else {
        assert((a + b).drop_first() =~= a.drop_first() + b);
        assert((a + b)[0] == a[0]);
        lemma_encode_utf8_concat(a.drop_first(), b);
        assert(vstd::utf8::encode_utf8(a + b) =~= vstd::utf8::encode_scalar(a[0] as u32)
            + vstd::utf8::encode_utf8(a.drop_first() + b));
    }
}

/// The encoding of a text that grows by one char grows by that char's width.
pub proof fn lemma_utf8_len_push(s: Seq<char>, c: char)
    ensures
        utf8_len(s.push(c)) == utf8_len(s) + char_width(c),
{
    lemma_encode_utf8_concat(s, seq![c]);
    assert(s.push(c) =~= s + seq![c]);
    assert(seq![c].drop_first() =~= Seq::<char>::empty());
    assert(vstd::utf8::encode_utf8(seq![c]) =~= vstd::utf8::encode_scalar(c as u32)
        + vstd::utf8::encode_utf8(Seq::<char>::empty()));
}

/// A prefix is never longer, in bytes, than the whole text.
pub proof fn lemma_utf8_len_prefix(s: Seq<char>, i: int)
    requires
        0 <= i <= s.len(),
    ensures
        utf8_len(s.take(i)) <= utf8_len(s),
        utf8_len(s) == utf8_len(s.take(i)) + utf8_len(s.skip(i)),
{
    lemma_encode_utf8_concat(s.take(i), s.skip(i));
    assert(s.take(i) + s.skip(i) =~= s);
}

/// The char of a decimal digit.
pub open spec fn digit_char(d: nat) -> char {
    if d == 0 {
        '0'
    } else if d == 1 {
        '1'
    } else if d == 2 {
        '2'
    } else if d == 3 {
        '3'
    } else if d == 4 {
        '4'
    } else if d == 5 {
        '5'
    } else if d == 6 {
        '6'
    } else if d == 7 {
        '7'
    } else if d == 8 {
        '8'
    } else {
        '9'
    }
}

/// The decimal text of a number, without leading zeros.
pub open spec fn decimal(n: nat) -> Seq<char>
    decreases n,
{
    if n < 10 {
        seq![digit_char(n)]
    } else {
        decimal(n / 10).push(digit_char(n % 10))
    }
}

/// The text of a decimal digit.
fn digit_text(d: usize) -> (r: &'static str)
    requires
        d < 10,
    ensures
        r@ == seq![digit_char(d as nat)],
{
    proof {
        reveal_strlit("0");
        reveal_strlit("1");
        reveal_strlit("2");
        reveal_strlit("3");
        reveal_strlit("4");
        reveal_strlit("5");
        reveal_strlit("6");
        reveal_strlit("7");
        reveal_strlit("8");
        reveal_strlit("9");
    }
    match d {
        0 => "0",
        1 => "1",
        2 => "2",
        3 => "3",
        4 => "4",
        5 => "5",
        6 => "6",
        7 => "7",
        8 => "8",
        _ => "9",
    }
}

/// The decimal text of a number.
pub fn decimal_text(n: usize) -> (r: String)
    ensures
        r@ == decimal(n as nat),
    decreases n,
{
    if n < 10 {
        String::from_str(digit_text(n))
    } else {
        let mut s = decimal_text(n / 10);
        s.append(digit_text(n % 10));
        s
    }
}

} // verus!
