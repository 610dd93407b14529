//! Positions and regions of text inside a source file.
use vstd::prelude::*;
use vstd::utf8::*;
use vstd::string::*;
use crate::text::{byte_len, decimal, decimal_text};
use core::cmp::Ordering;
use vstd::std_specs::cmp::PartialOrdSpecImpl;

verus! {

/// A position on a file.
/// Equality and order are based only on the index: it is the caller's
/// responsibility to keep `line` and `column` in agreement with it.
#[derive(Debug, Copy, Clone, Hash, Ord)]
pub struct Position {
    pub source_index: usize,
    pub line: usize,
    pub column: usize,
}

impl PartialEq for Position {
    fn eq(&self, other: &Self) -> (r: bool) {
        self.source_index == other.source_index
    }
}

impl Eq for Position {}

impl vstd::std_specs::cmp::PartialEqSpecImpl for Position {
    open spec fn obeys_eq_spec() -> bool {
        true
    }

    open spec fn eq_spec(&self, other: &Self) -> bool {
        self.source_index == other.source_index
    }
}

/// How two positions compare: by their indexes.
pub open spec fn position_order(a: Position, b: Position) -> Option<Ordering> {
    if a.source_index < b.source_index {
        Some(Ordering::Less)
    } else if a.source_index == b.source_index {
        Some(Ordering::Equal)
    } else {
        Some(Ordering::Greater)
    }
}

impl PartialOrd for Position {
    fn partial_cmp(&self, other: &Self) -> (r: Option<Ordering>) {
        if self.source_index < other.source_index {
            Some(Ordering::Less)
        } else if self.source_index == other.source_index {
            Some(Ordering::Equal)
        } else {
            Some(Ordering::Greater)
        }
    }
}

impl PartialOrdSpecImpl for Position {
    open spec fn obeys_partial_cmp_spec() -> bool {
        true
    }

    open spec fn partial_cmp_spec(&self, other: &Self) -> Option<Ordering> {
        position_order(*self, *other)
    }
}

impl Default for Position {
    fn default() -> (r: Self)
        ensures
            r.source_index == 0 && r.line == 0 && r.column == 0,
    {
        Position { source_index: 0, line: 0, column: 0 }
    }
}


impl From<(usize, usize, usize)> for Position {
    fn from(input: (usize, usize, usize)) -> (r: Self) {
        Position { source_index: input.0, line: input.1, column: input.2 }
    }
}

impl vstd::std_specs::convert::FromSpecImpl<(usize, usize, usize)> for Position {
    open spec fn obeys_from_spec() -> bool {
        true
    }

    open spec fn from_spec(input: (usize, usize, usize)) -> Self {
        Position { source_index: input.0, line: input.1, column: input.2 }
    }
}

/// Where something is in a source: a whole region or a single position.
#[derive(Debug, Copy, Clone)]
pub enum Location {
    Span(Span),
    Position(Position),
}

/// Things that have a place in a source.
pub trait HasLocation {
    fn get_location(&self) -> Location;
}

impl Position {
    /// The line and the column of the position, as `[line, column]`.
    pub fn to_string(&self) -> (r: String)
        ensures
            r@ == "["@ + decimal(self.line as nat) + ", "@ + decimal(self.column as nat) + "]"@,
    {
        let mut out = String::from_str("[");
        out.append(decimal_text(self.line).as_str());
        out.append(", ");
        out.append(decimal_text(self.column).as_str());
        out.append("]");
        out
    }
}

/// The earlier of two positions, by index; the first one when the indexes are equal.
pub open spec fn position_min(a: Position, b: Position) -> Position {
    if a.source_index <= b.source_index {
        a
    } else {
        b
    }
}

/// The later of two positions, by index; the second one when the indexes are equal.
pub open spec fn position_max(a: Position, b: Position) -> Position {
    if b.source_index >= a.source_index {
        b
    } else {
        a
    }
}

/// A region of text between two source positions.
/// Adding two spans gives the minimal region that contains both.
#[derive(Debug, Copy, Clone, Hash)]
pub struct Span {
    pub start: Position,
    pub end: Position,
}

impl PartialEq for Span {
    fn eq(&self, other: &Self) -> (r: bool) {
        self.start == other.start && self.end == other.end
    }
}

impl Eq for Span {}

impl vstd::std_specs::cmp::PartialEqSpecImpl for Span {
    open spec fn obeys_eq_spec() -> bool {
        true
    }

    open spec fn eq_spec(&self, other: &Self) -> bool {
        self.start.source_index == other.start.source_index
            && self.end.source_index == other.end.source_index
    }
}

impl Span {
    /// The start and the end of the span, as `[line, column] - [line, column]`.
    pub fn to_string(&self) -> (r: String)
        ensures
            r@ == "["@ + decimal(self.start.line as nat) + ", "@ + decimal(self.start.column as nat)
                + "]"@ + " - "@ + "["@ + decimal(self.end.line as nat) + ", "@ + decimal(
                self.end.column as nat,
            ) + "]"@,
    {
        let mut out = self.start.to_string();
        out.append(" - ");
        out.append(self.end.to_string().as_str());
        out
    }
}

/// The minimal span containing both spans.
pub open spec fn span_union(a: Span, b: Span) -> Span {
    Span { start: position_min(a.start, b.start), end: position_max(a.end, b.end) }
}

impl core::ops::Add for Span {
    type Output = Span;

    fn add(self, rhs: Span) -> (r: Span) {
        let start = if self.start.source_index <= rhs.start.source_index {
            self.start
        } else {
            rhs.start
        };
        let end = if rhs.end.source_index >= self.end.source_index {
            rhs.end
        } else {
            self.end
        };
        Span { start, end }
    }
}

impl vstd::std_specs::ops::AddSpecImpl for Span {
    open spec fn obeys_add_spec() -> bool {
        true
    }

    open spec fn add_req(self, rhs: Span) -> bool {
        true
    }

    open spec fn add_spec(self, rhs: Span) -> Span {
        span_union(self, rhs)
    }
}

impl From<((usize, usize, usize), (usize, usize, usize))> for Span {
    fn from(value: ((usize, usize, usize), (usize, usize, usize))) -> (r: Self) {
        Span { start: Position::from(value.0), end: Position::from(value.1) }
    }
}

impl vstd::std_specs::convert::FromSpecImpl<((usize, usize, usize), (usize, usize, usize))> for Span {
    open spec fn obeys_from_spec() -> bool {
        true
    }

    open spec fn from_spec(value: ((usize, usize, usize), (usize, usize, usize))) -> Self {
        Span {
            start: Position { source_index: value.0.0, line: value.0.1, column: value.0.2 },
            end: Position { source_index: value.1.0, line: value.1.1, column: value.1.2 },
        }
    }
}

impl From<(Position, Position)> for Span {
    fn from(value: (Position, Position)) -> (r: Self) {
        Span { start: value.0, end: value.1 }
    }
}

impl vstd::std_specs::convert::FromSpecImpl<(Position, Position)> for Span {
    open spec fn obeys_from_spec() -> bool {
        true
    }

    open spec fn from_spec(value: (Position, Position)) -> Self {
        Span { start: value.0, end: value.1 }
    }
}

/// Adding spans is commutative on the indexes it covers.
pub proof fn lemma_span_add_commutative(a: Span, b: Span)
    ensures
        span_union(a, b).start.source_index == span_union(b, a).start.source_index,
        span_union(a, b).end.source_index == span_union(b, a).end.source_index,
{
}

/// Adding spans is associative.
pub proof fn lemma_span_add_associative(a: Span, b: Span, c: Span)
    ensures
        span_union(span_union(a, b), c) == span_union(a, span_union(b, c)),
{
}

/// Adding a span to itself gives the same span.
pub proof fn lemma_span_add_idempotent(a: Span)
    ensures
        span_union(a, a) == a,
{
}

/// The sum of two spans covers both of them.
pub proof fn lemma_span_add_covers(a: Span, b: Span)
    ensures
        span_union(a, b).start.source_index <= a.start.source_index,
        span_union(a, b).start.source_index <= b.start.source_index,
        span_union(a, b).end.source_index >= a.end.source_index,
        span_union(a, b).end.source_index >= b.end.source_index,
        span_union(a, b).start.source_index == a.start.source_index
            || span_union(a, b).start.source_index == b.start.source_index,
        span_union(a, b).end.source_index == a.end.source_index
            || span_union(a, b).end.source_index == b.end.source_index,
{
}


/// The span between two byte offsets, without line or column (both zero).
pub fn range_to_span(r: core::ops::Range<usize>) -> (s: Span)
    ensures
        s.start == (Position { source_index: r.start, line: 0, column: 0 }),
        s.end == (Position { source_index: r.end, line: 0, column: 0 }),
{
    Span {
        start: Position { source_index: r.start, line: 0, column: 0 },
        end: Position { source_index: r.end, line: 0, column: 0 },
    }
}

/// The bytes of a string, in UTF-8.
pub open spec fn bytes_of(s: &str) -> Seq<u8> {
    s.spec_bytes()
}

/// The first index, trying `index` and then up to three indexes below it
/// (never below zero), that is a char boundary; zero when none of them is.
pub open spec fn boundary_before(bytes: Seq<u8>, index: int) -> int {
    if is_char_boundary(bytes, index) {
        index
    } else if is_char_boundary(bytes, sat_sub(index, 1)) {
        sat_sub(index, 1)
    } else if is_char_boundary(bytes, sat_sub(index, 2)) {
        sat_sub(index, 2)
    } else if is_char_boundary(bytes, sat_sub(index, 3)) {
        sat_sub(index, 3)
    } else {
        0
    }
}

/// The first index, trying `index` and then up to three indexes above it,
/// that is a char boundary; `None` when none of them is.
pub open spec fn boundary_after(bytes: Seq<u8>, index: int) -> Option<int> {
    if is_char_boundary(bytes, index) {
        Some(index)
    } else if is_char_boundary(bytes, sat_add(index, 1)) {
        Some(sat_add(index, 1))
    } else if is_char_boundary(bytes, sat_add(index, 2)) {
        Some(sat_add(index, 2))
    } else if is_char_boundary(bytes, sat_add(index, 3)) {
        Some(sat_add(index, 3))
    } else {
        None
    }
}

/// Subtraction that stops at zero.
pub open spec fn sat_sub(a: int, b: int) -> int {
    if a >= b {
        a - b
    } else {
        0
    }
}

/// Addition that stops at `usize::MAX`.
pub open spec fn sat_add(a: int, b: int) -> int {
    if a + b <= usize::MAX {
        a + b
    } else {
        usize::MAX as int
    }
}

/// The index just after the last line break of `bytes`, or zero.
pub open spec fn after_last_line_break(bytes: Seq<u8>) -> int
    decreases bytes.len(),
{
    if bytes.len() == 0 {
        0
    } else if bytes.last() == 10u8 {
        bytes.len() as int
    } else {
        after_last_line_break(bytes.drop_last())
    }
}

/// The index of the first line break of `bytes`, or its length.
pub open spec fn first_line_break(bytes: Seq<u8>) -> int
    decreases bytes.len(),
{
    if bytes.len() == 0 {
        0
    } else if bytes[0] == 10u8 {
        0
    } else {
        1 + first_line_break(bytes.drop_first())
    }
}

proof fn lemma_boundary_of_utf8(s: &str)
    ensures
        valid_utf8(bytes_of(s)),
        is_char_boundary(bytes_of(s), 0),
        is_char_boundary(bytes_of(s), bytes_of(s).len() as int),
{
    encode_utf8_valid_utf8(s@);
    is_char_boundary_start_end_of_seq(bytes_of(s));
}

proof fn lemma_boundary_in_bounds(bytes: Seq<u8>, index: int)
    requires
        valid_utf8(bytes),
        is_char_boundary(bytes, index),
    ensures
        0 <= index <= bytes.len(),
    decreases bytes.len(),
{
    reveal_with_fuel(is_char_boundary, 2);
    if index != 0 && bytes.len() > 0 {
        assert(valid_utf8(pop_first_scalar(bytes))) by {
            reveal_with_fuel(valid_utf8, 2);
        }
        lemma_boundary_in_bounds(pop_first_scalar(bytes), index - length_of_first_scalar(bytes));
    }
}

/// A char boundary of a string stays one in the suffix that starts at another boundary.
proof fn lemma_boundary_of_suffix(bytes: Seq<u8>, a: int, b: int)
    requires
        valid_utf8(bytes),
        0 <= a <= b <= bytes.len(),
        is_char_boundary(bytes, a),
        is_char_boundary(bytes, b),
    ensures
        valid_utf8(bytes.subrange(a, bytes.len() as int)),
        is_char_boundary(bytes.subrange(a, bytes.len() as int), b - a),
{
    let tail = bytes.subrange(a, bytes.len() as int);
    valid_utf8_split(bytes, a);
    if b == bytes.len() {
        is_char_boundary_start_end_of_seq(tail);
    } else if b == a {
    } else {
        is_char_boundary_iff_not_is_continuation_byte(bytes, b);
        is_char_boundary_iff_not_is_continuation_byte(tail, b - a);
    }
}

/// The piece of `src` between two char boundaries.
fn substring<'a>(src: &'a str, a: usize, b: usize) -> (r: &'a str)
    requires
        a <= b,
        is_char_boundary(bytes_of(src), a as int),
        is_char_boundary(bytes_of(src), b as int),
    ensures
        bytes_of(r) == bytes_of(src).subrange(a as int, b as int),
{
    proof {
        lemma_boundary_of_utf8(src);
        lemma_boundary_in_bounds(bytes_of(src), b as int);
        lemma_boundary_of_suffix(bytes_of(src), a as int, b as int);
    }
    let (_, tail) = src.split_at(a);
    let (middle, _) = tail.split_at(b - a);
    proof {
        assert(bytes_of(middle) =~= bytes_of(src).subrange(a as int, b as int));
    }
    middle
}

/// Takes an index and tries to find the boundary for a char before the index,
/// looking at most four bytes back. Returns the text from that boundary on,
/// and the boundary.
fn split_string_before<'a>(src: &'a str, i: usize) -> (r: (&'a str, usize))
    ensures
        r.1 == boundary_before(bytes_of(src), i as int),
        is_char_boundary(bytes_of(src), r.1 as int),
        r.1 <= i,
        bytes_of(r.0) == bytes_of(src).subrange(r.1 as int, bytes_of(src).len() as int),
{
    proof {
        lemma_boundary_of_utf8(src);
    }
    let ghost bytes = bytes_of(src);
    let mut index = i;
    let mut step: usize = 0;
    while step < 4
        invariant
            0 <= step <= 4,
            bytes == bytes_of(src),
            valid_utf8(bytes),
            is_char_boundary(bytes, 0),
            is_char_boundary(bytes, bytes.len() as int),
            index as int == sat_sub(i as int, step as int),
            forall|k: int| 0 <= k < step ==> !is_char_boundary(bytes, #[trigger] sat_sub(i as int, k)),
        decreases 4 - step,
    {
        if src.is_char_boundary(index) {
            proof {
                lemma_boundary_in_bounds(bytes, index as int);
                if step > 0 {
                    assert(!is_char_boundary(bytes, sat_sub(i as int, 0)));
                }
                if step > 1 {
                    assert(!is_char_boundary(bytes, sat_sub(i as int, 1)));
                }
                if step > 2 {
                    assert(!is_char_boundary(bytes, sat_sub(i as int, 2)));
                }
            }
            let (_, x) = src.split_at(index);
            return (x, index);
        }
        index = index.saturating_sub(1);
        step = step + 1;
    }
    proof {
        assert(!is_char_boundary(bytes, sat_sub(i as int, 0)));
        assert(!is_char_boundary(bytes, sat_sub(i as int, 1)));
        assert(!is_char_boundary(bytes, sat_sub(i as int, 2)));
        assert(!is_char_boundary(bytes, sat_sub(i as int, 3)));
        assert(bytes.subrange(0, bytes.len() as int) =~= bytes);
    }
    (src, 0)
}

/// Takes an index and tries to find the boundary for a char after the index,
/// looking at most four bytes ahead. Returns the text from that boundary on
/// and the boundary; when there is none, the whole text and its length.
fn split_string_after<'a>(src: &'a str, i: usize) -> (r: (&'a str, usize))
    ensures
        boundary_after(bytes_of(src), i as int) matches Some(b) ==> r.1 == b
            && bytes_of(r.0) == bytes_of(src).subrange(b, bytes_of(src).len() as int),
        boundary_after(bytes_of(src), i as int) is None ==> r.1 == bytes_of(src).len() && r.0
            == src,
        is_char_boundary(bytes_of(src), r.1 as int),
        r.1 >= i || r.1 == bytes_of(src).len(),
{
    proof {
        lemma_boundary_of_utf8(src);
    }
    let ghost bytes = bytes_of(src);
    let mut index = i;
    let mut step: usize = 0;
    while step < 4
        invariant
            0 <= step <= 4,
            bytes == bytes_of(src),
            valid_utf8(bytes),
            is_char_boundary(bytes, 0),
            is_char_boundary(bytes, bytes.len() as int),
            index as int == sat_add(i as int, step as int),
            forall|k: int| 0 <= k < step ==> !is_char_boundary(bytes, #[trigger] sat_add(i as int, k)),
        decreases 4 - step,
    {
        if src.is_char_boundary(index) {
            proof {
                lemma_boundary_in_bounds(bytes, index as int);
                if step > 0 {
                    assert(!is_char_boundary(bytes, sat_add(i as int, 0)));
                }
                if step > 1 {
                    assert(!is_char_boundary(bytes, sat_add(i as int, 1)));
                }
                if step > 2 {
                    assert(!is_char_boundary(bytes, sat_add(i as int, 2)));
                }
            }
            let (_, x) = src.split_at(index);
            return (x, index);
        }
        index = index.saturating_add(1);
        step = step + 1;
    }
    proof {
        assert(!is_char_boundary(bytes, sat_add(i as int, 0)));
        assert(!is_char_boundary(bytes, sat_add(i as int, 1)));
        assert(!is_char_boundary(bytes, sat_add(i as int, 2)));
        assert(!is_char_boundary(bytes, sat_add(i as int, 3)));
    }
    let n = byte_len(src);
    (src, n)
}


/// The index after a one byte char that starts at a char boundary is a char boundary too.
proof fn lemma_boundary_after_ascii(bytes: Seq<u8>, k: int)
    requires
        valid_utf8(bytes),
        0 <= k < bytes.len(),
        is_char_boundary(bytes, k),
        bytes[k] < 0x80,
    ensures
        is_char_boundary(bytes, k + 1),
    decreases bytes.len(),
{
    reveal_with_fuel(is_char_boundary, 2);
    reveal_with_fuel(valid_utf8, 2);
    if k == 0 {
        assert(length_of_first_scalar(bytes) == 1);
    } else {
        let n = length_of_first_scalar(bytes);
        lemma_boundary_in_bounds(pop_first_scalar(bytes), k - n);
        if k - n < pop_first_scalar(bytes).len() {
            assert(pop_first_scalar(bytes)[k - n] == bytes[k]);
            lemma_boundary_after_ascii(pop_first_scalar(bytes), k - n);
        }
    }
}

/// A line break is a one byte char, so it always starts at a char boundary.
proof fn lemma_line_break_is_boundary(bytes: Seq<u8>, k: int)
    requires
        valid_utf8(bytes),
        0 <= k < bytes.len(),
        bytes[k] == 10u8,
    ensures
        is_char_boundary(bytes, k),
        is_char_boundary(bytes, k + 1),
{
    is_char_boundary_iff_not_is_continuation_byte(bytes, k);
    lemma_boundary_after_ascii(bytes, k);
}

proof fn lemma_after_last_line_break(bytes: Seq<u8>)
    ensures
        0 <= after_last_line_break(bytes) <= bytes.len(),
        after_last_line_break(bytes) > 0 ==> bytes[after_last_line_break(bytes) - 1] == 10u8,
        forall|j: int| after_last_line_break(bytes) <= j < bytes.len() ==> bytes[j] != 10u8,
    decreases bytes.len(),
{
    if bytes.len() > 0 && bytes.last() != 10u8 {
        lemma_after_last_line_break(bytes.drop_last());
        assert forall|j: int| after_last_line_break(bytes) <= j < bytes.len() implies bytes[j]
            != 10u8 by {
            if j < bytes.len() - 1 {
                assert(bytes[j] == bytes.drop_last()[j]);
            }
        }
    }
}

proof fn lemma_first_line_break(bytes: Seq<u8>)
    ensures
        0 <= first_line_break(bytes) <= bytes.len(),
        first_line_break(bytes) < bytes.len() ==> bytes[first_line_break(bytes)] == 10u8,
        forall|j: int| 0 <= j < first_line_break(bytes) ==> bytes[j] != 10u8,
    decreases bytes.len(),
{
    if bytes.len() > 0 && bytes[0] != 10u8 {
        lemma_first_line_break(bytes.drop_first());
        assert forall|j: int| 0 <= j < first_line_break(bytes) implies bytes[j] != 10u8 by {
            if j > 0 {
                assert(bytes[j] == bytes.drop_first()[j - 1]);
            }
        }
    }
}

/// The text after the last line break of `s` (all of `s` when it has none).
fn text_after_last_line_break<'a>(s: &'a str) -> (r: &'a str)
    ensures
        bytes_of(r) == bytes_of(s).subrange(
            after_last_line_break(bytes_of(s)),
            bytes_of(s).len() as int,
        ),
{
    proof {
        lemma_boundary_of_utf8(s);
        lemma_after_last_line_break(bytes_of(s));
    }
    let bytes = s.as_bytes();
    let n = bytes.len();
    let mut k = n;
    assert(bytes@.subrange(0, k as int) =~= bytes@);
    while k > 0 && bytes[k - 1] != 10u8
        invariant
            0 <= k <= n,
            n == bytes@.len(),
            bytes@ == bytes_of(s),
            after_last_line_break(bytes@.subrange(0, k as int)) == after_last_line_break(bytes@),
        decreases k,
    {
        assert(bytes@.subrange(0, k as int).drop_last() =~= bytes@.subrange(0, k - 1));
        k = k - 1;
    }
    proof {
        if k > 0 {
            assert(bytes@.subrange(0, k as int).last() == 10u8);
            lemma_line_break_is_boundary(bytes@, k - 1);
        } else {
            reveal_with_fuel(after_last_line_break, 1);
        }
    }
    substring(s, k, n)
}

/// The text before the first line break of `s` (all of `s` when it has none).
fn text_before_first_line_break<'a>(s: &'a str) -> (r: &'a str)
    ensures
        bytes_of(r) == bytes_of(s).subrange(0, first_line_break(bytes_of(s))),
{
    proof {
        lemma_boundary_of_utf8(s);
        lemma_first_line_break(bytes_of(s));
    }
    let bytes = s.as_bytes();
    let n = bytes.len();
    let mut k: usize = 0;
    while k < n && bytes[k] != 10u8
        invariant
            0 <= k <= n,
            n == bytes@.len(),
            bytes@ == bytes_of(s),
            forall|j: int| 0 <= j < k ==> bytes@[j] != 10u8,
        decreases n - k,
    {
        k = k + 1;
    }
    proof {
        lemma_first_line_break(bytes@);
        if k < n {
            lemma_line_break_is_boundary(bytes@, k as int);
        }
        let f = first_line_break(bytes@);
        if f < k {
            assert(bytes@[f] == 10u8);
        }
        if k < f {
            assert(bytes@[k as int] != 10u8);
        }
    }
    substring(s, 0, k)
}

/// Half of the width of the text to show around a place.
pub open spec fn surrounding_half_width(max_len: Option<usize>) -> int {
    match max_len {
        Some(x) => if x < 2 {
            1
        } else {
            (x / 2) as int
        },
        None => 10,
    }
}

/// The end index that [`split_string_after`] finds.
pub open spec fn end_boundary(bytes: Seq<u8>, index: int) -> int {
    match boundary_after(bytes, index) {
        Some(b) => b,
        None => bytes.len() as int,
    }
}

/// The part of `bytes` from `start` to `end`, after its last line break.
pub open spec fn tail_line(bytes: Seq<u8>, start: int, end: int) -> Seq<u8> {
    let pre = bytes.subrange(start, end);
    pre.subrange(after_last_line_break(pre), pre.len() as int)
}

/// The part of `bytes` from `start` to `end`, before its first line break.
pub open spec fn head_line(bytes: Seq<u8>, start: int, end: int) -> Seq<u8> {
    let pre = bytes.subrange(start, end);
    pre.subrange(0, first_line_break(pre))
}

/// The text around a position at `idx` of `bytes`, as
/// [`Position::get_text_at`] gives it: before the index up to the last line
/// break, then after it up to the first line break, about `max_len` bytes in
/// all.
pub open spec fn position_text_at(bytes: Seq<u8>, idx: int, max_len: Option<usize>) -> (Seq<u8>, Seq<u8>) {
    let half = surrounding_half_width(max_len);
    (
        tail_line(bytes, boundary_before(bytes, sat_sub(idx, half)), idx),
        head_line(bytes, idx, end_boundary(bytes, sat_add(idx, half))),
    )
}

/// The text of a span from `start` to `end` of `bytes` and around it, as
/// [`Span::get_text_at`] gives it.
pub open spec fn span_text_at(bytes: Seq<u8>, start: int, end: int, max_len: Option<usize>) -> (
    Seq<u8>,
    Seq<u8>,
    Seq<u8>,
) {
    let content = bytes.subrange(start, end);
    match max_len {
        Some(m) if m / 2 > 0 => (
            tail_line(bytes, boundary_before(bytes, sat_sub(start, (m / 2) as int)), start),
            content,
            head_line(bytes, end, end_boundary(bytes, sat_add(end, (m / 2) as int))),
        ),
        _ => (Seq::empty(), content, Seq::empty()),
    }
}

impl Position {
    /// Looks up the [`Position::source_index`] in the text and returns a
    /// little before and after as much as it can without line breaks.
    /// The first element is before the index (exclusive), the second
    /// one after it (inclusive).
    pub fn get_text_at<'source>(&self, src: &'source str, max_len: Option<usize>) -> (r: (
        &'source str,
        &'source str,
    ))
        requires
            is_char_boundary(bytes_of(src), self.source_index as int),
        ensures
            ({
                let bytes = bytes_of(src);
                let idx = self.source_index as int;
                let half = surrounding_half_width(max_len);
                &&& bytes_of(r.0) == tail_line(
                    bytes,
                    boundary_before(bytes, sat_sub(idx, half)),
                    idx,
                )
                &&& bytes_of(r.1) == head_line(bytes, idx, end_boundary(bytes, sat_add(idx, half)))
            }),
            (bytes_of(r.0), bytes_of(r.1)) == position_text_at(
                bytes_of(src),
                self.source_index as int,
                max_len,
            ),
    {
        proof {
            lemma_boundary_of_utf8(src);
            lemma_boundary_in_bounds(bytes_of(src), self.source_index as int);
        }
        let width = match max_len {
            Some(x) => if x < 2 {
                2
            } else {
                x
            },
            None => 20,
        };
        let size_range: usize = width / 2;
        let (_, start_index) = split_string_before(src, self.source_index.saturating_sub(size_range));
        let (_, end_index) = split_string_after(src, self.source_index.saturating_add(size_range));
        let before_pre = substring(src, start_index, self.source_index);
        let after_pre = substring(src, self.source_index, end_index);
        (text_after_last_line_break(before_pre), text_before_first_line_break(after_pre))
    }
}


impl Span {
    /// Returns the span content including line breaks plus some surrounding text.
    /// Always returns all the span content.
    /// The `max_len` is the maximal length of the surrounding text, which is
    /// cut to avoid line breaks. This looks at char boundaries, not graphemes.
    pub fn get_text_at<'source>(&self, src: &'source str, max_len: Option<usize>) -> (r: (
        &'source str,
        &'source str,
        &'source str,
    ))
        requires
            self.start.source_index <= self.end.source_index,
            is_char_boundary(bytes_of(src), self.start.source_index as int),
            is_char_boundary(bytes_of(src), self.end.source_index as int),
        ensures
            ({
                let bytes = bytes_of(src);
                let start = self.start.source_index as int;
                let end = self.end.source_index as int;
                &&& bytes_of(r.1) == bytes.subrange(start, end)
                &&& match max_len {
                    Some(m) if m / 2 > 0 => {
                        &&& bytes_of(r.0) == tail_line(
                            bytes,
                            boundary_before(bytes, sat_sub(start, (m / 2) as int)),
                            start,
                        )
                        &&& bytes_of(r.2) == head_line(
                            bytes,
                            end,
                            end_boundary(bytes, sat_add(end, (m / 2) as int)),
                        )
                    },
                    _ => bytes_of(r.0).len() == 0 && bytes_of(r.2).len() == 0,
                }
            }),
            (bytes_of(r.0), bytes_of(r.1), bytes_of(r.2)) == span_text_at(
                bytes_of(src),
                self.start.source_index as int,
                self.end.source_index as int,
                max_len,
            ),
    {
        proof {
            lemma_boundary_of_utf8(src);
            lemma_boundary_in_bounds(bytes_of(src), self.start.source_index as int);
            lemma_boundary_in_bounds(bytes_of(src), self.end.source_index as int);
        }
        let content = substring(src, self.start.source_index, self.end.source_index);
        match max_len {
            Some(max_len) => {
                let size_range = max_len / 2;
                if size_range == 0 {
                    let empty = substring(src, 0, 0);
                    (empty, content, empty)
                } else {
                    let (_, start_index) = split_string_before(
                        src,
                        self.start.source_index.saturating_sub(size_range),
                    );
                    let (_, end_index) = split_string_after(
                        src,
                        self.end.source_index.saturating_add(size_range),
                    );
                    let before_pre = substring(src, start_index, self.start.source_index);
                    let after_pre = substring(src, self.end.source_index, end_index);
                    (
                        text_after_last_line_break(before_pre),
                        content,
                        text_before_first_line_break(after_pre),
                    )
                }
            },
            None => {
                let empty = substring(src, 0, 0);
                (empty, content, empty)
            },
        }
    }
}

} // verus!
