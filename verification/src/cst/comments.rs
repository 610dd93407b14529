//! Comments of the source, attached to the tokens around them.
use vstd::prelude::*;
use crate::span::{span_union, Span};
use crate::store::Store;
use crate::text::{byte_len, split_by, split_str, string_views};

use crate::equivalence::Equivalence;
use crate::equivalence::seq_equivalent;
verus! {

/// A single line of a comment, without line breaks.
/// The text lives in the [`Store`]; this is its index there together with
/// its length in bytes, so that the length is known without the store.
#[derive(Debug, Clone, PartialEq, Eq, Structural, Copy)]
pub struct CommentLineContent {
    index: usize,
    len: usize,
}

/// The pieces of a text between its line breaks.
pub open spec fn lines_of(s: Seq<char>) -> Seq<Seq<char>> {
    split_by(s, seq!['\n'])
}

/// The length in bytes of a text.
pub open spec fn text_byte_len(s: Seq<char>) -> nat {
    vstd::utf8::encode_utf8(s).len()
}

impl CommentLineContent {
    /// Stores a single line as a comment line in the store.
    /// A text with a line break is refused.
    /// To store an arbitrary text use [`CommentLineContent::decompose_register`].
    pub fn make_register(value: &str, store: &mut Store) -> (r: Option<Self>)
        ensures
            value@.contains('\n') ==> r is None && final(store).comments@ == old(store).comments@,
            !value@.contains('\n') ==> (r matches Some(c) && c.get_index_spec()
                == old(store).comments@.len() && c.get_len_spec() == text_byte_len(value@))
                && final(store).comments@ == old(store).comments@.push(value@),
            final(store).regular@ == old(store).regular@,
    {
        match store.comments.add_str(value) {
            Some(x) => Some(CommentLineContent { index: x, len: byte_len(value) }),
            None => None,
        }
    }

    /// Stores an arbitrary text by breaking it at its line breaks,
    /// and returns a reference to every line, in order.
    pub fn decompose_register(value: &str, store: &mut Store) -> (r: Vec<Self>)
        ensures
            final(store).comments@ == old(store).comments@ + lines_of(value@),
            r@.len() == lines_of(value@).len(),
            forall|k: int|
                0 <= k < r@.len() ==> (#[trigger] r@[k]).get_index_spec() == old(
                    store,
                ).comments@.len() + k && r@[k].get_len_spec() == text_byte_len(lines_of(value@)[k]),
            final(store).regular@ == old(store).regular@,
    {
        let sep = vec!['\n'];
        let lines = split_str(value, &sep);
        proof {
            assert(sep@ =~= seq!['\n']);
            crate::text::lemma_split_by_char(value@, '\n');
        }
        let ghost views = string_views(lines@);
        let mut r: Vec<Self> = Vec::new();
        let mut k: usize = 0;
        while k < lines.len()
            invariant
                views == string_views(lines@),
                views == lines_of(value@),
                forall|j: int| 0 <= j < views.len() ==> !(#[trigger] views[j]).contains('\n'),
                0 <= k <= lines@.len(),
                r@.len() == k,
                store.comments@ == old(store).comments@ + views.take(k as int),
                store.regular@ == old(store).regular@,
                forall|j: int|
                    0 <= j < k ==> (#[trigger] r@[j]).get_index_spec() == old(store).comments@.len()
                        + j && r@[j].get_len_spec() == text_byte_len(views[j]),
            decreases lines@.len() - k,
        {
            let line = lines[k].as_str();
            assert(line@ == views[k as int]);
            let added = store.comments.add_str(line);
            match added {
                Some(index) => {
                    let len = byte_len(line);
                    r.push(CommentLineContent { index, len });
                },
                None => {},
            }
            proof {
                assert(views.take(k + 1) =~= views.take(k as int).push(views[k as int]));
            }
            k = k + 1;
        }
        proof {
            assert(views.take(k as int) =~= views);
        }
        r
    }

    /// The index of the line in the store.
    pub closed spec fn get_index_spec(&self) -> int {
        self.index as int
    }

    /// The length of the line in bytes.
    pub closed spec fn get_len_spec(&self) -> int {
        self.len as int
    }

    /// Returns the length of the stored line, in bytes.
    pub fn get_len(&self) -> (r: usize)
        ensures
            r == self.get_len_spec(),
    {
        self.len
    }

    /// Returns the index of the line in the [`Store`].
    pub fn get_index(&self) -> (r: usize)
        ensures
            r == self.get_index_spec(),
    {
        self.index
    }
}

/// Distinguishes regular comments from documentation ones.
/// A documentation comment has a pipe `|` after the start of the comment
/// (and the spaces that follow it).
#[derive(Debug, Clone, Copy, PartialEq, Eq, Structural)]
pub enum CommentKind {
    Documentation,
    NonDocumentation,
}

/// The delimiters of a [`CommentBlock`]: a `{` followed by between one and
/// four `-`, then the comment, then as many `-` followed by a `}`.
///
/// This means that a comment like
///
/// ```txt
/// {-- some comment {--- inner comment ---} remain --}
/// ```
///
/// ends at `---}`, and `remain --}` is read as code. To nest comments, begin
/// with a single hyphen and add hyphens as needed.
#[derive(Debug, Clone, Copy, PartialEq, Eq, Structural)]
pub enum CommentBraceKind {
    /// `{- asdf -}`
    Brace0,
    /// `{-- asdf --}`
    Brace1,
    /// `{--- asdf ---}`
    Brace2,
    /// `{---- asdf ----}`
    Brace3,
}

/// The number of hyphens of a kind of block.
pub open spec fn brace_hyphens(brace: CommentBraceKind) -> nat {
    match brace {
        CommentBraceKind::Brace0 => 1,
        CommentBraceKind::Brace1 => 2,
        CommentBraceKind::Brace2 => 3,
        CommentBraceKind::Brace3 => 4,
    }
}

impl CommentBraceKind {
    /// The length in bytes of the start of a block of this kind, the whole `{--`.
    pub fn len(self) -> (r: usize)
        ensures
            r == brace_hyphens(self) + 1,
    {
        match self {
            Self::Brace0 => 2,
            Self::Brace1 => 3,
            Self::Brace2 => 4,
            Self::Brace3 => 5,
        }
    }
}

/// The start of a [`CommentLine`]: `--` or `//`.
#[derive(Debug, Copy, Clone, PartialEq, Eq, Structural)]
pub enum LineCommentStart {
    /// `--`
    DoubleHyphen,
    /// `//`
    DoubleSlash,
}

/// A comment of several lines:
/// its kind (documentation or not), its braces, the content of its lines
/// without the line breaks and the braces, and the region of the source
/// that it covers.
///
/// ```txt
/// {- some
///    regular
///    block comment
/// -}
///
/// {- | documentation
///   block
///   comment -}
/// ```
#[derive(Debug, Clone, PartialEq, Eq)]
pub struct CommentBlock {
    pub kind: CommentKind,
    pub brace: CommentBraceKind,
    pub content: Vec<CommentLineContent>,
    pub span: Span,
}

impl CommentBlock {
    /// A block whose lines are the lines of `full_text`, stored in the store.
    pub fn make(
        kind: CommentKind,
        brace: CommentBraceKind,
        full_text: &str,
        start_pos: crate::span::Position,
        end_pos: crate::span::Position,
        store: &mut Store,
    ) -> (r: Self)
        ensures
            r.kind == kind,
            r.brace == brace,
            r.span == (Span { start: start_pos, end: end_pos }),
            final(store).comments@ == old(store).comments@ + lines_of(full_text@),
            final(store).regular@ == old(store).regular@,
            r.content@.len() == lines_of(full_text@).len(),
            forall|k: int|
                0 <= k < r.content@.len() ==> (#[trigger] r.content@[k]).get_index_spec() == old(
                    store,
                ).comments@.len() + k && r.content@[k].get_len_spec() == text_byte_len(
                    lines_of(full_text@)[k],
                ),
    {
        let content = CommentLineContent::decompose_register(full_text, store);
        CommentBlock { kind, brace, content, span: Span { start: start_pos, end: end_pos } }
    }
}

/// A comment of a single line: its kind, its start, its content after the
/// start and without the line break, and the region it covers.
///
/// ```txt
/// -- some regular line comment.
/// // another line comment.
/// // | a documentation line comment.
/// ```
#[derive(Debug, Clone, PartialEq, Eq, Copy)]
pub struct CommentLine {
    pub kind: CommentKind,
    pub start: LineCommentStart,
    pub content: CommentLineContent,
    pub span: Span,
}

/// A comment: a line comment or a block comment.
#[derive(Debug, Clone, PartialEq, Eq)]
pub enum Comment {
    Line(CommentLine),
    Block(CommentBlock),
}

/// The region of a comment.
pub open spec fn comment_span(c: Comment) -> Span {
    match c {
        Comment::Line(l) => l.span,
        Comment::Block(b) => b.span,
    }
}

impl Comment {
    /// The region of the source that the comment covers.
    pub fn get_span(&self) -> (r: Span)
        ensures
            r == comment_span(*self),
    {
        match self {
            Self::Line(CommentLine { span, .. }) => *span,
            Self::Block(CommentBlock { span, .. }) => *span,
        }
    }
}

impl From<CommentLine> for Comment {
    fn from(value: CommentLine) -> (r: Comment) {
        Comment::Line(value)
    }
}

impl vstd::std_specs::convert::FromSpecImpl<CommentLine> for Comment {
    open spec fn obeys_from_spec() -> bool {
        true
    }

    open spec fn from_spec(value: CommentLine) -> Comment {
        Comment::Line(value)
    }
}

impl From<CommentBlock> for Comment {
    fn from(value: CommentBlock) -> (r: Comment) {
        Comment::Block(value)
    }
}

impl vstd::std_specs::convert::FromSpecImpl<CommentBlock> for Comment {
    open spec fn obeys_from_spec() -> bool {
        true
    }

    open spec fn from_spec(value: CommentBlock) -> Comment {
        Comment::Block(value)
    }
}

/// The comments of a token: any comments above it (`before`) and the
/// comments after it on the same line (`after`).
///
/// ```txt
/// -- some line comment
/// // other comment
/// -- | Documentation line comment
/// token  // More comments
/// ```
/// This token has three comments before it and one after it.
#[derive(Debug, Clone, PartialEq, Eq)]
pub struct CommentsInfo {
    pub before: Vec<Comment>,
    pub after: Vec<Comment>,
}

impl Default for CommentsInfo {
    fn default() -> (r: Self)
        ensures
            r.before@.len() == 0 && r.after@.len() == 0,
    {
        CommentsInfo { before: Vec::new(), after: Vec::new() }
    }
}

/// The comments that moving the `after` comments of `info` to `before` gives:
/// the after comments go, last first, behind the before comments.
pub open spec fn moved_before(info: CommentsInfo) -> Seq<Comment> {
    info.before@ + info.after@.reverse()
}

impl CommentsInfo {
    /// Comments information without any comment, to attach to a node before
    /// its comments are known.
    pub fn empty() -> (r: Self)
        ensures
            r.before@.len() == 0 && r.after@.len() == 0,
    {
        Self::default()
    }

    /// Adds the comments of `remain` after all the `before` comments.
    pub fn extend(&mut self, remain: Vec<Comment>)
        ensures
            final(self).before@ == old(self).before@ + remain@,
            final(self).after@ == old(self).after@,
    {
        let mut remain = remain;
        self.before.append(&mut remain);
    }

    /// Adds a single comment after the `before` comments.
    pub fn push(&mut self, new: Comment)
        ensures
            final(self).before@ == old(self).before@.push(new),
            final(self).after@ == old(self).after@,
    {
        self.before.push(new)
    }

    /// Moves the comments after a token to before it, the last one first.
    pub fn move_after_to_before(&mut self)
        ensures
            final(self).before@ == moved_before(*old(self)),
            final(self).after@.len() == 0,
    {
        let mut after = Vec::new();
        std::mem::swap(&mut after, &mut self.after);
        let ghost taken = after@;
        let ghost start = self.before@;
        while after.len() > 0
            invariant
                self.after@.len() == 0,
                taken.len() == after@.len() + (self.before@.len() - start.len()),
                self.before@ == start + taken.reverse().take(taken.len() - after@.len()),
                after@ == taken.take(after@.len() as int),
            decreases after@.len(),
        {
            let ghost n = after@.len();
            let c = after.pop().unwrap();
            proof {
                assert(c == taken[n - 1]);
                assert(taken.reverse().take(taken.len() - (n - 1)) =~= taken.reverse().take(
                    taken.len() - n,
                ).push(taken[n - 1]));
                assert(after@ =~= taken.take(n - 1));
            }
            self.before.push(c);
        }
        proof {
            assert(taken.reverse().take(taken.len() as int) =~= taken.reverse());
        }
    }

    /// Merges the comments of another token into these ones: the after
    /// comments of this token move before it, then come the before and the
    /// after comments of the other token.
    ///
    /// ```txt
    /// let a =
    ///   (
    ///     -- | The first before comment of `1`
    ///     1, -- | The after comment of `,`, that moves before `1`
    ///     2
    ///   )
    /// ```
    pub fn consume_info(&mut self, other: CommentsInfo)
        ensures
            final(self).before@ == moved_before(*old(self)) + other.before@ + other.after@,
            final(self).after@.len() == 0,
    {
        self.move_after_to_before();
        let CommentsInfo { before, after } = other;
        self.extend(before);
        self.extend(after);
        assert(self.before@ =~= moved_before(*old(self)) + other.before@ + other.after@);
    }

    /// Adds the comments of another token after the `before` comments: its
    /// before comments, then its after comments.
    pub fn absorb_info(&mut self, other: CommentsInfo)
        ensures
            final(self).before@ == old(self).before@ + other.before@ + other.after@,
            final(self).after@ == old(self).after@,
    {
        let CommentsInfo { before, after } = other;
        self.extend(before);
        self.extend(after);
        assert(self.before@ =~= old(self).before@ + other.before@ + other.after@);
    }

    /// Merges each run of neighbouring `before` comments of the same kind
    /// into a single block (see [`compact`]): the lines keep their order, and
    /// no two neighbouring blocks share a kind. The `after` comments stay.
    ///
    /// ```txt
    /// -- | 1
    /// // | 2
    /// -- 3
    /// {- 4 -}
    /// ```
    ///
    /// becomes
    ///
    /// ```txt
    /// {- | 1
    ///      2 -}
    /// {- 3
    ///    4 -}
    /// ```
    pub fn compact_comments(&mut self)
        ensures
            final(self).after@ == old(self).after@,
            final(self).before@.len() == compact(old(self).before@).len(),
            forall|i: int|
                0 <= i < final(self).before@.len() ==> (#[trigger] final(self).before@[i] matches Comment::Block(
                    b,
                ) && block_view(b) == compact(old(self).before@)[i]),
    {
        let mut rest: Vec<Comment> = Vec::new();
        std::mem::swap(&mut rest, &mut self.before);
        let ghost all = rest@;
        let total: usize = rest.len();
        let mut blocks: Vec<CommentBlock> = Vec::new();
        let mut k: usize = 0;
        while rest.len() > 0
            invariant
                all.len() == total,
                k <= all.len(),
                rest@ == all.subrange(k as int, all.len() as int),
                blocks@.len() == compact(all.take(k as int)).len(),
                forall|i: int|
                    0 <= i < blocks@.len() ==> block_view(#[trigger] blocks@[i]) == compact(
                        all.take(k as int),
                    )[i],
            decreases rest@.len(),
        {
            let c = rest.remove(0);
            proof {
                assert(c == all[k as int]);
                assert(all.take(k + 1).drop_last() =~= all.take(k as int));
                assert(all.take(k + 1).last() == c);
                assert(rest@ =~= all.subrange(k + 1, all.len() as int));
            }
            let ghost prev = compact(all.take(k as int));
            let (kind, brace, mut lines, span) = comment_parts(c);
            let n = blocks.len();
            if n > 0 && blocks[n - 1].kind == kind {
                let mut b = blocks.pop().unwrap();
                proof {
                    assert(block_view(b) == prev[n - 1]);
                }
                let ghost old_lines = b.content@;
                b.content.append(&mut lines);
                b.brace = wider(b.brace, brace);
                b.span = b.span + span;
                blocks.push(b);
                proof {
                    let next = compact(all.take(k + 1));
                    assert(next == prev.drop_last().push(block_view(b)));
                    assert forall|i: int| 0 <= i < blocks@.len() implies block_view(
                        #[trigger] blocks@[i],
                    ) == next[i] by {}
                }
            } else {
                let b = CommentBlock { kind, brace, content: lines, span };
                blocks.push(b);
                proof {
                    let next = compact(all.take(k + 1));
                    assert(next == prev.push(block_view(b)));
                }
            }
            k = k + 1;
        }
        proof {
            assert(all.take(k as int) =~= all);
        }
        let ghost made = blocks@;
        let mut out: Vec<Comment> = Vec::new();
        while blocks.len() > 0
            invariant
                out@.len() + blocks@.len() == made.len(),
                blocks@ == made.subrange(out@.len() as int, made.len() as int),
                forall|i: int|
                    0 <= i < out@.len() ==> (#[trigger] out@[i] matches Comment::Block(b) && b
                        == made[i]),
            decreases blocks@.len(),
        {
            let b = blocks.remove(0);
            proof {
                assert(b == made[out@.len() as int]);
                assert(blocks@ =~= made.subrange(out@.len() + 1int, made.len() as int));
            }
            out.push(Comment::Block(b));
        }
        self.before = out;
    }
}

/// The kind of a comment: documentation or not.
pub open spec fn comment_kind(c: Comment) -> CommentKind {
    match c {
        Comment::Line(l) => l.kind,
        Comment::Block(b) => b.kind,
    }
}

/// The lines of a comment, in order.
pub open spec fn comment_lines(c: Comment) -> Seq<CommentLineContent> {
    match c {
        Comment::Line(l) => seq![l.content],
        Comment::Block(b) => b.content@,
    }
}

/// The braces a comment is written with; a line comment counts as written
/// with the narrowest.
pub open spec fn comment_brace(c: Comment) -> CommentBraceKind {
    match c {
        Comment::Line(_) => CommentBraceKind::Brace0,
        Comment::Block(b) => b.brace,
    }
}

/// The wider of two braces: the one with more hyphens (the first on a tie).
pub open spec fn wider_brace(a: CommentBraceKind, b: CommentBraceKind) -> CommentBraceKind {
    if brace_hyphens(a) >= brace_hyphens(b) {
        a
    } else {
        b
    }
}

/// A block as a value: its kind, its braces, its lines and its region.
pub open spec fn block_view(b: CommentBlock) -> (CommentKind, CommentBraceKind, Seq<CommentLineContent>, Span) {
    (b.kind, b.brace, b.content@, b.span)
}

/// A comment seen as a block (see [`block_view`]).
pub open spec fn as_block(c: Comment) -> (CommentKind, CommentBraceKind, Seq<CommentLineContent>, Span) {
    (comment_kind(c), comment_brace(c), comment_lines(c), comment_span(c))
}

/// The blocks that merging each run of neighbouring comments of the same
/// kind gives: a run becomes one block of that kind, with the lines of its
/// comments in order, the widest of their braces, and the smallest region
/// that covers them all.
pub open spec fn compact(cs: Seq<Comment>) -> Seq<(CommentKind, CommentBraceKind, Seq<CommentLineContent>, Span)>
    decreases cs.len(),
{
    if cs.len() == 0 {
        Seq::empty()
    } else {
        let prev = compact(cs.drop_last());
        let c = cs.last();
        if prev.len() > 0 && prev.last().0 == comment_kind(c) {
            let b = prev.last();
            prev.drop_last().push(
                (b.0, wider_brace(b.1, comment_brace(c)), b.2 + comment_lines(c), span_union(b.3, comment_span(c))),
            )
        } else {
            prev.push(as_block(c))
        }
    }
}

/// All the lines of a list of comments, in order.
pub open spec fn comments_lines(cs: Seq<Comment>) -> Seq<CommentLineContent>
    decreases cs.len(),
{
    if cs.len() == 0 {
        Seq::empty()
    } else {
        comments_lines(cs.drop_last()) + comment_lines(cs.last())
    }
}

/// All the lines of a list of blocks, in order.
pub open spec fn blocks_lines(bs: Seq<(CommentKind, CommentBraceKind, Seq<CommentLineContent>, Span)>) -> Seq<
    CommentLineContent,
>
    decreases bs.len(),
{
    if bs.len() == 0 {
        Seq::empty()
    } else {
        blocks_lines(bs.drop_last()) + bs.last().2
    }
}

/// Compacting keeps every line in its order, and leaves no two neighbouring
/// blocks of the same kind; each block has the kind of a comment, and there
/// are no more blocks than comments.
pub proof fn lemma_compact_runs(cs: Seq<Comment>)
    ensures
        blocks_lines(compact(cs)) == comments_lines(cs),
        forall|i: int, j: int|
            0 <= i && j == i + 1 && j < compact(cs).len() ==> (#[trigger] compact(cs)[i]).0 != (
            #[trigger] compact(cs)[j]).0,
        compact(cs).len() <= cs.len(),
    decreases cs.len(),
{
    if cs.len() > 0 {
        let prev = compact(cs.drop_last());
        let c = cs.last();
        lemma_compact_runs(cs.drop_last());
        let next = compact(cs);
        if prev.len() > 0 && prev.last().0 == comment_kind(c) {
            let b = prev.last();
            let x = (b.0, wider_brace(b.1, comment_brace(c)), b.2 + comment_lines(c), span_union(b.3, comment_span(c)));
            assert(next == prev.drop_last().push(x));
            assert(next.drop_last() =~= prev.drop_last());
            assert(blocks_lines(next) == blocks_lines(prev.drop_last()) + x.2);
            assert(blocks_lines(prev) == blocks_lines(prev.drop_last()) + b.2);
            assert(blocks_lines(next) =~= blocks_lines(prev) + comment_lines(c));
            assert forall|i: int, j: int|
                0 <= i && j == i + 1 && j < next.len() implies (#[trigger] next[i]).0 != (
                #[trigger] next[j]).0 by {
                assert(prev[i] == next[i]);
                if j < next.len() - 1 {
                    assert(prev[j] == next[j]);
                } else {
                    assert(next[j].0 == prev[j].0);
                }
            }
        } else {
            assert(next == prev.push(as_block(c)));
            assert(next.drop_last() =~= prev);
            assert forall|i: int, j: int|
                0 <= i && j == i + 1 && j < next.len() implies (#[trigger] next[i]).0 != (
                #[trigger] next[j]).0 by {
                assert(prev[i] == next[i]);
                if j < next.len() - 1 {
                    assert(prev[j] == next[j]);
                }
            }
        }
    }
}

/// The kind, braces, lines and region of a comment.
fn comment_parts(c: Comment) -> (r: (CommentKind, CommentBraceKind, Vec<CommentLineContent>, Span))
    ensures
        (r.0, r.1, r.2@, r.3) == as_block(c),
{
    match c {
        Comment::Line(l) => {
            let v = vec![l.content];
            assert(v@ =~= seq![l.content]);
            (l.kind, CommentBraceKind::Brace0, v, l.span)
        },
        Comment::Block(b) => (b.kind, b.brace, b.content, b.span),
    }
}

/// The wider of two braces (see [`wider_brace`]).
fn wider(a: CommentBraceKind, b: CommentBraceKind) -> (r: CommentBraceKind)
    ensures
        r == wider_brace(a, b),
{
    if a.len() >= b.len() {
        a
    } else {
        b
    }
}


impl Equivalence for CommentLineContent {
    open spec fn equivalent_spec(&self, other: &Self) -> bool {
        *self == *other
    }

    fn equivalent(&self, other: &Self) -> (r: bool) {
        *self == *other
    }
}

impl Equivalence for CommentKind {
    open spec fn equivalent_spec(&self, other: &Self) -> bool {
        *self == *other
    }

    fn equivalent(&self, other: &Self) -> (r: bool) {
        *self == *other
    }
}

impl Equivalence for CommentBraceKind {
    open spec fn equivalent_spec(&self, other: &Self) -> bool {
        *self == *other
    }

    fn equivalent(&self, other: &Self) -> (r: bool) {
        *self == *other
    }
}

impl Equivalence for LineCommentStart {
    open spec fn equivalent_spec(&self, other: &Self) -> bool {
        *self == *other
    }

    fn equivalent(&self, other: &Self) -> (r: bool) {
        *self == *other
    }
}

/// Blocks are equivalent when their kinds, braces and lines are; their
/// regions do not count.
impl Equivalence for CommentBlock {
    open spec fn equivalent_spec(&self, other: &Self) -> bool {
        self.kind.equivalent_spec(&other.kind) && self.brace.equivalent_spec(&other.brace)
            && self.content.equivalent_spec(&other.content)
    }

    fn equivalent(&self, other: &Self) -> (r: bool) {
        self.kind.equivalent(&other.kind) && self.brace.equivalent(&other.brace) && self.content.equivalent(
            &other.content,
        )
    }
}

/// Line comments are equivalent when their kinds, starts and lines are;
/// their regions do not count.
impl Equivalence for CommentLine {
    open spec fn equivalent_spec(&self, other: &Self) -> bool {
        self.kind.equivalent_spec(&other.kind) && self.start.equivalent_spec(&other.start)
            && self.content.equivalent_spec(&other.content)
    }

    fn equivalent(&self, other: &Self) -> (r: bool) {
        self.kind.equivalent(&other.kind) && self.start.equivalent(&other.start) && self.content.equivalent(
            &other.content,
        )
    }
}

impl Equivalence for Comment {
    open spec fn equivalent_spec(&self, other: &Self) -> bool {
        match (*self, *other) {
            (Comment::Line(a), Comment::Line(b)) => a.equivalent_spec(&b),
            (Comment::Block(a), Comment::Block(b)) => a.equivalent_spec(&b),
            _ => false,
        }
    }

    fn equivalent(&self, other: &Self) -> (r: bool) {
        match (self, other) {
            (Comment::Line(a), Comment::Line(b)) => a.equivalent(b),
            (Comment::Block(a), Comment::Block(b)) => a.equivalent(b),
            _ => false,
        }
    }
}


/// Comments are equivalent exactly when they are of the same form with the
/// same kind, start or braces, and lines; where they stand does not count.
pub proof fn lemma_comment_equivalence(a: Comment, b: Comment)
    ensures
        a matches Comment::Line(x) ==> (b matches Comment::Line(y) ==> (a.equivalent_spec(&b) <==> (
        x.kind == y.kind && x.start == y.start && x.content == y.content))),
        a matches Comment::Block(x) ==> (b matches Comment::Block(y) ==> (a.equivalent_spec(&b) <==> (
        x.kind == y.kind && x.brace == y.brace && x.content@ == y.content@))),
        (a is Line) != (b is Line) ==> !a.equivalent_spec(&b),
{
    match (a, b) {
        (Comment::Block(x), Comment::Block(y)) => {
            if x.content@ == y.content@ {
                assert(seq_equivalent(x.content@, y.content@));
            }
            if seq_equivalent(x.content@, y.content@) {
                assert(x.content@ =~= y.content@);
            }
        },
        _ => {},
    }
}

} // verus!
