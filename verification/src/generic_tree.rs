//! A tree with any number of children at each node, used to compare the
//! shapes that the compiler builds.
use vstd::prelude::*;
use vstd::std_specs::cmp::PartialEqSpec;
use vstd::string::*;
use crate::text::same_text;

verus! {

/// A tree: a value and its children, from left to right.
#[derive(Debug, PartialEq, Eq, PartialOrd, Ord, Hash)]
pub enum Tree<T> {
    Node { value: T, children: Vec<Tree<T>> },
}

/// Where two trees first differ.
pub enum TreeCompareError<'items, T> {
    /// Two branches at the same place have different values.
    DifferentsBranches { left: &'items Tree<T>, right: &'items Tree<T> },
    /// The left tree lacks this branch of the right one.
    MissingLeftBranch(&'items Tree<T>),
    /// The right tree lacks this branch of the left one.
    MissingRightBranch(&'items Tree<T>),
}

/// Where two trees first differ, as values.
pub enum Difference<T> {
    Values(Tree<T>, Tree<T>),
    MissingLeft(Tree<T>),
    MissingRight(Tree<T>),
}

/// The value at the root of a tree.
pub open spec fn root<T>(t: Tree<T>) -> T {
    match t {
        Tree::Node { value, .. } => value,
    }
}

/// The children of the root of a tree.
pub open spec fn branches<T>(t: Tree<T>) -> Seq<Tree<T>> {
    match t {
        Tree::Node { children, .. } => children@,
    }
}

/// A node with its children.
pub fn node<T>(value: T, children: Vec<Tree<T>>) -> (r: Tree<T>)
    ensures
        r == (Tree::Node { value, children }),
{
    Tree::Node { value, children }
}

/// A node without children.
pub fn leaf<T>(value: T) -> (r: Tree<T>)
    ensures
        root(r) == value,
        branches(r).len() == 0,
{
    Tree::Node { value, children: Vec::new() }
}

/// Equality of values as `==` specifies it.
pub open spec fn eq_relation<T: PartialEq>() -> spec_fn(T, T) -> bool {
    |x: T, y: T| x.eq_spec(&y)
}

/// Equality of texts: the same chars.
pub open spec fn text_relation() -> spec_fn(String, String) -> bool {
    |x: String, y: String| x@ == y@
}

/// Where two trees first differ when values are compared with `same`,
/// visiting them root first and then their children from left to right:
/// the values, then the numbers of children, then each pair of children in
/// turn.
pub open spec fn first_difference_by<T>(a: Tree<T>, b: Tree<T>, same: spec_fn(T, T) -> bool) -> Option<
    Difference<T>,
>
    decreases a, 0nat,
{
    if !same(root(a), root(b)) {
        Some(Difference::Values(a, b))
    } else if branches(a).len() < branches(b).len() {
        Some(Difference::MissingLeft(branches(b)[branches(a).len() as int]))
    } else if branches(b).len() < branches(a).len() {
        Some(Difference::MissingRight(branches(a)[branches(b).len() as int]))
    } else {
        match a {
            Tree::Node { children, .. } => first_difference_from_by(children@, branches(b), 0, same),
        }
    }
}

/// Where two lists of trees of the same length first differ, from the `k`th
/// pair on.
pub open spec fn first_difference_from_by<T>(
    ls: Seq<Tree<T>>,
    rs: Seq<Tree<T>>,
    k: int,
    same: spec_fn(T, T) -> bool,
) -> Option<Difference<T>>
    decreases ls, ls.len() - k,
{
    if 0 <= k < ls.len() {
        match first_difference_by(ls[k], rs[k], same) {
            Some(d) => Some(d),
            None => first_difference_from_by(ls, rs, k + 1, same),
        }
    } else {
        None
    }
}

/// Where two trees first differ, their values compared with `==`.
pub open spec fn first_difference<T: PartialEq>(a: Tree<T>, b: Tree<T>) -> Option<Difference<T>> {
    first_difference_by(a, b, eq_relation::<T>())
}

/// Where two trees of texts first differ, their texts compared char by char.
pub open spec fn first_text_difference(a: Tree<String>, b: Tree<String>) -> Option<Difference<String>> {
    first_difference_by(a, b, text_relation())
}

/// A tree does not differ from itself, when every value is the same as
/// itself.
pub proof fn lemma_compare_reflexive<T>(t: Tree<T>, same: spec_fn(T, T) -> bool)
    requires
        forall|x: T| #[trigger] same(x, x),
    ensures
        first_difference_by(t, t, same) is None,
    decreases t, 0nat,
{
    match t {
        Tree::Node { children, .. } => {
            assert(decreases_to!(t => children));
            assert(decreases_to!(children => children@));
            lemma_children_reflexive(children@, 0, same);
        },
    }
}

/// A list of trees does not differ from itself.
proof fn lemma_children_reflexive<T>(ls: Seq<Tree<T>>, k: int, same: spec_fn(T, T) -> bool)
    requires
        forall|x: T| #[trigger] same(x, x),
    ensures
        first_difference_from_by(ls, ls, k, same) is None,
    decreases ls, ls.len() - k,
{
    if 0 <= k < ls.len() {
        lemma_compare_reflexive(ls[k], same);
        lemma_children_reflexive(ls, k + 1, same);
    }
}

/// Two trees differ in one order exactly when they differ in the other,
/// when being the same is symmetric.
pub proof fn lemma_compare_symmetric<T>(a: Tree<T>, b: Tree<T>, same: spec_fn(T, T) -> bool)
    requires
        forall|x: T, y: T| #[trigger] same(x, y) == same(y, x),
    ensures
        first_difference_by(a, b, same) is None <==> first_difference_by(b, a, same) is None,
    decreases a, 0nat,
{
    if same(root(a), root(b)) && branches(a).len() == branches(b).len() {
        match a {
            Tree::Node { children, .. } => {
                assert(decreases_to!(a => children));
                assert(decreases_to!(children => children@));
                lemma_children_symmetric(children@, branches(b), 0, same);
            },
        }
    }
}

/// Two lists of trees of the same length differ in one order exactly when
/// they differ in the other.
proof fn lemma_children_symmetric<T>(ls: Seq<Tree<T>>, rs: Seq<Tree<T>>, k: int, same: spec_fn(T, T) -> bool)
    requires
        forall|x: T, y: T| #[trigger] same(x, y) == same(y, x),
        ls.len() == rs.len(),
    ensures
        first_difference_from_by(ls, rs, k, same) is None <==> first_difference_from_by(rs, ls, k, same) is None,
    decreases ls, ls.len() - k,
{
    if 0 <= k < ls.len() {
        lemma_compare_symmetric(ls[k], rs[k], same);
        lemma_children_symmetric(ls, rs, k + 1, same);
    }
}

/// Trees of texts: a tree does not differ from itself, and two trees differ
/// in one order exactly when they differ in the other.
pub proof fn lemma_text_compare_laws(a: Tree<String>, b: Tree<String>)
    ensures
        first_text_difference(a, a) is None,
        first_text_difference(a, b) is None <==> first_text_difference(b, a) is None,
{
    lemma_compare_reflexive(a, text_relation());
    lemma_compare_symmetric(a, b, text_relation());
}

/// The error stands for the difference.
pub open spec fn error_is<'items, T>(e: TreeCompareError<'items, T>, d: Difference<T>) -> bool {
    match (e, d) {
        (TreeCompareError::DifferentsBranches { left, right }, Difference::Values(a, b)) => *left
            == a && *right == b,
        (TreeCompareError::MissingLeftBranch(t), Difference::MissingLeft(a)) => *t == a,
        (TreeCompareError::MissingRightBranch(t), Difference::MissingRight(a)) => *t == a,
        _ => false,
    }
}

/// Pairs the children of two nodes, the first with the first and so on, or
/// gives the first branch that one of them lacks.
fn zip_tree_arrays<'items, T>(left: &'items Vec<Tree<T>>, right: &'items Vec<Tree<T>>) -> (r: Result<
    Vec<(&'items Tree<T>, &'items Tree<T>)>,
    TreeCompareError<'items, T>,
>)
    ensures
        left@.len() < right@.len() ==> (r matches Err(TreeCompareError::MissingLeftBranch(t)) && *t
            == right@[left@.len() as int]),
        right@.len() < left@.len() ==> (r matches Err(TreeCompareError::MissingRightBranch(t)) && *t
            == left@[right@.len() as int]),
        left@.len() == right@.len() ==> (r matches Ok(pairs) && pairs@.len() == left@.len() && forall|
            k: int,
        | 0 <= k < left@.len() ==> *(#[trigger] pairs@[k]).0 == left@[k] && *pairs@[k].1 == right@[k]),
{
    if left.len() < right.len() {
        return Err(TreeCompareError::MissingLeftBranch(&right[left.len()]));
    }
    if right.len() < left.len() {
        return Err(TreeCompareError::MissingRightBranch(&left[right.len()]));
    }
    let mut pairs: Vec<(&'items Tree<T>, &'items Tree<T>)> = Vec::new();
    let mut k: usize = 0;
    while k < left.len()
        invariant
            left@.len() == right@.len(),
            k <= left@.len(),
            pairs@.len() == k,
            forall|j: int| 0 <= j < k ==> *(#[trigger] pairs@[j]).0 == left@[j] && *pairs@[j].1 == right@[j],
        decreases left@.len() - k,
    {
        pairs.push((&left[k], &right[k]));
        k = k + 1;
    }
    Ok(pairs)
}

impl<T> Tree<T> {
    /// The value at the root.
    pub fn value(&self) -> (r: &T)
        ensures
            *r == root(*self),
    {
        match self {
            Tree::Node { value, .. } => value,
        }
    }

    /// The children of the root, from left to right.
    pub fn children(&self) -> (r: &Vec<Tree<T>>)
        ensures
            r@ == branches(*self),
    {
        match self {
            Tree::Node { children, .. } => children,
        }
    }

    /// Compares two trees: `Ok` when they are equal, else where they first
    /// differ, visiting them root first and then their children from left to
    /// right (see [`first_difference`]). Any `T: Eq` is accepted; the result
    /// is stated for the types whose `==` has a specification in Verus.
    pub fn compare<'items>(&'items self, rhs: &'items Self) -> (r: Result<(), TreeCompareError<'items, T>>)
        where
            T: Eq,
        ensures
            T::obeys_eq_spec() ==> (first_difference(*self, *rhs) is None ==> r is Ok),
            T::obeys_eq_spec() ==> (first_difference(*self, *rhs) matches Some(d) ==> (r matches Err(
                e,
            ) && error_is(e, d))),
        decreases *self,
    {
        if self.value() != rhs.value() {
            return Err(TreeCompareError::DifferentsBranches { left: self, right: rhs });
        }
        let pairs = match zip_tree_arrays(self.children(), rhs.children()) {
            Ok(pairs) => pairs,
            Err(e) => {
                return Err(e);
            },
        };
        let ghost ls = branches(*self);
        let ghost rs = branches(*rhs);
        let mut k: usize = 0;
        while k < pairs.len()
            invariant
                T::obeys_eq_spec() ==> root(*self).eq_spec(&root(*rhs)),
                ls == branches(*self),
                rs == branches(*rhs),
                ls.len() == rs.len(),
                pairs@.len() == ls.len(),
                forall|j: int| 0 <= j < ls.len() ==> *(#[trigger] pairs@[j]).0 == ls[j] && *pairs@[j].1 == rs[j],
                k <= ls.len(),
                T::obeys_eq_spec() ==> first_difference(*self, *rhs) == first_difference_from_by(
                    ls,
                    rs,
                    k as int,
                    eq_relation::<T>(),
                ),
            decreases ls.len() - k,
        {
            let (l, r) = pairs[k];
            proof {
                assert(*l == ls[k as int]);
                let ghost me = *self;
                match me {
                    Tree::Node { children, .. } => {
                        assert(decreases_to!(me => children));
                        assert(decreases_to!(children => children@));
                        assert(decreases_to!(children@ => children@[k as int]));
                    },
                }
            }
            match l.compare(r) {
                Ok(()) => {},
                Err(e) => {
                    return Err(e);
                },
            }
            k = k + 1;
        }
        Ok(())
    }
}

/// The text of a tree whose values are texts, as an indented s-expression:
/// `(value`, then each child on a line of its own, indented two spaces more
/// than `indent`, then, when there are children, a line break and `indent`
/// before the closing `)`.
pub open spec fn sexpr(t: Tree<String>, indent: Seq<char>) -> Seq<char>
    decreases t, 0nat,
{
    match t {
        Tree::Node { value, children } => seq!['('] + value@ + sexpr_children(
            children@,
            indent + seq![' ', ' '],
            0,
        ) + (if children@.len() > 0 {
            seq!['\n'] + indent
        } else {
            Seq::empty()
        }) + seq![')'],
    }
}

/// The texts of the trees of `cs` from the `k`th on, each on a line of its
/// own after `indent`.
pub open spec fn sexpr_children(cs: Seq<Tree<String>>, indent: Seq<char>, k: int) -> Seq<char>
    decreases cs, cs.len() - k,
{
    if 0 <= k < cs.len() {
        seq!['\n'] + indent + sexpr(cs[k], indent) + sexpr_children(cs, indent, k + 1)
    } else {
        Seq::empty()
    }
}

impl Tree<String> {
    /// Compares two trees of texts, as [`Tree::compare`] does, the texts
    /// compared char by char: `Ok` when they are equal, else where they
    /// first differ (see [`first_text_difference`]).
    pub fn compare_texts<'items>(&'items self, rhs: &'items Self) -> (r: Result<(), TreeCompareError<'items, String>>)
        ensures
            first_text_difference(*self, *rhs) is None ==> r is Ok,
            first_text_difference(*self, *rhs) matches Some(d) ==> (r matches Err(e) && error_is(e, d)),
        decreases *self,
    {
        if !same_text(self.value().as_str(), rhs.value().as_str()) {
            return Err(TreeCompareError::DifferentsBranches { left: self, right: rhs });
        }
        let pairs = match zip_tree_arrays(self.children(), rhs.children()) {
            Ok(pairs) => pairs,
            Err(e) => {
                return Err(e);
            },
        };
        let ghost ls = branches(*self);
        let ghost rs = branches(*rhs);
        let mut k: usize = 0;
        while k < pairs.len()
            invariant
                root(*self)@ == root(*rhs)@,
                ls == branches(*self),
                rs == branches(*rhs),
                ls.len() == rs.len(),
                pairs@.len() == ls.len(),
                forall|j: int| 0 <= j < ls.len() ==> *(#[trigger] pairs@[j]).0 == ls[j] && *pairs@[j].1 == rs[j],
                k <= ls.len(),
                first_text_difference(*self, *rhs) == first_difference_from_by(ls, rs, k as int, text_relation()),
            decreases ls.len() - k,
        {
            let (l, r) = pairs[k];
            proof {
                assert(*l == ls[k as int]);
                let ghost me = *self;
                match me {
                    Tree::Node { children, .. } => {
                        assert(decreases_to!(me => children));
                        assert(decreases_to!(children => children@));
                        assert(decreases_to!(children@ => children@[k as int]));
                    },
                }
            }
            match l.compare_texts(r) {
                Ok(()) => {},
                Err(e) => {
                    return Err(e);
                },
            }
            k = k + 1;
        }
        Ok(())
    }

    /// The text of the tree at the given indentation (see [`sexpr`]).
    fn write_indented(&self, indent: &str) -> (r: String)
        ensures
            r@ == sexpr(*self, indent@),
        decreases *self,
    {
        proof {
            reveal_strlit("(");
            reveal_strlit(")");
            reveal_strlit("\n");
            reveal_strlit("  ");
        }
        let mut out = String::from_str("(");
        out.append(self.value().as_str());
        let mut inner = String::from_str(indent);
        inner.append("  ");
        let children = self.children();
        let ghost cs = branches(*self);
        let ghost head = out@;
        let mut k: usize = 0;
        while k < children.len()
            invariant
                cs == branches(*self),
                children@ == cs,
                inner@ == indent@ + seq![' ', ' '],
                k <= cs.len(),
                sexpr_children(cs, inner@, 0) == out@.skip(head.len() as int) + sexpr_children(cs, inner@, k as int),
                out@.take(head.len() as int) == head,
                out@.len() >= head.len(),
            decreases cs.len() - k,
        {
            proof {
                let ghost me = *self;
                match me {
                    Tree::Node { children, .. } => {
                        assert(decreases_to!(me => children));
                        assert(decreases_to!(children => children@));
                        assert(decreases_to!(children@ => children@[k as int]));
                    },
                }
            }
            let child = children[k].write_indented(inner.as_str());
            let ghost before = out@;
            out.append("\n");
            out.append(inner.as_str());
            out.append(child.as_str());
            proof {
                reveal_strlit("\n");
                assert(out@ =~= before + seq!['\n'] + inner@ + child@);
                assert(out@.skip(head.len() as int) =~= before.skip(head.len() as int) + (seq!['\n'] + inner@
                    + sexpr(cs[k as int], inner@)));
                assert(out@.take(head.len() as int) =~= head);
            }
            k = k + 1;
        }
        let ghost body = out@;
        if children.len() > 0 {
            out.append("\n");
            out.append(indent);
        }
        out.append(")");
        proof {
            assert(body =~= head + body.skip(head.len() as int));
            assert(head =~= seq!['('] + root(*self)@);
        }
        out
    }

    /// The text of the tree as an indented s-expression (see [`sexpr`]).
    pub fn to_string_with(&self) -> (r: String)
        ensures
            r@ == sexpr(*self, Seq::empty()),
    {
        proof {
            reveal_strlit("");
        }
        self.write_indented("")
    }
}

/// The message of a difference between two trees of texts.
pub open spec fn compare_error_text<'items>(e: TreeCompareError<'items, String>) -> Seq<char> {
    match e {
        TreeCompareError::DifferentsBranches { left, right } => "The three are different!:\n left:\n"@
            + sexpr(*left, Seq::empty()) + "\nright:\n"@ + sexpr(*right, Seq::empty()),
        TreeCompareError::MissingLeftBranch(t) => "The three are different!:\n left:empty_tree \nright:"@
            + sexpr(*t, Seq::empty()),
        TreeCompareError::MissingRightBranch(t) => "The three are different!:\n left:"@ + sexpr(
            *t,
            Seq::empty(),
        ) + "\nright:empty_tree"@,
    }
}

impl<'items> TreeCompareError<'items, String> {
    /// The message of the difference, with the branches written as
    /// s-expressions.
    pub fn as_string_with(&self) -> (r: String)
        ensures
            r@ == compare_error_text(*self),
    {
        match self {
            TreeCompareError::DifferentsBranches { left, right } => {
                let mut out = String::from_str("The three are different!:\n left:\n");
                out.append(left.to_string_with().as_str());
                out.append("\nright:\n");
                out.append(right.to_string_with().as_str());
                out
            },
            TreeCompareError::MissingLeftBranch(t) => {
                let mut out = String::from_str("The three are different!:\n left:empty_tree \nright:");
                out.append(t.to_string_with().as_str());
                out
            },
            TreeCompareError::MissingRightBranch(t) => {
                let mut out = String::from_str("The three are different!:\n left:");
                out.append(t.to_string_with().as_str());
                out.append("\nright:empty_tree");
                out
            },
        }
    }
}

/// The message of a difference between two trees of texts.
pub open spec fn difference_text(d: Difference<String>) -> Seq<char> {
    match d {
        Difference::Values(a, b) => "The three are different!:\n left:\n"@ + sexpr(a, Seq::empty())
            + "\nright:\n"@ + sexpr(b, Seq::empty()),
        Difference::MissingLeft(t) => "The three are different!:\n left:empty_tree \nright:"@ + sexpr(
            t,
            Seq::empty(),
        ),
        Difference::MissingRight(t) => "The three are different!:\n left:"@ + sexpr(t, Seq::empty())
            + "\nright:empty_tree"@,
    }
}

/// The message with which an assertion that two trees of texts are equal
/// fails (see [`difference_text`]), or `None` when they are equal.
pub fn tree_difference_message(left: &Tree<String>, right: &Tree<String>) -> (r: Option<String>)
    ensures
        first_text_difference(*left, *right) is None ==> r is None,
        first_text_difference(*left, *right) matches Some(d) ==> (r matches Some(m) && m@
            == difference_text(d)),
{
    match left.compare_texts(right) {
        Ok(()) => None,
        Err(e) => Some(e.as_string_with()),
    }
}

} // verus!
