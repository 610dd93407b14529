//! Comment lines that hold their own text rather than a place in a store,
//! with the layout settings and the kinds of enclosures and separators
//! that a syntax tree is written with.
use vstd::prelude::*;
use vstd::string::*;
use crate::cst::comments::lines_of;
use crate::text::{has_line_break, split_str, string_views};

verus! {

/// How a syntax tree is laid out, with the width of a line.
#[derive(Debug, Clone, Copy, PartialEq, Eq, Structural)]
pub struct PrettyCSTConfig {
    pub line_width: u16,
    pub indentation_deep: u16,
    pub leading_commas: bool,
    pub add_trailing_separator: bool,
    pub move_documentantion_before_object: bool,
    pub indent_comment_blocks: bool,
    pub separe_comments_by: u8,
    pub compact_comments: bool,
}

impl PrettyCSTConfig {
    /// The usual settings: lines of 80 columns, indentation by 2.
    pub fn new() -> (r: PrettyCSTConfig)
        ensures
            r == (PrettyCSTConfig {
                line_width: 80,
                indentation_deep: 2,
                leading_commas: true,
                add_trailing_separator: true,
                move_documentantion_before_object: true,
                indent_comment_blocks: true,
                separe_comments_by: 1,
                compact_comments: true,
            }),
    {
        PrettyCSTConfig {
            line_width: 80,
            indentation_deep: 2,
            leading_commas: true,
            add_trailing_separator: true,
            move_documentantion_before_object: true,
            indent_comment_blocks: true,
            separe_comments_by: 1,
            compact_comments: true,
        }
    }
}

/// A line of a comment, with its text.
#[derive(Debug, Clone, PartialEq, Eq)]
pub struct CommentLineContent {
    pub content: String,
}

impl CommentLineContent {
    /// A comment line with the text, which must hold no line break.
    pub fn make(value: &str) -> (r: Result<Self, String>)
        ensures
            value@.contains('\n') ==> (r matches Err(m) && m@
                == "CommentLines souldn't containt line breaks!"@),
            !value@.contains('\n') ==> (r matches Ok(c) && c.content@ == value@),
    {
        if has_line_break(value) {
            return Err(String::from_str("CommentLines souldn't containt line breaks!"));
        }
        Ok(CommentLineContent { content: String::from_str(value) })
    }

    /// The lines of a text, split at its line breaks, in order.
    pub fn decompose(value: &str) -> (r: Vec<Self>)
        ensures
            r@.len() == lines_of(value@).len(),
            forall|k: int| 0 <= k < r@.len() ==> (#[trigger] r@[k]).content@ == lines_of(value@)[k],
    {
        let sep = vec!['\n'];
        let pieces = split_str(value, &sep);
        proof {
            assert(sep@ =~= seq!['\n']);
        }
        let ghost views = string_views(pieces@);
        let mut r: Vec<Self> = Vec::new();
        let mut pieces = pieces;
        let mut rev: Vec<String> = Vec::new();
        while pieces.len() > 0
            invariant
                views == lines_of(value@),
                views.len() == pieces@.len() + rev@.len(),
                forall|j: int| 0 <= j < pieces@.len() ==> (#[trigger] pieces@[j])@ == views[j],
                forall|j: int| 0 <= j < rev@.len() ==> (#[trigger] rev@[j])@ == views[views.len() - 1 - j],
            decreases pieces@.len(),
        {
            let p = pieces.pop().unwrap();
            rev.push(p);
        }
        while rev.len() > 0
            invariant
                views == lines_of(value@),
                views.len() == r@.len() + rev@.len(),
                forall|j: int| 0 <= j < rev@.len() ==> (#[trigger] rev@[j])@ == views[views.len() - 1 - j],
                forall|j: int| 0 <= j < r@.len() ==> (#[trigger] r@[j]).content@ == views[j],
            decreases rev@.len(),
        {
            let p = rev.pop().unwrap();
            r.push(CommentLineContent { content: p });
        }
        r
    }
}

/// The brackets that enclose a part of a syntax tree.
#[derive(Debug, Clone, Copy, PartialEq, Eq, Structural)]
pub enum Enclosures {
    Parens,
    Brackets,
    Braces,
}

/// The separator between the items of a list.
#[derive(Debug, Clone, Copy, PartialEq, Eq, Structural)]
pub enum ItemSeparator {
    Comma,
    Pipe,
}

} // verus!
