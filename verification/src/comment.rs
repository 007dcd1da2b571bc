//! The comments a parsed file hands to the rule, and where they sit in it.

use vstd::prelude::*;

verus! {

/// How a comment was written in the source.
#[derive(Clone, Copy, Debug, PartialEq, Eq, Structural)]
pub enum CommentKind {
    /// `// ...`, up to the end of the line.
    Line,
    /// `/* ... */`.
    Block,
}

/// A range of the source text, as the byte offsets of its two ends.
#[derive(Clone, Copy, Debug, PartialEq, Eq, Structural)]
pub struct Span {
    pub lo: u32,
    pub hi: u32,
}

/// One comment of the source.
#[derive(Clone, Debug, PartialEq, Eq)]
pub struct Comment {
    pub kind: CommentKind,
    /// The whole comment, markers included.
    pub span: Span,
    /// What stands between the markers.
    pub text: String,
}

/// What a [`Comment`] is to the contracts.
pub struct CommentView {
    pub kind: CommentKind,
    pub span: Span,
    pub text: Seq<char>,
}

impl View for Comment {
    type V = CommentView;

    open spec fn view(&self) -> CommentView {
        CommentView { kind: self.kind, span: self.span, text: self.text@ }
    }
}

impl DeepView for Comment {
    type V = CommentView;

    open spec fn deep_view(&self) -> CommentView {
        self@
    }
}

/// The comments attached to one node of the syntax tree, in source order.
#[derive(Clone, Debug, PartialEq, Eq)]
pub struct NodeComments {
    /// The node, named by the offset it starts at.
    pub node: u32,
    pub comments: Vec<Comment>,
}

/// What a [`NodeComments`] is to the contracts.
pub struct NodeCommentsView {
    pub node: u32,
    pub comments: Seq<CommentView>,
}

impl View for NodeComments {
    type V = NodeCommentsView;

    open spec fn view(&self) -> NodeCommentsView {
        NodeCommentsView { node: self.node, comments: self.comments.deep_view() }
    }
}

impl DeepView for NodeComments {
    type V = NodeCommentsView;

    open spec fn deep_view(&self) -> NodeCommentsView {
        self@
    }
}

/// All comments of one file: those that precede a node and those that follow
/// one, each half in the order in which the parser handed its nodes over.
#[derive(Clone, Debug, PartialEq, Eq)]
pub struct CommentTable {
    pub leading: Vec<NodeComments>,
    pub trailing: Vec<NodeComments>,
}

/// What a [`CommentTable`] is to the contracts.
pub struct CommentTableView {
    pub leading: Seq<NodeCommentsView>,
    pub trailing: Seq<NodeCommentsView>,
}

impl View for CommentTable {
    type V = CommentTableView;

    open spec fn view(&self) -> CommentTableView {
        CommentTableView {
            leading: self.leading.deep_view(),
            trailing: self.trailing.deep_view(),
        }
    }
}

/// The comments of one half of a table, node by node.
pub open spec fn comments_of(half: Seq<NodeCommentsView>) -> Seq<CommentView> {
    half.map_values(|entry: NodeCommentsView| entry.comments).flatten()
}

impl CommentTableView {
    /// Every comment of the table: the leading ones, then the trailing ones.
    pub open spec fn comments(self) -> Seq<CommentView> {
        comments_of(self.leading) + comments_of(self.trailing)
    }
}

} // verus!
