//! Bans `TODO` line comments that carry no tag.

use crate::comment::{
    comments_of, Comment, CommentKind, CommentTable, CommentTableView, CommentView, NodeComments,
    NodeCommentsView, Span,
};
use crate::diagnostic::{Diagnostic, DiagnosticView};
use crate::tag::{
    has_tag, is_todo, search, starts_with_todo, tag_at, tag_text, todo_word, TAG_PATTERN,
};
use crate::text::{
    lemma_leading_white_space_is, lowercase_of, to_lowercase, trim_start, trimmed_start,
    white_space,
};
use vstd::prelude::*;

verus! {

/// The code of every diagnostic of this rule.
pub const CODE: &'static str = "banUntaggedTodo";

/// The message of every diagnostic of this rule.
pub const MESSAGE: &'static str = "TODO should be tagged with (@username) or (#issue)";

/// The text the patterns are matched against: `text` in lower case, without
/// the white space it begins with.
pub open spec fn normalized(text: Seq<char>) -> Seq<char> {
    trimmed_start(lowercase_of(text))
}

/// Whether a normalized text is a `TODO` without a tag.
pub open spec fn untagged_todo(normalized: Seq<char>) -> bool {
    starts_with_todo(normalized) && !has_tag(normalized)
}

/// Whether the rule objects to a comment: a line comment whose normalized
/// text is a `TODO` without a tag.
pub open spec fn violates(comment: CommentView) -> bool {
    comment.kind == CommentKind::Line && untagged_todo(normalized(comment.text))
}

/// The diagnostic for a comment at `span`.
pub open spec fn diagnostic_at(span: Span) -> DiagnosticView {
    DiagnosticView { span, code: CODE@, message: MESSAGE@ }
}

/// What the rule reports for one comment.
pub open spec fn evaluate(comment: CommentView) -> Option<DiagnosticView> {
    if violates(comment) {
        Some(diagnostic_at(comment.span))
    } else {
        None
    }
}

/// What the rule reports for a run of comments: the diagnostic of each
/// comment it objects to, in the order of the comments.
pub open spec fn reported(comments: Seq<CommentView>) -> Seq<DiagnosticView> {
    comments.filter(|c: CommentView| violates(c)).map_values(
        |c: CommentView| diagnostic_at(c.span),
    )
}

/// One more comment adds what the rule reports for it, and nothing else.
pub proof fn lemma_reported_push(comments: Seq<CommentView>, comment: CommentView)
    ensures
        reported(comments.push(comment)) == match evaluate(comment) {
            Some(diagnostic) => reported(comments).push(diagnostic),
            None => reported(comments),
        },
{
    let objects = |c: CommentView| violates(c);
    comments.lemma_filter_push(comment, objects);
    if violates(comment) {
        assert(reported(comments.push(comment)) =~= reported(comments).push(
            diagnostic_at(comment.span),
        ));
    }
}

/// What the rule reports for two runs of comments, one after the other, is
/// what it reports for the first and then what it reports for the second.
pub proof fn lemma_reported_add(first: Seq<CommentView>, second: Seq<CommentView>)
    ensures
        reported(first + second) == reported(first) + reported(second),
{
    let objects = |c: CommentView| violates(c);
    Seq::filter_distributes_over_add(first, second, objects);
    assert(reported(first + second) =~= reported(first) + reported(second));
}

/// The rule. It keeps nothing between calls.
pub struct BanUntaggedTodo;

impl BanUntaggedTodo {
    /// A fresh rule.
    pub fn new() -> (rule: Box<Self>)
        ensures
            *rule == BanUntaggedTodo,
    {
        Box::new(BanUntaggedTodo)
    }

    /// Checks the text of a line comment at `span`, already in lower case.
    pub fn lint_lowered(&self, span: Span, lowered: &str) -> (found: Option<Diagnostic>)
        ensures
            found.deep_view() == if untagged_todo(trimmed_start(lowered@)) {
                Some(diagnostic_at(span))
            } else {
                None
            },
    {
        let text = trim_start(lowered);
        if !is_todo(text) {
            return None;
        }
        if search(TAG_PATTERN, text) {
            return None;
        }
        Some(Diagnostic { span, code: CODE.to_owned(), message: MESSAGE.to_owned() })
    }

    /// Checks one comment.
    pub fn lint_comment(&self, comment: &Comment) -> (found: Option<Diagnostic>)
        ensures
            found.deep_view() == evaluate(comment@),
    {
        match comment.kind {
            CommentKind::Block => None,
            CommentKind::Line => {
                let lowered = to_lowercase(comment.text.as_str());
                self.lint_lowered(comment.span, lowered.as_str())
            },
        }
    }

    /// Checks the comments of one node and appends what it finds to `out`.
    fn lint_comments(&self, comments: &Vec<Comment>, out: &mut Vec<Diagnostic>)
        ensures
            final(out).deep_view() == old(out).deep_view() + reported(comments.deep_view()),
    {
        let ghost before = out.deep_view();
        let ghost all = comments.deep_view();
        let mut i: usize = 0;
        proof {
            reveal(Seq::filter);
            assert(reported(all.take(0)) =~= Seq::empty());
            assert(out.deep_view() =~= before + reported(all.take(0)));
        }
        while i < comments.len()
            invariant
                i <= comments.len(),
                all == comments.deep_view(),
                out.deep_view() == before + reported(all.take(i as int)),
            decreases comments.len() - i,
        {
            let ghost so_far = out.deep_view();
            proof {
                assert(all.take(i + 1) =~= all.take(i as int).push(comments[i as int]@));
                lemma_reported_push(all.take(i as int), comments[i as int]@);
            }
            match self.lint_comment(&comments[i]) {
                Some(diagnostic) => {
                    out.push(diagnostic);
                    assert(out.deep_view() =~= so_far.push(diagnostic@));
                    assert(out.deep_view() =~= before + reported(all.take(i + 1)));
                },
                None => {},
            }
            i = i + 1;
        }
        proof {
            assert(all.take(i as int) =~= all);
        }
    }

    /// Checks the comments of every node of one half of a table and appends
    /// what it finds to `out`.
    fn lint_half(&self, half: &Vec<NodeComments>, out: &mut Vec<Diagnostic>)
        ensures
            final(out).deep_view() == old(out).deep_view() + reported(
                comments_of(half.deep_view()),
            ),
    {
        let ghost before = out.deep_view();
        let ghost all = half.deep_view();
        let mut i: usize = 0;
        proof {
            reveal(Seq::filter);
            assert(comments_of(all.take(0)) =~= Seq::empty());
            assert(reported(comments_of(all.take(0))) =~= Seq::empty());
            assert(out.deep_view() =~= before + reported(comments_of(all.take(0))));
        }
        while i < half.len()
            invariant
                i <= half.len(),
                all == half.deep_view(),
                out.deep_view() == before + reported(comments_of(all.take(i as int))),
            decreases half.len() - i,
        {
            proof {
                let lists = all.take(i as int).map_values(
                    |entry: NodeCommentsView| entry.comments,
                );
                let next = half[i as int]@.comments;
                assert(all.take(i + 1).map_values(|entry: NodeCommentsView| entry.comments)
                    =~= lists.push(next));
                lists.lemma_flatten_push(next);
                lemma_reported_add(comments_of(all.take(i as int)), next);
            }
            self.lint_comments(&half[i].comments, out);
            i = i + 1;
        }
        proof {
            assert(all.take(i as int) =~= all);
        }
    }

    /// Checks every comment of a file: the leading comments node by node,
    /// then the trailing ones. Returns what it found, in that order.
    pub fn lint_module(&self, comments: &CommentTable) -> (found: Vec<Diagnostic>)
        ensures
            found.deep_view() == reported(comments@.comments()),
    {
        let mut found: Vec<Diagnostic> = Vec::new();
        self.lint_half(&comments.leading, &mut found);
        self.lint_half(&comments.trailing, &mut found);
        proof {
            lemma_reported_add(comments_of(comments@.leading), comments_of(comments@.trailing));
            assert(found.deep_view() =~= reported(comments@.comments()));
        }
        found
    }
}

/// A block comment is never reported, whatever its text.
pub proof fn lemma_block_comment_passes(comment: CommentView)
    requires
        comment.kind == CommentKind::Block,
    ensures
        evaluate(comment) is None,
{
}

/// A line comment whose normalized text does not begin with `todo` is not
/// reported.
pub proof fn lemma_other_comment_passes(comment: CommentView)
    requires
        comment.kind == CommentKind::Line,
        !starts_with_todo(normalized(comment.text)),
    ensures
        evaluate(comment) is None,
{
}

/// A line comment with a tag anywhere in its normalized text is not reported.
pub proof fn lemma_tagged_comment_passes(comment: CommentView)
    requires
        comment.kind == CommentKind::Line,
        has_tag(normalized(comment.text)),
    ensures
        evaluate(comment) is None,
{
}

/// A line comment that reads, in lower case, as any white space and then
/// `todo(#token)` or `todo(@token)`, with a token of one or more characters
/// that are no white space, is not reported.
pub proof fn lemma_tagged_todo_passes(
    comment: CommentView,
    space: Seq<char>,
    sign: char,
    token: Seq<char>,
)
    requires
        comment.kind == CommentKind::Line,
        forall|i: int| 0 <= i < space.len() ==> white_space(#[trigger] space[i]),
        sign == '#' || sign == '@',
        token.len() > 0,
        forall|i: int| 0 <= i < token.len() ==> !white_space(#[trigger] token[i]),
        lowercase_of(comment.text) == space + tag_text(sign, token),
    ensures
        evaluate(comment) is None,
{
    let tag = tag_text(sign, token);
    let lowered = space + tag;
    assert(!white_space('t'));
    assert(lowered[space.len() as int] == 't');
    lemma_leading_white_space_is(lowered, space.len() as int);
    assert(trimmed_start(lowered) =~= tag);
    assert(tag.subrange(0, 4) =~= todo_word());
    assert forall|k: int| 6 <= k < 6 + token.len() implies !white_space(#[trigger] tag[k]) by {
        assert(tag[k] == token[k - 6]);
    }
    assert(tag_at(tag, 0, 6 + token.len() as int));
}

/// A line comment whose normalized text begins with `todo` and holds no tag
/// is reported once, under the rule's code and message and at the comment's
/// own span.
pub proof fn lemma_untagged_todo_reported(comment: CommentView)
    requires
        comment.kind == CommentKind::Line,
        starts_with_todo(normalized(comment.text)),
        !has_tag(normalized(comment.text)),
    ensures
        evaluate(comment) == Some(
            DiagnosticView {
                span: comment.span,
                code: "banUntaggedTodo"@,
                message: "TODO should be tagged with (@username) or (#issue)"@,
            },
        ),
        reported(seq![comment]) == seq![
            DiagnosticView {
                span: comment.span,
                code: "banUntaggedTodo"@,
                message: "TODO should be tagged with (@username) or (#issue)"@,
            },
        ],
{
    assert(seq![comment] =~= Seq::<CommentView>::empty().push(comment));
    reveal(Seq::filter);
    assert(reported(Seq::<CommentView>::empty()) =~= Seq::empty());
    lemma_reported_push(Seq::<CommentView>::empty(), comment);
    assert(reported(seq![comment]) =~= seq![diagnostic_at(comment.span)]);
}

/// The rule reports at most one diagnostic for each comment.
pub proof fn lemma_reported_at_most_once(comments: Seq<CommentView>)
    ensures
        reported(comments).len() <= comments.len(),
{
    comments.lemma_filter_len(|c: CommentView| violates(c));
}

/// Two runs over the same comments report the same diagnostics in the same
/// order: what a run reports depends on the table alone.
pub proof fn lemma_rerun_reports_the_same(
    comments: CommentTableView,
    first: Seq<DiagnosticView>,
    second: Seq<DiagnosticView>,
)
    requires
        first == reported(comments.comments()),
        second == reported(comments.comments()),
    ensures
        first == second,
{
}

} // verus!
