//! What a rule reports.

use crate::comment::Span;
use vstd::prelude::*;

verus! {

/// One finding: which rule made it, what it says, and where in the source.
#[derive(Clone, Debug, PartialEq, Eq)]
pub struct Diagnostic {
    pub span: Span,
    pub code: String,
    pub message: String,
}

/// What a [`Diagnostic`] is to the contracts.
pub struct DiagnosticView {
    pub span: Span,
    pub code: Seq<char>,
    pub message: Seq<char>,
}

impl View for Diagnostic {
    type V = DiagnosticView;

    open spec fn view(&self) -> DiagnosticView {
        DiagnosticView { span: self.span, code: self.code@, message: self.message@ }
    }
}

impl DeepView for Diagnostic {
    type V = DiagnosticView;

    open spec fn deep_view(&self) -> DiagnosticView {
        self@
    }
}

} // verus!
