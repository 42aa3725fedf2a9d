//! The model of what a translator produces: text appended to the output
//! buffer and diagnostics appended to the accumulator.
use crate::diag::{Diagnostic, DiagKind, Span};
use vstd::prelude::*;

verus! {

pub struct Emit {
    pub text: Seq<char>,
    pub diags: Seq<Diagnostic>,
}

/// Text alone.
pub open spec fn text(s: Seq<char>) -> Emit {
    Emit { text: s, diags: Seq::empty() }
}

/// One diagnostic, no text.
pub open spec fn error(sp: Span, k: DiagKind) -> Emit {
    Emit { text: Seq::empty(), diags: seq![Diagnostic { span: sp, kind: k }] }
}

pub open spec fn nothing() -> Emit {
    text(Seq::empty())
}

impl Emit {
    /// This output followed by `o`.
    pub open spec fn followed_by(self, o: Emit) -> Emit {
        Emit { text: self.text + o.text, diags: self.diags + o.diags }
    }

    /// This output followed by the text `s`.
    pub open spec fn add_text(self, s: Seq<char>) -> Emit {
        self.followed_by(text(s))
    }
}

} // verus!
