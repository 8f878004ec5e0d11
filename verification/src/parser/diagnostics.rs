//! The parse-time diagnostic model: the (so far single) parse error kind and
//! an ordered sink accumulating the diagnostics of one parsing pass.

use vstd::prelude::*;

verus! {

/// Diagnostics that can happen within the parser: a single placeholder kind
/// for an unexpected token where an expression was required.
#[derive(Debug, Clone, Copy, PartialEq, Eq, Structural)]
pub enum ParseDiagnostic {
    O,
}

/// An ordered sequence of the diagnostics of one parsing pass; semantically a
/// "one-of(success, one-or-more-errors)" result container, produced fresh per
/// parsing call and never reused across calls.
#[derive(Debug)]
pub struct DiagnosticSink {
    diagnostics: Vec<ParseDiagnostic>,
}

impl View for DiagnosticSink {
    type V = Seq<ParseDiagnostic>;

    closed spec fn view(&self) -> Seq<ParseDiagnostic> {
        self.diagnostics@
    }
}

impl DiagnosticSink {
    /// A sink holding no diagnostics.
    pub fn new() -> (s: Self)
        ensures
            s@ == Seq::<ParseDiagnostic>::empty(),
    {
        DiagnosticSink { diagnostics: Vec::new() }
    }

    /// Append one diagnostic at the end of the sink.
    pub fn push_diagnostic(&mut self, diagnostic: ParseDiagnostic)
        ensures
            final(self)@ == old(self)@.push(diagnostic),
    {
        self.diagnostics.push(diagnostic);
    }

    /// The recorded diagnostics, in the order they were pushed.
    pub fn diagnostics(&self) -> (r: &Vec<ParseDiagnostic>)
        ensures
            r@ == self@,
    {
        &self.diagnostics
    }

    /// Whether any diagnostic has been recorded.
    pub fn has_diagnostics(&self) -> (r: bool)
        ensures
            r == (self@.len() != 0),
    {
        self.diagnostics.len() != 0
    }
}

} // verus!
