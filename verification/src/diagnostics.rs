//! Findings and the sink that collects them.
//!
//! One [`Context`] belongs to one analysis pass over one source unit. Checks
//! append findings through [`Context::add_diagnostic`]; the sink keeps them
//! in insertion order, which the traversal makes equal to source order. It
//! never filters or deduplicates: that belongs to an external reporting
//! layer, which reads the list once the pass is over.

use vstd::prelude::*;
use vstd::string::StringExecFns;

use crate::ast::Span;

verus! {

/// One finding: the rule's code, its fixed message, and where it applies.
#[derive(Debug)]
pub struct Diagnostic {
    pub span: Span,
    pub code: String,
    pub message: String,
}

/// The mathematical content of a [`Diagnostic`]: the same span, with the two
/// strings as character sequences.
pub struct DiagnosticView {
    pub span: Span,
    pub code: Seq<char>,
    pub message: Seq<char>,
}

impl View for Diagnostic {
    type V = DiagnosticView;

    open spec fn view(&self) -> DiagnosticView {
        DiagnosticView { span: self.span, code: self.code@, message: self.message@ }
    }
}

/// The append-only collector of findings for one analysis pass. Its view is
/// the sequence of findings recorded so far, oldest first.
pub struct Context {
    diags: Vec<Diagnostic>,
}

impl View for Context {
    type V = Seq<DiagnosticView>;

    closed spec fn view(&self) -> Seq<DiagnosticView> {
        self.diags@.map_values(|d: Diagnostic| d@)
    }
}

impl Context {
    /// A sink with no findings yet.
    pub fn new() -> (c: Context)
        ensures
            c@ == Seq::<DiagnosticView>::empty(),
    {
        let c = Context { diags: Vec::new() };
        proof {
            assert(c@ =~= Seq::<DiagnosticView>::empty());
        }
        c
    }

    /// Appends one finding; everything recorded before stays as it was.
    pub fn add_diagnostic(&mut self, span: Span, code: &str, message: &str)
        ensures
            final(self)@ == old(self)@.push(
                DiagnosticView { span, code: code@, message: message@ },
            ),
    {
        let d = Diagnostic {
            span,
            code: String::from_str(code),
            message: String::from_str(message),
        };
        self.diags.push(d);
        proof {
            assert(self@ =~= old(self)@.push(
                DiagnosticView { span, code: code@, message: message@ },
            ));
        }
    }

    /// The findings recorded so far, in insertion order.
    pub fn diagnostics(&self) -> (r: &Vec<Diagnostic>)
        ensures
            r@.len() == self@.len(),
            forall|i: int| 0 <= i < r@.len() ==> r@[i]@ == self@[i],
    {
        &self.diags
    }
}

} // verus!
