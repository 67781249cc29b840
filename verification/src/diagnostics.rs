//! Diagnostics and the shared reporter that collects them.

use vstd::prelude::*;
use crate::text::TextSpan;

verus! {

/// Which stage reported a diagnostic.
#[derive(Clone, Copy, Debug, PartialEq, Eq, Structural)]
pub enum DiagnosticKind {
    LexerError,
    ParserError,
    BinderError,
}

/// The mathematical model of a diagnostic: a span, a message, and the
/// stage that reported it.
pub ghost struct DiagnosticModel {
    pub span: TextSpan,
    pub message: Seq<char>,
    pub kind: DiagnosticKind,
}

/// One reported problem: a span into the source, a human-readable
/// message, and the stage that found it. Immutable once created.
#[derive(Clone, Debug)]
pub struct Diagnostic {
    span: TextSpan,
    message: String,
    kind: DiagnosticKind,
}

impl View for Diagnostic {
    type V = DiagnosticModel;

    closed spec fn view(&self) -> DiagnosticModel {
        DiagnosticModel { span: self.span, message: self.message@, kind: self.kind }
    }
}

impl Diagnostic {
    pub fn new(span: TextSpan, message: String, kind: DiagnosticKind) -> (r: Diagnostic)
        ensures
            r@ == (DiagnosticModel { span, message: message@, kind }),
    {
        Diagnostic { span, message, kind }
    }

    pub fn span(&self) -> (r: TextSpan)
        ensures
            r == self@.span,
    {
        self.span
    }

    pub fn message(&self) -> (r: &str)
        ensures
            r@ == self@.message,
    {
        self.message.as_str()
    }

    pub fn kind(&self) -> (r: &DiagnosticKind)
        ensures
            *r == self@.kind,
    {
        &self.kind
    }
}

/// The shared diagnostic-collection capability. One instance is passed by
/// mutable reference through lexing, parsing and binding of a single
/// compilation, so diagnostics from every stage accumulate in order.
#[derive(Debug)]
pub struct ErrorReporter {
    diagnostics: Vec<Diagnostic>,
}

impl View for ErrorReporter {
    type V = Seq<DiagnosticModel>;

    closed spec fn view(&self) -> Seq<DiagnosticModel> {
        self.diagnostics@.map_values(|d: Diagnostic| d@)
    }
}

impl ErrorReporter {
    pub fn new() -> (r: ErrorReporter)
        ensures
            r@ == Seq::<DiagnosticModel>::empty(),
    {
        let reporter = ErrorReporter { diagnostics: Vec::new() };
        proof {
            assert(reporter@ =~= Seq::<DiagnosticModel>::empty());
        }
        reporter
    }

    /// Record one diagnostic at the end of the collection.
    pub fn report(&mut self, diagnostic: Diagnostic)
        ensures
            final(self)@ == old(self)@.push(diagnostic@),
    {
        let ghost prev = self.diagnostics@;
        self.diagnostics.push(diagnostic);
        proof {
            assert(self@ =~= prev.map_values(|d: Diagnostic| d@).push(self.diagnostics@.last()@));
        }
    }

    /// Whether any diagnostic has been reported.
    pub fn had_error(&self) -> (r: bool)
        ensures
            r == (self@.len() > 0),
    {
        self.diagnostics.len() > 0
    }

    /// The diagnostics reported so far, in reporting order.
    pub fn diagnostics(&self) -> (r: &Vec<Diagnostic>)
        ensures
            r@.map_values(|d: Diagnostic| d@) == self@,
            r@.len() == self@.len(),
            forall|i: int| 0 <= i < r@.len() ==> r@[i]@ == self@[i],
    {
        &self.diagnostics
    }
}

} // verus!
