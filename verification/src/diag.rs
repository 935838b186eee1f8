//! Diagnostics the engine asks the host compiler to emit. Each diagnostic is a
//! severity level, the span it points at, and a structured kind carrying the
//! values the message is built from; rendering the message text is the host
//! side's business.

use vstd::prelude::*;
use crate::tokens::Span;

verus! {

/// Severity of a diagnostic.
#[derive(Clone, Copy, PartialEq, Eq, Structural, Debug)]
pub enum Level {
    Error,
    Warning,
    Note,
}

/// What a diagnostic reports, with the values its message carries.
pub enum DiagKind {
    /// An option entry's identifier is not a recognised option name.
    UnknownOption(String),
    /// The `version` option appears a second time; points at the later entry.
    VersionAlreadySet,
    /// Companion note to `VersionAlreadySet`; points at the earlier entry.
    FirstSetHere,
    /// An option entry does not start with an identifier.
    ExpectedOptionName,
    /// A `version` entry's identifier is not followed by `=`.
    ExpectedEq,
    /// A `version` entry's `=` is not followed by a string literal.
    ExpectedStringValue,
    /// Option entries are not separated by a comma.
    ExpectedComma,
    /// The payload is not a single string literal.
    ExpectedStringLiteral,
    /// The interpreter exited unsuccessfully, with its exit code if there was
    /// one.
    ExecutionFailed(Option<i32>),
    /// Companion note to `ExecutionFailed` when nothing arrived on stderr.
    NoStderrOutput,
    /// Note carrying the bytes the interpreter wrote to stderr, verbatim.
    StderrContent(Vec<u8>),
    /// The interpreter succeeded but wrote to stderr.
    RanWithStderr,
    /// The interpreter's stdout is not valid UTF-8.
    InvalidUtf8,
}

/// One diagnostic: severity, anchor span, and structured content.
pub struct Diag {
    pub level: Level,
    pub span: Span,
    pub kind: DiagKind,
}

/// Mathematical model of a diagnostic's kind.
pub enum DiagKindV {
    UnknownOption(Seq<char>),
    VersionAlreadySet,
    FirstSetHere,
    ExpectedOptionName,
    ExpectedEq,
    ExpectedStringValue,
    ExpectedComma,
    ExpectedStringLiteral,
    ExecutionFailed(Option<i32>),
    NoStderrOutput,
    StderrContent(Seq<u8>),
    RanWithStderr,
    InvalidUtf8,
}

/// Mathematical model of a diagnostic.
pub struct DiagV {
    pub level: Level,
    pub span: Span,
    pub kind: DiagKindV,
}

impl View for DiagKind {
    type V = DiagKindV;

    open spec fn view(&self) -> DiagKindV {
        match self {
            DiagKind::UnknownOption(s) => DiagKindV::UnknownOption(s@),
            DiagKind::VersionAlreadySet => DiagKindV::VersionAlreadySet,
            DiagKind::FirstSetHere => DiagKindV::FirstSetHere,
            DiagKind::ExpectedOptionName => DiagKindV::ExpectedOptionName,
            DiagKind::ExpectedEq => DiagKindV::ExpectedEq,
            DiagKind::ExpectedStringValue => DiagKindV::ExpectedStringValue,
            DiagKind::ExpectedComma => DiagKindV::ExpectedComma,
            DiagKind::ExpectedStringLiteral => DiagKindV::ExpectedStringLiteral,
            DiagKind::ExecutionFailed(c) => DiagKindV::ExecutionFailed(*c),
            DiagKind::NoStderrOutput => DiagKindV::NoStderrOutput,
            DiagKind::StderrContent(b) => DiagKindV::StderrContent(b@),
            DiagKind::RanWithStderr => DiagKindV::RanWithStderr,
            DiagKind::InvalidUtf8 => DiagKindV::InvalidUtf8,
        }
    }
}

impl View for Diag {
    type V = DiagV;

    open spec fn view(&self) -> DiagV {
        DiagV { level: self.level, span: self.span, kind: self.kind@ }
    }
}

/// The models of a sequence of diagnostics.
pub open spec fn diag_views(ds: Seq<Diag>) -> Seq<DiagV> {
    ds.map_values(|d: Diag| d@)
}

/// An error-level diagnostic model at `span`.
pub open spec fn error_at(span: Span, kind: DiagKindV) -> DiagV {
    DiagV { level: Level::Error, span, kind }
}

/// A note-level diagnostic model at `span`.
pub open spec fn note_at(span: Span, kind: DiagKindV) -> DiagV {
    DiagV { level: Level::Note, span, kind }
}

/// A warning-level diagnostic model at `span`.
pub open spec fn warning_at(span: Span, kind: DiagKindV) -> DiagV {
    DiagV { level: Level::Warning, span, kind }
}

/// Whether any diagnostic in `ds` is an error: an invocation's output is
/// spliced only when this is false.
pub open spec fn has_error(ds: Seq<DiagV>) -> bool {
    exists|i: int| 0 <= i < ds.len() && ds[i].level is Error
}

} // verus!
