//! The structured diagnostics a request surfaces to the host: which kinds
//! carry a source location, how an engine location (zero-based lines)
//! becomes a display location (one-based lines), and which failures are
//! raised as a syntax exception rather than a plain one.

use vstd::prelude::*;

verus! {

/// Where in the pipeline a failure arose.
#[derive(Clone, Copy, PartialEq, Eq, Debug)]
pub enum DiagnosticKind {
    Parse,
    Minify,
    Printer,
    SourceMap,
    Bundle,
    Pattern,
}

/// A place in a source file. The engine reports zero-based lines; display
/// locations are one-based.
pub struct SourceLocation {
    pub filename: String,
    pub line: u32,
    pub column: u32,
}

/// One failure, with its kind, its message, and its place when known.
pub struct Diagnostic {
    pub kind: DiagnosticKind,
    pub message: String,
    pub loc: Option<SourceLocation>,
}

/// A recovered parse problem surfaced alongside a successful result.
pub struct Warning {
    pub message: String,
    pub loc: Option<SourceLocation>,
}

/// The kinds whose failures carry source-location data and are raised as a
/// syntax exception: parse, minify, printer and bundle failures. Source-map
/// and pattern failures are plain.
pub open spec fn carries_syntax_location(k: DiagnosticKind) -> bool {
    k is Parse || k is Minify || k is Printer || k is Bundle
}

/// Whether this kind's failures are raised as a located syntax exception.
pub fn raised_as_syntax_exception(k: &DiagnosticKind) -> (b: bool)
    ensures
        b == carries_syntax_location(*k),
{
    match k {
        DiagnosticKind::Parse => true,
        DiagnosticKind::Minify => true,
        DiagnosticKind::Printer => true,
        DiagnosticKind::Bundle => true,
        DiagnosticKind::SourceMap => false,
        DiagnosticKind::Pattern => false,
    }
}

/// The display form of an engine location: the same file and column, with
/// the line made one-based.
pub fn display_location(loc: &SourceLocation) -> (d: SourceLocation)
    requires
        loc.line < u32::MAX,
    ensures
        d.filename == loc.filename,
        d.line == loc.line + 1,
        d.column == loc.column,
{
    SourceLocation { filename: loc.filename.clone(), line: loc.line + 1, column: loc.column }
}

/// The warning a recovered parse problem becomes: the message as given, and
/// the place moved to display form when known.
pub fn warning_of(message: String, loc: Option<SourceLocation>) -> (w: Warning)
    requires
        loc matches Some(l) ==> l.line < u32::MAX,
    ensures
        w.message == message,
        loc is None ==> w.loc is None,
        loc matches Some(l) ==> (w.loc matches Some(d) && d.filename == l.filename && d.line
            == l.line + 1 && d.column == l.column),
{
    match loc {
        Some(l) => Warning { message, loc: Some(display_location(&l)) },
        None => Warning { message, loc: None },
    }
}

/// For a failure that is raised with its surrounding source text, the file
/// whose text should be looked up: present exactly when the kind carries a
/// location and the place is known.
pub fn source_lookup_path(d: &Diagnostic) -> (r: Option<&String>)
    ensures
        r is Some <==> carries_syntax_location(d.kind) && d.loc is Some,
        r matches Some(p) ==> (d.loc matches Some(l) && p@ == l.filename@),
{
    if raised_as_syntax_exception(&d.kind) {
        match &d.loc {
            Some(l) => Some(&l.filename),
            None => None,
        }
    } else {
        None
    }
}

} // verus!
