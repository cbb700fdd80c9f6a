//! Diagnostics: what a failed validation reports.

use crate::syntax::ByteRange;
use vstd::prelude::*;

verus! {

/// How grave a diagnostic is. Every rule of this library reports an error.
#[derive(Clone, Copy, Debug, PartialEq, Eq)]
pub enum Severity {
    Advice,
    Warning,
    Error,
}

/// A range of the source text with the words shown beside it.
#[derive(Clone, Debug, PartialEq, Eq)]
pub struct LabeledSpan {
    pub label: String,
    pub range: ByteRange,
}

/// What a `LabeledSpan` stands for.
pub struct LabeledSpanModel {
    pub label: Seq<char>,
    pub range: ByteRange,
}

impl View for LabeledSpan {
    type V = LabeledSpanModel;

    open spec fn view(&self) -> LabeledSpanModel {
        LabeledSpanModel { label: self.label@, range: self.range }
    }
}

impl DeepView for LabeledSpan {
    type V = LabeledSpanModel;

    open spec fn deep_view(&self) -> LabeledSpanModel {
        self@
    }
}

/// A validation failure: a message, a code for programs, a hint for
/// people, and the place in the text where one is known.
#[derive(Clone, Debug, PartialEq, Eq)]
pub struct Diagnostic {
    pub message: String,
    pub code: Option<String>,
    pub help: String,
    pub severity: Severity,
    pub label: Option<LabeledSpan>,
}

/// What a `Diagnostic` stands for.
pub struct DiagnosticModel {
    pub message: Seq<char>,
    pub code: Option<Seq<char>>,
    pub help: Seq<char>,
    pub severity: Severity,
    pub label: Option<LabeledSpanModel>,
}

impl View for Diagnostic {
    type V = DiagnosticModel;

    open spec fn view(&self) -> DiagnosticModel {
        DiagnosticModel {
            message: self.message@,
            code: self.code.deep_view(),
            help: self.help@,
            severity: self.severity,
            label: self.label.deep_view(),
        }
    }
}

impl DeepView for Diagnostic {
    type V = DiagnosticModel;

    open spec fn deep_view(&self) -> DiagnosticModel {
        self@
    }
}

/// The error diagnostic with the given parts. It has a label exactly where
/// a range is given.
pub open spec fn error_report(
    message: Seq<char>,
    code: Option<Seq<char>>,
    help: Seq<char>,
    range: Option<ByteRange>,
    label: Seq<char>,
) -> DiagnosticModel {
    DiagnosticModel {
        message,
        code,
        help,
        severity: Severity::Error,
        label: match range {
            Some(range) => Some(LabeledSpanModel { label, range }),
            None => None,
        },
    }
}

/// Builds the error diagnostic with the given parts.
pub fn validation_error(
    message: &str,
    code: Option<&str>,
    help: &str,
    range: Option<ByteRange>,
    label: &str,
) -> (diagnostic: Diagnostic)
    ensures
        diagnostic@ == error_report(
            message@,
            match code {
                Some(code) => Some(code@),
                None => None,
            },
            help@,
            range,
            label@,
        ),
{
    let code = match code {
        Some(code) => Some(code.to_owned()),
        None => None,
    };
    let label = match range {
        Some(range) => Some(LabeledSpan { label: label.to_owned(), range }),
        None => None,
    };
    Diagnostic {
        message: message.to_owned(),
        code,
        help: help.to_owned(),
        severity: Severity::Error,
        label,
    }
}

} // verus!
