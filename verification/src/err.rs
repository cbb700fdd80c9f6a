//! What parsing and validating a manifest can fail with.

use crate::ext::codec::Flaw;
use crate::ext::diagnostic::{Diagnostic, DiagnosticModel, LabeledSpan, LabeledSpanModel};
use crate::field::Field;
use crate::json::{JsonSyntaxError, JsonSyntaxErrorModel};
use crate::syntax::ByteRange;
use vstd::prelude::*;

verus! {

/// Why a value tree is no manifest.
#[derive(Clone, Copy, Debug, PartialEq, Eq)]
pub enum DecodeError {
    /// The document is no object.
    NotAnObject,
    /// The value of `field` has not the shape that the field asks for.
    Field { field: Field, flaw: Flaw },
}

/// Why a text is no manifest: it is no JSON, or a field has the wrong
/// shape.
#[derive(Clone, Debug, PartialEq, Eq)]
pub enum ParseFault {
    Syntax(JsonSyntaxError),
    Decode(DecodeError),
}

/// What a `ParseFault` stands for.
pub enum ParseFaultModel {
    Syntax(JsonSyntaxErrorModel),
    Decode(DecodeError),
}

impl View for ParseFault {
    type V = ParseFaultModel;

    open spec fn view(&self) -> ParseFaultModel {
        match self {
            ParseFault::Syntax(error) => ParseFaultModel::Syntax(error@),
            ParseFault::Decode(error) => ParseFaultModel::Decode(*error),
        }
    }
}

/// A text that could not be parsed, with what it takes to show where.
#[derive(Clone, Debug, PartialEq, Eq)]
pub struct JsonParseError {
    /// The text.
    pub src: String,
    /// The path of the file that the text was read from.
    pub name: Option<String>,
    /// The whole of the text.
    pub primary_span: Option<ByteRange>,
    /// The place of the fault, where one is known.
    pub other_spans: Vec<LabeledSpan>,
    pub advice: Option<String>,
    pub source: Option<ParseFault>,
}

/// What a `JsonParseError` stands for.
pub struct JsonParseErrorModel {
    pub src: Seq<char>,
    pub name: Option<Seq<char>>,
    pub primary_span: Option<ByteRange>,
    pub other_spans: Seq<LabeledSpanModel>,
    pub advice: Option<Seq<char>>,
    pub source: Option<ParseFaultModel>,
}

impl View for JsonParseError {
    type V = JsonParseErrorModel;

    open spec fn view(&self) -> JsonParseErrorModel {
        JsonParseErrorModel {
            src: self.src@,
            name: self.name.deep_view(),
            primary_span: self.primary_span,
            other_spans: self.other_spans.deep_view(),
            advice: self.advice.deep_view(),
            source: match self.source {
                Some(fault) => Some(fault@),
                None => None,
            },
        }
    }
}

/// The errors of this library.
#[derive(Clone, Debug, PartialEq, Eq)]
pub enum ErrorKind {
    /// The name of a command is asked for and the manifest has no name.
    NameRequired,
    /// The text of a file could not be parsed.
    JsonFileParseError(JsonParseError),
    /// A text could not be parsed.
    JsonStrParseError(JsonParseError),
}

/// What a `ErrorKind` stands for.
pub enum ErrorKindModel {
    NameRequired,
    JsonFileParseError(JsonParseErrorModel),
    JsonStrParseError(JsonParseErrorModel),
}

impl View for ErrorKind {
    type V = ErrorKindModel;

    open spec fn view(&self) -> ErrorKindModel {
        match self {
            ErrorKind::NameRequired => ErrorKindModel::NameRequired,
            ErrorKind::JsonFileParseError(error) => ErrorKindModel::JsonFileParseError(error@),
            ErrorKind::JsonStrParseError(error) => ErrorKindModel::JsonStrParseError(error@),
        }
    }
}

impl ErrorKind {
    /// The words that name the error.
    pub open spec fn message_text(self) -> Seq<char> {
        match self {
            ErrorKind::NameRequired => "name is required"@,
            _ => "JSON parsing failed"@,
        }
    }

    /// The words that name the error.
    pub fn message(&self) -> (text: &'static str)
        ensures
            text@ == self.message_text(),
    {
        match self {
            ErrorKind::NameRequired => "name is required",
            _ => "JSON parsing failed",
        }
    }
}

/// A failed validation: the diagnostic, with the text and the path of the
/// manifest so that the place can be shown.
#[derive(Clone, Debug, PartialEq, Eq)]
pub struct Report {
    pub diagnostic: Diagnostic,
    pub source: Option<String>,
    pub path: Option<String>,
}

/// What a `Report` stands for.
pub struct ReportModel {
    pub diagnostic: DiagnosticModel,
    pub source: Option<Seq<char>>,
    pub path: Option<Seq<char>>,
}

impl View for Report {
    type V = ReportModel;

    open spec fn view(&self) -> ReportModel {
        ReportModel {
            diagnostic: self.diagnostic@,
            source: self.source.deep_view(),
            path: self.path.deep_view(),
        }
    }
}

} // verus!
