//! The `type` field.

use crate::ext::codec::{read_text, text_of, text_value, write_text, Codec, Flaw};
use crate::ext::diagnostic::{error_report, validation_error, Diagnostic, DiagnosticModel};
use crate::ext::range::{node_of, string_range, string_range_of, value_of};
use crate::ext::validator::Validator;
use crate::grammar::words::{is_module_type, matches_module_type};
use crate::json::{JsonModel, JsonValue};
use crate::syntax::{ObjectProp, PropModel};
use vstd::prelude::*;

verus! {

/// The module system of the package.
#[derive(Clone, Debug, PartialEq, Eq)]
pub struct Type(pub String);

impl View for Type {
    type V = Seq<char>;

    open spec fn view(&self) -> Seq<char> {
        self.0@
    }
}

impl DeepView for Type {
    type V = Seq<char>;

    open spec fn deep_view(&self) -> Seq<char> {
        self@
    }
}

impl core::ops::Deref for Type {
    type Target = String;

    fn deref(&self) -> (text: &String)
        ensures
            *text == self.0,
    {
        &self.0
    }
}

impl core::ops::DerefMut for Type {
    fn deref_mut(&mut self) -> (text: &mut String)
        ensures
            *text == old(self).0,
            final(self).0 == *final(text),
    {
        &mut self.0
    }
}

impl Codec for Type {
    open spec fn decoded(value: JsonModel) -> Result<Seq<char>, Flaw> {
        text_of(value)
    }

    open spec fn encoded(model: Seq<char>) -> JsonModel {
        text_value(model)
    }

    fn decode(value: &JsonValue) -> (outcome: Result<Self, Flaw>) {
        match read_text(value) {
            Ok(text) => Ok(Type(text)),
            Err(flaw) => Err(flaw),
        }
    }

    fn encode(&self) -> (value: JsonValue) {
        write_text(&self.0)
    }

    proof fn lemma_round_trip(value: JsonModel) {
    }
}

impl Validator for Type {
    /// A value other than `commonjs` and `module` is reported at its string literal.
    open spec fn violation(&self, prop: Option<PropModel>) -> Option<DiagnosticModel> {
        if is_module_type(self@) {
            None
        } else {
            Some(
                error_report(
                    "Invalid type"@,
                    Some("invalid_type"@),
                    "Please provide a valid type"@,
                    string_range_of(value_of(prop)),
                    "here"@,
                ),
            )
        }
    }

    fn validate(&self, prop: Option<&ObjectProp>) -> (outcome: Result<(), Diagnostic>) {
        if matches_module_type(self.0.as_str()) {
            return Ok(());
        }
        Err(
            validation_error(
                "Invalid type",
                Some("invalid_type"),
                "Please provide a valid type",
                string_range(node_of(prop)),
                "here",
            ),
        )
    }
}

} // verus!
