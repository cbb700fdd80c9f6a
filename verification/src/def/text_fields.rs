//! The fields that hold a string on which no rule is laid: `description`,
//! `homepage`, `typings` and `module`.

use crate::ext::codec::{read_text, text_of, text_value, write_text, Codec, Flaw};
use crate::ext::diagnostic::{Diagnostic, DiagnosticModel};
use crate::ext::validator::Validator;
use crate::json::{JsonModel, JsonValue};
use crate::syntax::{ObjectProp, PropModel};
use vstd::prelude::*;

verus! {

/// What the package is, in a sentence.
#[derive(Clone, Debug, PartialEq, Eq)]
pub struct Description(pub String);

impl View for Description {
    type V = Seq<char>;

    open spec fn view(&self) -> Seq<char> {
        self.0@
    }
}

impl DeepView for Description {
    type V = Seq<char>;

    open spec fn deep_view(&self) -> Seq<char> {
        self@
    }
}

impl core::ops::Deref for Description {
    type Target = String;

    fn deref(&self) -> (text: &String)
        ensures
            *text == self.0,
    {
        &self.0
    }
}

impl core::ops::DerefMut for Description {
    fn deref_mut(&mut self) -> (text: &mut String)
        ensures
            *text == old(self).0,
            final(self).0 == *final(text),
    {
        &mut self.0
    }
}

impl Codec for Description {
    open spec fn decoded(value: JsonModel) -> Result<Seq<char>, Flaw> {
        text_of(value)
    }

    open spec fn encoded(model: Seq<char>) -> JsonModel {
        text_value(model)
    }

    fn decode(value: &JsonValue) -> (outcome: Result<Self, Flaw>) {
        match read_text(value) {
            Ok(text) => Ok(Description(text)),
            Err(flaw) => Err(flaw),
        }
    }

    fn encode(&self) -> (value: JsonValue) {
        write_text(&self.0)
    }

    proof fn lemma_round_trip(value: JsonModel) {
    }
}

impl Validator for Description {
    /// A description has no rule to break.
    open spec fn violation(&self, prop: Option<PropModel>) -> Option<DiagnosticModel> {
        None
    }

    fn validate(&self, _prop: Option<&ObjectProp>) -> (outcome: Result<(), Diagnostic>) {
        Ok(())
    }
}

/// The address of the project's home page.
#[derive(Clone, Debug, PartialEq, Eq)]
pub struct HomePage(pub String);

impl View for HomePage {
    type V = Seq<char>;

    open spec fn view(&self) -> Seq<char> {
        self.0@
    }
}

impl DeepView for HomePage {
    type V = Seq<char>;

    open spec fn deep_view(&self) -> Seq<char> {
        self@
    }
}

impl core::ops::Deref for HomePage {
    type Target = String;

    fn deref(&self) -> (text: &String)
        ensures
            *text == self.0,
    {
        &self.0
    }
}

impl core::ops::DerefMut for HomePage {
    fn deref_mut(&mut self) -> (text: &mut String)
        ensures
            *text == old(self).0,
            final(self).0 == *final(text),
    {
        &mut self.0
    }
}

impl Codec for HomePage {
    open spec fn decoded(value: JsonModel) -> Result<Seq<char>, Flaw> {
        text_of(value)
    }

    open spec fn encoded(model: Seq<char>) -> JsonModel {
        text_value(model)
    }

    fn decode(value: &JsonValue) -> (outcome: Result<Self, Flaw>) {
        match read_text(value) {
            Ok(text) => Ok(HomePage(text)),
            Err(flaw) => Err(flaw),
        }
    }

    fn encode(&self) -> (value: JsonValue) {
        write_text(&self.0)
    }

    proof fn lemma_round_trip(value: JsonModel) {
    }
}

impl Validator for HomePage {
    /// A home page has no rule to break.
    open spec fn violation(&self, prop: Option<PropModel>) -> Option<DiagnosticModel> {
        None
    }

    fn validate(&self, _prop: Option<&ObjectProp>) -> (outcome: Result<(), Diagnostic>) {
        Ok(())
    }
}

/// The path of the type declarations.
#[derive(Clone, Debug, PartialEq, Eq)]
pub struct Typings(pub String);

impl View for Typings {
    type V = Seq<char>;

    open spec fn view(&self) -> Seq<char> {
        self.0@
    }
}

impl DeepView for Typings {
    type V = Seq<char>;

    open spec fn deep_view(&self) -> Seq<char> {
        self@
    }
}

impl core::ops::Deref for Typings {
    type Target = String;

    fn deref(&self) -> (text: &String)
        ensures
            *text == self.0,
    {
        &self.0
    }
}

impl core::ops::DerefMut for Typings {
    fn deref_mut(&mut self) -> (text: &mut String)
        ensures
            *text == old(self).0,
            final(self).0 == *final(text),
    {
        &mut self.0
    }
}

impl Codec for Typings {
    open spec fn decoded(value: JsonModel) -> Result<Seq<char>, Flaw> {
        text_of(value)
    }

    open spec fn encoded(model: Seq<char>) -> JsonModel {
        text_value(model)
    }

    fn decode(value: &JsonValue) -> (outcome: Result<Self, Flaw>) {
        match read_text(value) {
            Ok(text) => Ok(Typings(text)),
            Err(flaw) => Err(flaw),
        }
    }

    fn encode(&self) -> (value: JsonValue) {
        write_text(&self.0)
    }

    proof fn lemma_round_trip(value: JsonModel) {
    }
}

impl Validator for Typings {
    /// A path has no rule to break.
    open spec fn violation(&self, prop: Option<PropModel>) -> Option<DiagnosticModel> {
        None
    }

    fn validate(&self, _prop: Option<&ObjectProp>) -> (outcome: Result<(), Diagnostic>) {
        Ok(())
    }
}

/// The path of the entry point for module loaders.
#[derive(Clone, Debug, PartialEq, Eq)]
pub struct Module(pub String);

impl View for Module {
    type V = Seq<char>;

    open spec fn view(&self) -> Seq<char> {
        self.0@
    }
}

impl DeepView for Module {
    type V = Seq<char>;

    open spec fn deep_view(&self) -> Seq<char> {
        self@
    }
}

impl core::ops::Deref for Module {
    type Target = String;

    fn deref(&self) -> (text: &String)
        ensures
            *text == self.0,
    {
        &self.0
    }
}

impl core::ops::DerefMut for Module {
    fn deref_mut(&mut self) -> (text: &mut String)
        ensures
            *text == old(self).0,
            final(self).0 == *final(text),
    {
        &mut self.0
    }
}

impl Codec for Module {
    open spec fn decoded(value: JsonModel) -> Result<Seq<char>, Flaw> {
        text_of(value)
    }

    open spec fn encoded(model: Seq<char>) -> JsonModel {
        text_value(model)
    }

    fn decode(value: &JsonValue) -> (outcome: Result<Self, Flaw>) {
        match read_text(value) {
            Ok(text) => Ok(Module(text)),
            Err(flaw) => Err(flaw),
        }
    }

    fn encode(&self) -> (value: JsonValue) {
        write_text(&self.0)
    }

    proof fn lemma_round_trip(value: JsonModel) {
    }
}

impl Validator for Module {
    /// A path has no rule to break.
    open spec fn violation(&self, prop: Option<PropModel>) -> Option<DiagnosticModel> {
        None
    }

    fn validate(&self, _prop: Option<&ObjectProp>) -> (outcome: Result<(), Diagnostic>) {
        Ok(())
    }
}

} // verus!
