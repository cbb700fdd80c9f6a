//! The fields that hold a list of strings: `files`, `man`, `os`, `cpu` and
//! `types`.

use crate::ext::codec::{
    lemma_text_list_round_trip, read_text_list, text_list_of, text_list_value, write_text_list,
    Codec, Flaw,
};
use crate::ext::diagnostic::{Diagnostic, DiagnosticModel};
use crate::ext::validator::Validator;
use crate::json::{JsonModel, JsonValue};
use crate::syntax::{ObjectProp, PropModel};
use vstd::prelude::*;

verus! {

/// The files that the published package holds.
#[derive(Clone, Debug, PartialEq, Eq)]
pub struct Files(pub Vec<String>);

impl View for Files {
    type V = Seq<Seq<char>>;

    open spec fn view(&self) -> Seq<Seq<char>> {
        self.0.deep_view()
    }
}

impl DeepView for Files {
    type V = Seq<Seq<char>>;

    open spec fn deep_view(&self) -> Seq<Seq<char>> {
        self@
    }
}

impl core::ops::Deref for Files {
    type Target = Vec<String>;

    fn deref(&self) -> (list: &Vec<String>)
        ensures
            *list == self.0,
    {
        &self.0
    }
}

impl core::ops::DerefMut for Files {
    fn deref_mut(&mut self) -> (list: &mut Vec<String>)
        ensures
            *list == old(self).0,
            final(self).0 == *final(list),
    {
        &mut self.0
    }
}

impl Codec for Files {
    open spec fn decoded(value: JsonModel) -> Result<Seq<Seq<char>>, Flaw> {
        text_list_of(value)
    }

    open spec fn encoded(model: Seq<Seq<char>>) -> JsonModel {
        text_list_value(model)
    }

    fn decode(value: &JsonValue) -> (outcome: Result<Self, Flaw>) {
        match read_text_list(value) {
            Ok(list) => Ok(Files(list)),
            Err(flaw) => Err(flaw),
        }
    }

    fn encode(&self) -> (value: JsonValue) {
        write_text_list(&self.0)
    }

    proof fn lemma_round_trip(value: JsonModel) {
        lemma_text_list_round_trip(text_list_of(value)->Ok_0);
    }
}

impl Validator for Files {
    /// A list has no rule to break.
    open spec fn violation(&self, prop: Option<PropModel>) -> Option<DiagnosticModel> {
        None
    }

    fn validate(&self, _prop: Option<&ObjectProp>) -> (outcome: Result<(), Diagnostic>) {
        Ok(())
    }
}

/// The manual pages of the package.
#[derive(Clone, Debug, PartialEq, Eq)]
pub struct Man(pub Vec<String>);

impl View for Man {
    type V = Seq<Seq<char>>;

    open spec fn view(&self) -> Seq<Seq<char>> {
        self.0.deep_view()
    }
}

impl DeepView for Man {
    type V = Seq<Seq<char>>;

    open spec fn deep_view(&self) -> Seq<Seq<char>> {
        self@
    }
}

impl core::ops::Deref for Man {
    type Target = Vec<String>;

    fn deref(&self) -> (list: &Vec<String>)
        ensures
            *list == self.0,
    {
        &self.0
    }
}

impl core::ops::DerefMut for Man {
    fn deref_mut(&mut self) -> (list: &mut Vec<String>)
        ensures
            *list == old(self).0,
            final(self).0 == *final(list),
    {
        &mut self.0
    }
}

impl Codec for Man {
    open spec fn decoded(value: JsonModel) -> Result<Seq<Seq<char>>, Flaw> {
        text_list_of(value)
    }

    open spec fn encoded(model: Seq<Seq<char>>) -> JsonModel {
        text_list_value(model)
    }

    fn decode(value: &JsonValue) -> (outcome: Result<Self, Flaw>) {
        match read_text_list(value) {
            Ok(list) => Ok(Man(list)),
            Err(flaw) => Err(flaw),
        }
    }

    fn encode(&self) -> (value: JsonValue) {
        write_text_list(&self.0)
    }

    proof fn lemma_round_trip(value: JsonModel) {
        lemma_text_list_round_trip(text_list_of(value)->Ok_0);
    }
}

impl Validator for Man {
    /// A list has no rule to break.
    open spec fn violation(&self, prop: Option<PropModel>) -> Option<DiagnosticModel> {
        None
    }

    fn validate(&self, _prop: Option<&ObjectProp>) -> (outcome: Result<(), Diagnostic>) {
        Ok(())
    }
}

/// The operating systems that the package runs on.
#[derive(Clone, Debug, PartialEq, Eq)]
pub struct Os(pub Vec<String>);

impl View for Os {
    type V = Seq<Seq<char>>;

    open spec fn view(&self) -> Seq<Seq<char>> {
        self.0.deep_view()
    }
}

impl DeepView for Os {
    type V = Seq<Seq<char>>;

    open spec fn deep_view(&self) -> Seq<Seq<char>> {
        self@
    }
}

impl core::ops::Deref for Os {
    type Target = Vec<String>;

    fn deref(&self) -> (list: &Vec<String>)
        ensures
            *list == self.0,
    {
        &self.0
    }
}

impl core::ops::DerefMut for Os {
    fn deref_mut(&mut self) -> (list: &mut Vec<String>)
        ensures
            *list == old(self).0,
            final(self).0 == *final(list),
    {
        &mut self.0
    }
}

impl Codec for Os {
    open spec fn decoded(value: JsonModel) -> Result<Seq<Seq<char>>, Flaw> {
        text_list_of(value)
    }

    open spec fn encoded(model: Seq<Seq<char>>) -> JsonModel {
        text_list_value(model)
    }

    fn decode(value: &JsonValue) -> (outcome: Result<Self, Flaw>) {
        match read_text_list(value) {
            Ok(list) => Ok(Os(list)),
            Err(flaw) => Err(flaw),
        }
    }

    fn encode(&self) -> (value: JsonValue) {
        write_text_list(&self.0)
    }

    proof fn lemma_round_trip(value: JsonModel) {
        lemma_text_list_round_trip(text_list_of(value)->Ok_0);
    }
}

impl Validator for Os {
    /// A list has no rule to break.
    open spec fn violation(&self, prop: Option<PropModel>) -> Option<DiagnosticModel> {
        None
    }

    fn validate(&self, _prop: Option<&ObjectProp>) -> (outcome: Result<(), Diagnostic>) {
        Ok(())
    }
}

/// The processors that the package runs on.
#[derive(Clone, Debug, PartialEq, Eq)]
pub struct Cpu(pub Vec<String>);

impl View for Cpu {
    type V = Seq<Seq<char>>;

    open spec fn view(&self) -> Seq<Seq<char>> {
        self.0.deep_view()
    }
}

impl DeepView for Cpu {
    type V = Seq<Seq<char>>;

    open spec fn deep_view(&self) -> Seq<Seq<char>> {
        self@
    }
}

impl core::ops::Deref for Cpu {
    type Target = Vec<String>;

    fn deref(&self) -> (list: &Vec<String>)
        ensures
            *list == self.0,
    {
        &self.0
    }
}

impl core::ops::DerefMut for Cpu {
    fn deref_mut(&mut self) -> (list: &mut Vec<String>)
        ensures
            *list == old(self).0,
            final(self).0 == *final(list),
    {
        &mut self.0
    }
}

impl Codec for Cpu {
    open spec fn decoded(value: JsonModel) -> Result<Seq<Seq<char>>, Flaw> {
        text_list_of(value)
    }

    open spec fn encoded(model: Seq<Seq<char>>) -> JsonModel {
        text_list_value(model)
    }

    fn decode(value: &JsonValue) -> (outcome: Result<Self, Flaw>) {
        match read_text_list(value) {
            Ok(list) => Ok(Cpu(list)),
            Err(flaw) => Err(flaw),
        }
    }

    fn encode(&self) -> (value: JsonValue) {
        write_text_list(&self.0)
    }

    proof fn lemma_round_trip(value: JsonModel) {
        lemma_text_list_round_trip(text_list_of(value)->Ok_0);
    }
}

impl Validator for Cpu {
    /// A list has no rule to break.
    open spec fn violation(&self, prop: Option<PropModel>) -> Option<DiagnosticModel> {
        None
    }

    fn validate(&self, _prop: Option<&ObjectProp>) -> (outcome: Result<(), Diagnostic>) {
        Ok(())
    }
}

/// The paths of the type declarations.
#[derive(Clone, Debug, PartialEq, Eq)]
pub struct Types(pub Vec<String>);

impl View for Types {
    type V = Seq<Seq<char>>;

    open spec fn view(&self) -> Seq<Seq<char>> {
        self.0.deep_view()
    }
}

impl DeepView for Types {
    type V = Seq<Seq<char>>;

    open spec fn deep_view(&self) -> Seq<Seq<char>> {
        self@
    }
}

impl core::ops::Deref for Types {
    type Target = Vec<String>;

    fn deref(&self) -> (list: &Vec<String>)
        ensures
            *list == self.0,
    {
        &self.0
    }
}

impl core::ops::DerefMut for Types {
    fn deref_mut(&mut self) -> (list: &mut Vec<String>)
        ensures
            *list == old(self).0,
            final(self).0 == *final(list),
    {
        &mut self.0
    }
}

impl Codec for Types {
    open spec fn decoded(value: JsonModel) -> Result<Seq<Seq<char>>, Flaw> {
        text_list_of(value)
    }

    open spec fn encoded(model: Seq<Seq<char>>) -> JsonModel {
        text_list_value(model)
    }

    fn decode(value: &JsonValue) -> (outcome: Result<Self, Flaw>) {
        match read_text_list(value) {
            Ok(list) => Ok(Types(list)),
            Err(flaw) => Err(flaw),
        }
    }

    fn encode(&self) -> (value: JsonValue) {
        write_text_list(&self.0)
    }

    proof fn lemma_round_trip(value: JsonModel) {
        lemma_text_list_round_trip(text_list_of(value)->Ok_0);
    }
}

impl Validator for Types {
    /// A list has no rule to break.
    open spec fn violation(&self, prop: Option<PropModel>) -> Option<DiagnosticModel> {
        None
    }

    fn validate(&self, _prop: Option<&ObjectProp>) -> (outcome: Result<(), Diagnostic>) {
        Ok(())
    }
}

} // verus!
