//! The fields that map names to strings: `engines`, `scripts` and the
//! four kinds of dependencies.

use crate::ext::codec::{
    lemma_text_map_distinct, lemma_text_map_round_trip, read_text_map, text_map_of,
    text_map_value, write_text_map, Codec, Flaw,
};
use crate::string_map::StringMap;
use crate::ext::diagnostic::{Diagnostic, DiagnosticModel};
use crate::ext::validator::Validator;
use crate::json::{JsonModel, JsonValue};
use crate::syntax::{ObjectProp, PropModel};
use vstd::prelude::*;

verus! {

/// The versions of the engines that the package runs on.
#[derive(Clone, Debug, PartialEq, Eq)]
pub struct Engines(pub StringMap);

impl View for Engines {
    type V = Seq<(Seq<char>, Seq<char>)>;

    open spec fn view(&self) -> Seq<(Seq<char>, Seq<char>)> {
        self.0@
    }
}

impl DeepView for Engines {
    type V = Seq<(Seq<char>, Seq<char>)>;

    open spec fn deep_view(&self) -> Seq<(Seq<char>, Seq<char>)> {
        self@
    }
}

impl core::ops::Deref for Engines {
    type Target = StringMap;

    fn deref(&self) -> (map: &StringMap)
        ensures
            *map == self.0,
    {
        &self.0
    }
}

impl core::ops::DerefMut for Engines {
    fn deref_mut(&mut self) -> (map: &mut StringMap)
        ensures
            *map == old(self).0,
            final(self).0 == *final(map),
    {
        &mut self.0
    }
}

impl Codec for Engines {
    open spec fn decoded(value: JsonModel) -> Result<Seq<(Seq<char>, Seq<char>)>, Flaw> {
        text_map_of(value)
    }

    open spec fn encoded(model: Seq<(Seq<char>, Seq<char>)>) -> JsonModel {
        text_map_value(model)
    }

    fn decode(value: &JsonValue) -> (outcome: Result<Self, Flaw>) {
        match read_text_map(value) {
            Ok(map) => Ok(Engines(map)),
            Err(flaw) => Err(flaw),
        }
    }

    fn encode(&self) -> (value: JsonValue) {
        write_text_map(&self.0)
    }

    proof fn lemma_round_trip(value: JsonModel) {
        lemma_text_map_distinct(value);
        lemma_text_map_round_trip(text_map_of(value)->Ok_0);
    }
}

impl Validator for Engines {
    /// A map has no rule to break.
    open spec fn violation(&self, prop: Option<PropModel>) -> Option<DiagnosticModel> {
        None
    }

    fn validate(&self, _prop: Option<&ObjectProp>) -> (outcome: Result<(), Diagnostic>) {
        Ok(())
    }
}

/// The commands that the package can run, by name.
#[derive(Clone, Debug, PartialEq, Eq)]
pub struct Scripts(pub StringMap);

impl View for Scripts {
    type V = Seq<(Seq<char>, Seq<char>)>;

    open spec fn view(&self) -> Seq<(Seq<char>, Seq<char>)> {
        self.0@
    }
}

impl DeepView for Scripts {
    type V = Seq<(Seq<char>, Seq<char>)>;

    open spec fn deep_view(&self) -> Seq<(Seq<char>, Seq<char>)> {
        self@
    }
}

impl core::ops::Deref for Scripts {
    type Target = StringMap;

    fn deref(&self) -> (map: &StringMap)
        ensures
            *map == self.0,
    {
        &self.0
    }
}

impl core::ops::DerefMut for Scripts {
    fn deref_mut(&mut self) -> (map: &mut StringMap)
        ensures
            *map == old(self).0,
            final(self).0 == *final(map),
    {
        &mut self.0
    }
}

impl Codec for Scripts {
    open spec fn decoded(value: JsonModel) -> Result<Seq<(Seq<char>, Seq<char>)>, Flaw> {
        text_map_of(value)
    }

    open spec fn encoded(model: Seq<(Seq<char>, Seq<char>)>) -> JsonModel {
        text_map_value(model)
    }

    fn decode(value: &JsonValue) -> (outcome: Result<Self, Flaw>) {
        match read_text_map(value) {
            Ok(map) => Ok(Scripts(map)),
            Err(flaw) => Err(flaw),
        }
    }

    fn encode(&self) -> (value: JsonValue) {
        write_text_map(&self.0)
    }

    proof fn lemma_round_trip(value: JsonModel) {
        lemma_text_map_distinct(value);
        lemma_text_map_round_trip(text_map_of(value)->Ok_0);
    }
}

impl Validator for Scripts {
    /// A map has no rule to break.
    open spec fn violation(&self, prop: Option<PropModel>) -> Option<DiagnosticModel> {
        None
    }

    fn validate(&self, _prop: Option<&ObjectProp>) -> (outcome: Result<(), Diagnostic>) {
        Ok(())
    }
}

/// The packages that this one needs, each with a version range.
#[derive(Clone, Debug, PartialEq, Eq)]
pub struct Dependencies(pub StringMap);

impl View for Dependencies {
    type V = Seq<(Seq<char>, Seq<char>)>;

    open spec fn view(&self) -> Seq<(Seq<char>, Seq<char>)> {
        self.0@
    }
}

impl DeepView for Dependencies {
    type V = Seq<(Seq<char>, Seq<char>)>;

    open spec fn deep_view(&self) -> Seq<(Seq<char>, Seq<char>)> {
        self@
    }
}

impl core::ops::Deref for Dependencies {
    type Target = StringMap;

    fn deref(&self) -> (map: &StringMap)
        ensures
            *map == self.0,
    {
        &self.0
    }
}

impl core::ops::DerefMut for Dependencies {
    fn deref_mut(&mut self) -> (map: &mut StringMap)
        ensures
            *map == old(self).0,
            final(self).0 == *final(map),
    {
        &mut self.0
    }
}

impl Codec for Dependencies {
    open spec fn decoded(value: JsonModel) -> Result<Seq<(Seq<char>, Seq<char>)>, Flaw> {
        text_map_of(value)
    }

    open spec fn encoded(model: Seq<(Seq<char>, Seq<char>)>) -> JsonModel {
        text_map_value(model)
    }

    fn decode(value: &JsonValue) -> (outcome: Result<Self, Flaw>) {
        match read_text_map(value) {
            Ok(map) => Ok(Dependencies(map)),
            Err(flaw) => Err(flaw),
        }
    }

    fn encode(&self) -> (value: JsonValue) {
        write_text_map(&self.0)
    }

    proof fn lemma_round_trip(value: JsonModel) {
        lemma_text_map_distinct(value);
        lemma_text_map_round_trip(text_map_of(value)->Ok_0);
    }
}

impl Validator for Dependencies {
    /// A map has no rule to break.
    open spec fn violation(&self, prop: Option<PropModel>) -> Option<DiagnosticModel> {
        None
    }

    fn validate(&self, _prop: Option<&ObjectProp>) -> (outcome: Result<(), Diagnostic>) {
        Ok(())
    }
}

/// The packages that developing this one needs.
#[derive(Clone, Debug, PartialEq, Eq)]
pub struct DevDependencies(pub StringMap);

impl View for DevDependencies {
    type V = Seq<(Seq<char>, Seq<char>)>;

    open spec fn view(&self) -> Seq<(Seq<char>, Seq<char>)> {
        self.0@
    }
}

impl DeepView for DevDependencies {
    type V = Seq<(Seq<char>, Seq<char>)>;

    open spec fn deep_view(&self) -> Seq<(Seq<char>, Seq<char>)> {
        self@
    }
}

impl core::ops::Deref for DevDependencies {
    type Target = StringMap;

    fn deref(&self) -> (map: &StringMap)
        ensures
            *map == self.0,
    {
        &self.0
    }
}

impl core::ops::DerefMut for DevDependencies {
    fn deref_mut(&mut self) -> (map: &mut StringMap)
        ensures
            *map == old(self).0,
            final(self).0 == *final(map),
    {
        &mut self.0
    }
}

impl Codec for DevDependencies {
    open spec fn decoded(value: JsonModel) -> Result<Seq<(Seq<char>, Seq<char>)>, Flaw> {
        text_map_of(value)
    }

    open spec fn encoded(model: Seq<(Seq<char>, Seq<char>)>) -> JsonModel {
        text_map_value(model)
    }

    fn decode(value: &JsonValue) -> (outcome: Result<Self, Flaw>) {
        match read_text_map(value) {
            Ok(map) => Ok(DevDependencies(map)),
            Err(flaw) => Err(flaw),
        }
    }

    fn encode(&self) -> (value: JsonValue) {
        write_text_map(&self.0)
    }

    proof fn lemma_round_trip(value: JsonModel) {
        lemma_text_map_distinct(value);
        lemma_text_map_round_trip(text_map_of(value)->Ok_0);
    }
}

impl Validator for DevDependencies {
    /// A map has no rule to break.
    open spec fn violation(&self, prop: Option<PropModel>) -> Option<DiagnosticModel> {
        None
    }

    fn validate(&self, _prop: Option<&ObjectProp>) -> (outcome: Result<(), Diagnostic>) {
        Ok(())
    }
}

/// The packages that this one uses where they can be had.
#[derive(Clone, Debug, PartialEq, Eq)]
pub struct OptionalDependencies(pub StringMap);

impl View for OptionalDependencies {
    type V = Seq<(Seq<char>, Seq<char>)>;

    open spec fn view(&self) -> Seq<(Seq<char>, Seq<char>)> {
        self.0@
    }
}

impl DeepView for OptionalDependencies {
    type V = Seq<(Seq<char>, Seq<char>)>;

    open spec fn deep_view(&self) -> Seq<(Seq<char>, Seq<char>)> {
        self@
    }
}

impl core::ops::Deref for OptionalDependencies {
    type Target = StringMap;

    fn deref(&self) -> (map: &StringMap)
        ensures
            *map == self.0,
    {
        &self.0
    }
}

impl core::ops::DerefMut for OptionalDependencies {
    fn deref_mut(&mut self) -> (map: &mut StringMap)
        ensures
            *map == old(self).0,
            final(self).0 == *final(map),
    {
        &mut self.0
    }
}

impl Codec for OptionalDependencies {
    open spec fn decoded(value: JsonModel) -> Result<Seq<(Seq<char>, Seq<char>)>, Flaw> {
        text_map_of(value)
    }

    open spec fn encoded(model: Seq<(Seq<char>, Seq<char>)>) -> JsonModel {
        text_map_value(model)
    }

    fn decode(value: &JsonValue) -> (outcome: Result<Self, Flaw>) {
        match read_text_map(value) {
            Ok(map) => Ok(OptionalDependencies(map)),
            Err(flaw) => Err(flaw),
        }
    }

    fn encode(&self) -> (value: JsonValue) {
        write_text_map(&self.0)
    }

    proof fn lemma_round_trip(value: JsonModel) {
        lemma_text_map_distinct(value);
        lemma_text_map_round_trip(text_map_of(value)->Ok_0);
    }
}

impl Validator for OptionalDependencies {
    /// A map has no rule to break.
    open spec fn violation(&self, prop: Option<PropModel>) -> Option<DiagnosticModel> {
        None
    }

    fn validate(&self, _prop: Option<&ObjectProp>) -> (outcome: Result<(), Diagnostic>) {
        Ok(())
    }
}

/// The packages that the host of this one must bring.
#[derive(Clone, Debug, PartialEq, Eq)]
pub struct PeerDependencies(pub StringMap);

impl View for PeerDependencies {
    type V = Seq<(Seq<char>, Seq<char>)>;

    open spec fn view(&self) -> Seq<(Seq<char>, Seq<char>)> {
        self.0@
    }
}

impl DeepView for PeerDependencies {
    type V = Seq<(Seq<char>, Seq<char>)>;

    open spec fn deep_view(&self) -> Seq<(Seq<char>, Seq<char>)> {
        self@
    }
}

impl core::ops::Deref for PeerDependencies {
    type Target = StringMap;

    fn deref(&self) -> (map: &StringMap)
        ensures
            *map == self.0,
    {
        &self.0
    }
}

impl core::ops::DerefMut for PeerDependencies {
    fn deref_mut(&mut self) -> (map: &mut StringMap)
        ensures
            *map == old(self).0,
            final(self).0 == *final(map),
    {
        &mut self.0
    }
}

impl Codec for PeerDependencies {
    open spec fn decoded(value: JsonModel) -> Result<Seq<(Seq<char>, Seq<char>)>, Flaw> {
        text_map_of(value)
    }

    open spec fn encoded(model: Seq<(Seq<char>, Seq<char>)>) -> JsonModel {
        text_map_value(model)
    }

    fn decode(value: &JsonValue) -> (outcome: Result<Self, Flaw>) {
        match read_text_map(value) {
            Ok(map) => Ok(PeerDependencies(map)),
            Err(flaw) => Err(flaw),
        }
    }

    fn encode(&self) -> (value: JsonValue) {
        write_text_map(&self.0)
    }

    proof fn lemma_round_trip(value: JsonModel) {
        lemma_text_map_distinct(value);
        lemma_text_map_round_trip(text_map_of(value)->Ok_0);
    }
}

impl Validator for PeerDependencies {
    /// A map has no rule to break.
    open spec fn violation(&self, prop: Option<PropModel>) -> Option<DiagnosticModel> {
        None
    }

    fn validate(&self, _prop: Option<&ObjectProp>) -> (outcome: Result<(), Diagnostic>) {
        Ok(())
    }
}

} // verus!
