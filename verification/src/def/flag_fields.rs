//! The fields that hold `true` or `false`: `private` and `engineStrict`.

use crate::ext::codec::{flag_of, read_flag, Codec, Flaw};
use crate::ext::diagnostic::{Diagnostic, DiagnosticModel};
use crate::ext::validator::Validator;
use crate::json::{JsonModel, JsonValue};
use crate::syntax::{ObjectProp, PropModel};
use vstd::prelude::*;

verus! {

/// Whether the package is kept from being published.
#[derive(Clone, Copy, Debug, PartialEq, Eq)]
pub struct Private(pub bool);

impl View for Private {
    type V = bool;

    open spec fn view(&self) -> bool {
        self.0
    }
}

impl DeepView for Private {
    type V = bool;

    open spec fn deep_view(&self) -> bool {
        self@
    }
}

impl core::ops::Deref for Private {
    type Target = bool;

    fn deref(&self) -> (flag: &bool)
        ensures
            *flag == self.0,
    {
        &self.0
    }
}

impl core::ops::DerefMut for Private {
    fn deref_mut(&mut self) -> (flag: &mut bool)
        ensures
            *flag == old(self).0,
            final(self).0 == *final(flag),
    {
        &mut self.0
    }
}

impl Codec for Private {
    open spec fn decoded(value: JsonModel) -> Result<bool, Flaw> {
        flag_of(value)
    }

    open spec fn encoded(model: bool) -> JsonModel {
        JsonModel::Bool(model)
    }

    fn decode(value: &JsonValue) -> (outcome: Result<Self, Flaw>) {
        match read_flag(value) {
            Ok(flag) => Ok(Private(flag)),
            Err(flaw) => Err(flaw),
        }
    }

    fn encode(&self) -> (value: JsonValue) {
        JsonValue::Bool(self.0)
    }

    proof fn lemma_round_trip(value: JsonModel) {
    }
}

impl Validator for Private {
    /// A flag has no rule to break.
    open spec fn violation(&self, prop: Option<PropModel>) -> Option<DiagnosticModel> {
        None
    }

    fn validate(&self, _prop: Option<&ObjectProp>) -> (outcome: Result<(), Diagnostic>) {
        Ok(())
    }
}

/// Whether the engines that `engines` names are required.
#[derive(Clone, Copy, Debug, PartialEq, Eq)]
pub struct EngineStrict(pub bool);

impl View for EngineStrict {
    type V = bool;

    open spec fn view(&self) -> bool {
        self.0
    }
}

impl DeepView for EngineStrict {
    type V = bool;

    open spec fn deep_view(&self) -> bool {
        self@
    }
}

impl core::ops::Deref for EngineStrict {
    type Target = bool;

    fn deref(&self) -> (flag: &bool)
        ensures
            *flag == self.0,
    {
        &self.0
    }
}

impl core::ops::DerefMut for EngineStrict {
    fn deref_mut(&mut self) -> (flag: &mut bool)
        ensures
            *flag == old(self).0,
            final(self).0 == *final(flag),
    {
        &mut self.0
    }
}

impl Codec for EngineStrict {
    open spec fn decoded(value: JsonModel) -> Result<bool, Flaw> {
        flag_of(value)
    }

    open spec fn encoded(model: bool) -> JsonModel {
        JsonModel::Bool(model)
    }

    fn decode(value: &JsonValue) -> (outcome: Result<Self, Flaw>) {
        match read_flag(value) {
            Ok(flag) => Ok(EngineStrict(flag)),
            Err(flaw) => Err(flaw),
        }
    }

    fn encode(&self) -> (value: JsonValue) {
        JsonValue::Bool(self.0)
    }

    proof fn lemma_round_trip(value: JsonModel) {
    }
}

impl Validator for EngineStrict {
    /// A flag has no rule to break.
    open spec fn violation(&self, prop: Option<PropModel>) -> Option<DiagnosticModel> {
        None
    }

    fn validate(&self, _prop: Option<&ObjectProp>) -> (outcome: Result<(), Diagnostic>) {
        Ok(())
    }
}

} // verus!
