//! The rule that a field value can be held against its rules.

use crate::ext::diagnostic::{Diagnostic, DiagnosticModel};
use crate::ext::range::prop_model;
use crate::syntax::{ObjectProp, PropModel};
use vstd::prelude::*;

verus! {

/// A field value that can be validated. The member of the syntax tree
/// that the value was read from, where there is one, gives the
/// diagnostic its place in the text.
pub trait Validator {
    /// The diagnostic of the first rule that the value breaks, none where
    /// it breaks no rule.
    spec fn violation(&self, prop: Option<PropModel>) -> Option<DiagnosticModel>;

    /// Validates the value: reports the first rule that it breaks.
    fn validate(&self, prop: Option<&ObjectProp>) -> (outcome: Result<(), Diagnostic>)
        ensures
            self.violation(prop_model(prop)) == match outcome {
                Ok(_) => None,
                Err(diagnostic) => Some(diagnostic@),
            },
    ;
}

} // verus!
