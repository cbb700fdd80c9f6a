//! What every field shares: diagnostics, range lookup, and the rule that a
//! field value can be validated.

pub mod codec;
pub mod diagnostic;
pub mod range;
pub mod validator;
