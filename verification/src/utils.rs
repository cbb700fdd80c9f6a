//! Checks of a web address and of an e-mail address.

use crate::grammar::web::{matches_email, matches_url};
use vstd::prelude::*;

verus! {

/// Whether `v` is a web address.
pub fn is_url(v: &str) -> (yes: bool)
    ensures
        yes == crate::grammar::web::is_url(v@),
{
    matches_url(v)
}

/// Whether `v` is an e-mail address.
pub fn is_email(v: &str) -> (yes: bool)
    ensures
        yes == crate::grammar::web::is_email(v@),
{
    matches_email(v)
}

} // verus!
