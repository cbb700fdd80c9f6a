//! Web addresses and e-mail addresses as the `validator` crate judges
//! them.

use ::validator::{ValidateEmail, ValidateUrl};
use vstd::prelude::*;

verus! {

/// Whether `validator` takes `text` for a web address: whether its
/// `validate_url` accepts the string.
pub uninterp spec fn url_is_valid(text: Seq<char>) -> bool;

/// Whether `validator` takes `text` for an e-mail address: whether its
/// `validate_email` accepts the string.
pub uninterp spec fn email_is_valid(text: Seq<char>) -> bool;

/// A web address that may be missing is in order: it is missing, or it is
/// valid.
pub open spec fn url_in_order(url: Option<Seq<char>>) -> bool {
    match url {
        Some(url) => url_is_valid(url),
        None => true,
    }
}

/// An e-mail address that may be missing is in order: it is missing, or
/// it is valid.
pub open spec fn email_in_order(email: Option<Seq<char>>) -> bool {
    match email {
        Some(email) => email_is_valid(email),
        None => true,
    }
}

/// Calls `validate_url` of `validator::ValidateUrl` on a string, which
/// says whether `url::Url::parse` accepts it. The contract claims only
/// that the answer is the one that `url_is_valid` names for this string.
#[verifier::external_body]
fn check_url(text: &str) -> (valid: bool)
    ensures
        valid == url_is_valid(text@),
{
    text.validate_url()
}

/// Calls `validate_email` of `validator::ValidateEmail` on a string,
/// which holds it to the address rule of web forms: a local part and a
/// domain, each of the characters and the length allowed, the domain also
/// as an address in brackets or as it reads in ASCII. The contract claims
/// only that the answer is the one that `email_is_valid` names for this
/// string.
#[verifier::external_body]
fn check_email(text: &str) -> (valid: bool)
    ensures
        valid == email_is_valid(text@),
{
    text.validate_email()
}

/// Whether `text` is a valid web address.
pub fn validate_url(text: &str) -> (valid: bool)
    ensures
        valid == url_is_valid(text@),
{
    check_url(text)
}

/// Whether `text` is a valid e-mail address.
pub fn validate_email(text: &str) -> (valid: bool)
    ensures
        valid == email_is_valid(text@),
{
    check_email(text)
}

/// Whether a web address that may be missing is in order.
pub fn check_optional_url(url: &Option<String>) -> (valid: bool)
    ensures
        valid == url_in_order(url.deep_view()),
{
    match url {
        Some(url) => check_url(url.as_str()),
        None => true,
    }
}

/// Whether an e-mail address that may be missing is in order.
pub fn check_optional_email(email: &Option<String>) -> (valid: bool)
    ensures
        valid == email_in_order(email.deep_view()),
{
    match email {
        Some(email) => check_email(email.as_str()),
        None => true,
    }
}

} // verus!
