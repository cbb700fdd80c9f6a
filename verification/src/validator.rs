//! Checks of single strings, for use outside a manifest.

use crate::grammar::web::{is_email, is_url, matches_email, matches_url};
use vstd::prelude::*;

verus! {

/// Why a string was refused.
#[derive(Clone, Debug, PartialEq, Eq)]
pub enum ValidationError {
    Custom(String),
}

impl View for ValidationError {
    type V = Seq<char>;

    /// The message of the error.
    open spec fn view(&self) -> Seq<char> {
        match self {
            ValidationError::Custom(message) => message@,
        }
    }
}

/// What the outcome of a check stands for.
pub open spec fn check_model(outcome: Result<(), ValidationError>) -> Result<(), Seq<char>> {
    match outcome {
        Ok(_) => Ok(()),
        Err(error) => Err(error@),
    }
}

/// The checks.
pub struct ValidatorUtil;

impl ValidatorUtil {
    /// Whether `v` is a web address.
    pub fn is_url(v: &str) -> (yes: bool)
        ensures
            yes == is_url(v@),
    {
        matches_url(v)
    }

    /// Whether `v` is an e-mail address.
    pub fn is_email(v: &str) -> (yes: bool)
        ensures
            yes == is_email(v@),
    {
        matches_email(v)
    }

    /// Refuses a string that is no web address.
    pub fn use_url(url: &str) -> (outcome: Result<(), ValidationError>)
        ensures
            check_model(outcome) == (if is_url(url@) {
                Ok(())
            } else {
                Err("registry must be a valid URL"@)
            }),
    {
        if !ValidatorUtil::is_url(url) {
            return Err(ValidationError::Custom("registry must be a valid URL".to_owned()));
        }
        Ok(())
    }

    /// Refuses a string that is no e-mail address.
    pub fn use_email(email: &str) -> (outcome: Result<(), ValidationError>)
        ensures
            check_model(outcome) == (if is_email(email@) {
                Ok(())
            } else {
                Err("email must be a valid email"@)
            }),
    {
        if !ValidatorUtil::is_email(email) {
            return Err(ValidationError::Custom("email must be a valid email".to_owned()));
        }
        Ok(())
    }

    /// Refuses a string that is neither a web address nor an e-mail
    /// address.
    pub fn use_url_or_email(url_or_email: &str) -> (outcome: Result<(), ValidationError>)
        ensures
            check_model(outcome) == (if is_url(url_or_email@) || is_email(url_or_email@) {
                Ok(())
            } else {
                Err("url or email must be a valid url or email"@)
            }),
    {
        if !ValidatorUtil::is_url(url_or_email) && !ValidatorUtil::is_email(url_or_email) {
            return Err(
                ValidationError::Custom("url or email must be a valid url or email".to_owned()),
            );
        }
        Ok(())
    }

    /// Refuses a string that is there and is no web address.
    pub fn use_option_url(url: &Option<String>) -> (outcome: Result<(), ValidationError>)
        ensures
            check_model(outcome) == (match url {
                Some(url) if !is_url(url@) => Err("registry must be a valid URL"@),
                _ => Ok(()),
            }),
    {
        if let Some(url) = url {
            ValidatorUtil::use_url(url.as_str())
        } else {
            Ok(())
        }
    }

    /// Refuses a string that is there and is no e-mail address.
    pub fn use_option_email(email: &Option<String>) -> (outcome: Result<(), ValidationError>)
        ensures
            check_model(outcome) == (match email {
                Some(email) if !is_email(email@) => Err("email must be a valid email"@),
                _ => Ok(()),
            }),
    {
        if let Some(email) = email {
            ValidatorUtil::use_email(email.as_str())
        } else {
            Ok(())
        }
    }
}

} // verus!
