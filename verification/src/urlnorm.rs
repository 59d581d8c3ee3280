//! Validation and canonicalization of target URLs.
//!
//! Both the creation and the update workflow accept a raw client-supplied
//! string, reject it before any store access when it is not a syntactically
//! valid URL, and persist the canonicalized serialization rather than the raw
//! input.

use vstd::prelude::*;
use crate::errors::ApiError;
use crate::links::LinkTarget;

verus! {

/// The canonicalized serialization of `s` when `s` parses as an absolute URL,
/// `None` when it does not. Whether a string parses, and what its canonical
/// form is, depend on the string alone.
pub uninterp spec fn canonical_url(s: Seq<char>) -> Option<Seq<char>>;

/// Relies on url::Url::parse and url::Url::to_string: parsing either fails or
/// yields a URL whose serialization is a canonical (normalized) form of the
/// input, both determined by the input string alone.
#[verifier::external_body]
fn parse_and_canonicalize(s: &str) -> (r: Option<String>)
    ensures
        r is Some <==> canonical_url(s@) is Some,
        r matches Some(c) ==> canonical_url(s@) == Some(c@),
{
    match url::Url::parse(s) {
        Ok(u) => Some(u.to_string()),
        Err(_) => None,
    }
}

/// Validates a requested target and returns the canonical URL that is to be
/// persisted. Fails fast with `InvalidInput` — before any store access — on
/// exactly the strings that do not parse.
pub fn validate_target_url(t: &LinkTarget) -> (r: Result<String, ApiError>)
    ensures
        r is Ok <==> canonical_url(t.target_url@) is Some,
        r matches Ok(c) ==> canonical_url(t.target_url@) == Some(c@),
        r is Err ==> r == Err::<String, ApiError>(ApiError::InvalidInput),
{
    match parse_and_canonicalize(t.target_url.as_str()) {
        Some(c) => Ok(c),
        None => Err(ApiError::InvalidInput),
    }
}

} // verus!
