//! The update workflow: validate and canonicalize the new target, then apply
//! a single timeout-bounded update in place. The id itself is immutable.

use vstd::prelude::*;
use crate::errors::ApiError;
use crate::links::{Link, LinkTarget};
use crate::store::UpdateOutcome;
use crate::urlnorm::{canonical_url, validate_target_url};

verus! {

/// Starts an update: rejects a malformed target with `InvalidInput` before
/// any store access, and otherwise yields the canonical URL to write.
pub fn begin_update(target: &LinkTarget) -> (r: Result<String, ApiError>)
    ensures
        r is Ok <==> canonical_url(target.target_url@) is Some,
        r matches Ok(c) ==> canonical_url(target.target_url@) == Some(c@),
        r is Err ==> r == Err::<String, ApiError>(ApiError::InvalidInput),
{
    validate_target_url(target)
}

/// Decides on the outcome of the single update attempt: the store's row when
/// it reports one, `Internal` otherwise. The store gives no distinct "no row
/// matched" signal, so an unknown id surfaces exactly as any other store
/// failure does — the ambiguity is kept rather than guessed at.
pub fn finish_update(outcome: UpdateOutcome) -> (r: Result<Link, ApiError>)
    ensures
        outcome matches UpdateOutcome::Updated(l) ==> r matches Ok(got) && got == l,
        outcome is Fault ==> r == Err::<Link, ApiError>(ApiError::Internal),
{
    match outcome {
        UpdateOutcome::Updated(l) => Ok(l),
        UpdateOutcome::Fault(_) => Err(ApiError::Internal),
    }
}

} // verus!
