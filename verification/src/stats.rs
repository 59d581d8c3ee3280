//! The statistics read path: the store's grouped count of click events for
//! one link, passed through unchanged. Read-only and idempotent; the secret
//! gate in front of it is its only side effect.

use vstd::prelude::*;
use crate::errors::ApiError;
use crate::links::CountedLinkStatistic;
use crate::store::StoreFault;

verus! {

/// Decides on the outcome of the grouped-count query: whatever rows the
/// store reported, exactly as reported — a link with no events yields the
/// empty list, never an error — and `Internal` only on a store fault.
pub fn finish_statistics(outcome: Result<Vec<CountedLinkStatistic>, StoreFault>) -> (r: Result<
    Vec<CountedLinkStatistic>,
    ApiError,
>)
    ensures
        outcome matches Ok(rows) ==> r matches Ok(got) && got == rows,
        (outcome matches Ok(rows) && rows@.len() == 0) ==> (r matches Ok(got) && got@.len()
            == 0),
        outcome is Err ==> r == Err::<Vec<CountedLinkStatistic>, ApiError>(ApiError::Internal),
{
    match outcome {
        Ok(rows) => Ok(rows),
        Err(_) => Err(ApiError::Internal),
    }
}

} // verus!
