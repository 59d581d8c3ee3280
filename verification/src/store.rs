//! Typed outcomes of the timeout-bounded store operations.
//!
//! The backing store is an external collaborator: the surrounding process
//! issues each operation under a fixed time budget and hands the library the
//! outcome as one of these values. A timeout is treated identically to a
//! store-reported failure — abandoned, never retried by the accessor itself.

use vstd::prelude::*;
use crate::links::Link;

verus! {

/// The time budget, in milliseconds, of every single store operation:
/// lookup, insert, update and grouped count alike.
pub const STORE_TIMEOUT_MILLIS: u64 = 300;

/// Why a store operation yielded no usable row: it ran past the time budget,
/// or the store itself reported a failure. Both map to `ApiError::Internal`.
#[derive(Clone, Copy, Debug, PartialEq, Eq, Structural)]
pub enum StoreFault {
    TimedOut,
    Failed,
}

/// Outcome of inserting a candidate link under the uniqueness constraint on
/// its id. Only `DuplicateId` — the store's uniqueness violation — is
/// retryable; any other failure is terminal.
pub enum InsertOutcome {
    /// The row was persisted; the store returned it.
    Inserted(Link),
    /// The store reported a uniqueness violation on the candidate id.
    DuplicateId,
    /// Timeout or unclassified store failure.
    Fault(StoreFault),
}

/// Outcome of a point lookup by id. An absent row is not an error.
pub enum LookupOutcome {
    Found(Link),
    Absent,
    Fault(StoreFault),
}

/// Outcome of updating a link's target in place. The store gives no distinct
/// "no row matched" signal: that case surfaces as a plain fault.
pub enum UpdateOutcome {
    Updated(Link),
    Fault(StoreFault),
}

/// Outcome of the fire-and-forget click-event insert. Observed only for
/// logging; it never reaches the redirect response.
#[derive(Clone, Copy, Debug, PartialEq, Eq, Structural)]
pub enum WriteOutcome {
    Written,
    Fault(StoreFault),
}

/// What the store's uniqueness constraint guarantees of an insert outcome,
/// with `ids` the set of short ids the store holds at that moment and
/// `target` the canonicalized URL handed to the insert: a row is persisted
/// exactly as given and only when its id is free, and a duplicate is reported
/// only when the id is indeed taken. This is the sole correctness mechanism
/// for id collisions — no application-level locking is layered on top.
pub open spec fn store_reports(
    ids: Set<Seq<char>>,
    candidate: Seq<char>,
    target: Seq<char>,
    outcome: InsertOutcome,
) -> bool {
    match outcome {
        InsertOutcome::Inserted(l) => l.id@ == candidate && l.target_url@ == target
            && !ids.contains(candidate),
        InsertOutcome::DuplicateId => ids.contains(candidate),
        InsertOutcome::Fault(_) => true,
    }
}

} // verus!
