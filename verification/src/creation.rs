//! The creation workflow: validate and canonicalize the target URL, then try
//! to persist a fresh candidate id under the store's uniqueness constraint,
//! retrying a uniqueness conflict at most `MAX_ATTEMPTS` times in all.
//!
//! The surrounding process drives the loop: it draws a candidate with
//! `crate::idgen::generate_id`, issues the timeout-bounded insert, and hands
//! the typed outcome back to `CreationFlow::absorb`, which decides whether
//! the workflow is done, retries, or fails.

use vstd::prelude::*;
use crate::errors::ApiError;
use crate::links::{Link, LinkTarget};
use crate::store::{store_reports, InsertOutcome};
use crate::urlnorm::{canonical_url, validate_target_url};

verus! {

/// The retry budget: a creation makes exactly this many insert attempts
/// before it gives up with `Exhausted`.
pub const MAX_ATTEMPTS: u8 = 3;

/// A creation in progress: the canonical URL to persist and how many insert
/// attempts have already ended in a uniqueness conflict.
pub struct CreationFlow {
    pub canonical_url: String,
    pub attempts_made: u8,
}

/// What the workflow does after an insert attempt.
pub enum CreationStep {
    /// The store persisted the row; the workflow returns it at once.
    Done(Link),
    /// The candidate id collided; draw a fresh one and try again.
    Retry(CreationFlow),
    /// Terminal: `Internal` on any store fault, `Exhausted` when the whole
    /// retry budget ended in conflicts — a signal that the id space is too
    /// small for the load, not a transient dependency fault.
    Fail(ApiError),
}

impl CreationFlow {
    /// A flow is live while it may still issue an insert attempt.
    pub open spec fn wf(self) -> bool {
        self.attempts_made < MAX_ATTEMPTS
    }

    /// Starts a creation: rejects a malformed target with `InvalidInput`
    /// before any store access, and otherwise carries the canonicalized URL
    /// into the retry loop with a full budget.
    pub fn begin(target: &LinkTarget) -> (r: Result<CreationFlow, ApiError>)
        ensures
            r is Ok <==> canonical_url(target.target_url@) is Some,
            r matches Ok(f) ==> f.wf() && f.attempts_made == 0 && canonical_url(
                target.target_url@,
            ) == Some(f.canonical_url@),
            r is Err ==> r == Err::<CreationFlow, ApiError>(ApiError::InvalidInput),
    {
        match validate_target_url(target) {
            Ok(c) => Ok(CreationFlow { canonical_url: c, attempts_made: 0 }),
            Err(e) => Err(e),
        }
    }

    /// The decision taken on an insert outcome: success returns the persisted
    /// link at once; only a uniqueness conflict is retried, and only while
    /// budget remains; any other failure aborts as `Internal`; a conflict on
    /// the last attempt ends as `Exhausted`, never `Internal`.
    pub open spec fn absorb_spec(self, outcome: InsertOutcome) -> CreationStep {
        match outcome {
            InsertOutcome::Inserted(l) => CreationStep::Done(l),
            InsertOutcome::Fault(_) => CreationStep::Fail(ApiError::Internal),
            InsertOutcome::DuplicateId => if self.attempts_made + 1 < MAX_ATTEMPTS {
                CreationStep::Retry(
                    CreationFlow {
                        canonical_url: self.canonical_url,
                        attempts_made: (self.attempts_made + 1) as u8,
                    },
                )
            } else {
                CreationStep::Fail(ApiError::Exhausted)
            },
        }
    }

    /// Absorbs the outcome of one insert attempt.
    pub fn absorb(self, outcome: InsertOutcome) -> (r: CreationStep)
        requires
            self.wf(),
        ensures
            r == self.absorb_spec(outcome),
            r matches CreationStep::Retry(f) ==> f.wf() && f.canonical_url@
                == self.canonical_url@,
    {
        match outcome {
            InsertOutcome::Inserted(l) => CreationStep::Done(l),
            InsertOutcome::Fault(_) => CreationStep::Fail(ApiError::Internal),
            InsertOutcome::DuplicateId => {
                let made = self.attempts_made + 1;
                if made < MAX_ATTEMPTS {
                    CreationStep::Retry(
                        CreationFlow { canonical_url: self.canonical_url, attempts_made: made },
                    )
                } else {
                    CreationStep::Fail(ApiError::Exhausted)
                }
            },
        }
    }
}

/// A run whose three attempts all end in a uniqueness conflict fails with
/// `Exhausted` — the terminal kind distinct from `Internal` — and with
/// nothing else.
pub proof fn lemma_exhausted_after_three_collisions(flow: CreationFlow)
    requires
        flow.attempts_made == 0,
    ensures
        flow.absorb_spec(InsertOutcome::DuplicateId) matches CreationStep::Retry(f1)
            && f1.absorb_spec(InsertOutcome::DuplicateId) matches CreationStep::Retry(f2)
            && f2.absorb_spec(InsertOutcome::DuplicateId) == CreationStep::Fail(
            ApiError::Exhausted,
        ),
{
}

/// Collision-retry correctness: two creations that both persist a row — the
/// second against a store that already holds the first row's id — end with
/// distinct ids, however their candidate ids were drawn, even from an
/// identical seed. The store's uniqueness constraint, not any in-process
/// state, is what forces the second run onto a diverging candidate.
pub proof fn lemma_persisted_ids_distinct(
    ids: Set<Seq<char>>,
    c1: Seq<char>,
    t1: Seq<char>,
    l1: Link,
    c2: Seq<char>,
    t2: Seq<char>,
    l2: Link,
)
    requires
        store_reports(ids, c1, t1, InsertOutcome::Inserted(l1)),
        store_reports(ids.insert(l1.id@), c2, t2, InsertOutcome::Inserted(l2)),
    ensures
        l1.id@ != l2.id@,
{
    assert(ids.insert(l1.id@).contains(l1.id@));
}

} // verus!
