//! The redirect workflow: resolve a short id to its target within the time
//! budget, record the click best-effort, and answer with a cacheable
//! temporary redirect.

use vstd::prelude::*;
use vstd::string::*;
use crate::errors::ApiError;
use crate::links::{Link, LinkClickEvent};
use crate::store::{store_reports, InsertOutcome, LookupOutcome, WriteOutcome};
use crate::urlnorm::canonical_url;

verus! {

/// How long, in seconds, shared caches may serve the redirect, including
/// stale-while-revalidate and stale-if-error: transient backend failures on
/// later requests are masked by edge caching of prior successful redirects.
pub const CACHE_SECONDS: u64 = 300;

/// The redirect answer: a temporary-redirect status, the stored target as
/// the `Location` header, and the fixed cache-control directive.
pub struct RedirectResponse {
    pub status: u16,
    pub location: String,
    pub cache_control: String,
}

/// The cache-control directive sent with every successful redirect.
pub open spec fn cache_control_spec() -> Seq<char> {
    "public, max-age=300, s-maxage=300, stale-while-revalidate=300, stale-if-error=300"@
}

/// Where a resolved link redirects to: its stored target, nothing else.
pub open spec fn redirect_location_spec(l: Link) -> Seq<char> {
    l.target_url@
}

/// The whole redirect answer — status, location, cache directive — as a
/// function of the resolved link alone. That the click write's outcome is no
/// argument here is the decoupling the redirect promises: a failed or
/// timed-out write cannot alter the response.
pub open spec fn redirect_response_spec(l: Link) -> (u16, Seq<char>, Seq<char>) {
    (307u16, redirect_location_spec(l), cache_control_spec())
}

/// What the workflow does once the lookup outcome is in.
pub enum RedirectStep {
    /// The link exists: write this click event (best-effort), then answer
    /// with `finish_redirect`.
    RecordClick { link: Link, event: LinkClickEvent },
    /// No click event is written: `NotFound` for an absent row, `Internal`
    /// for a store fault.
    Respond(ApiError),
}

/// Decides on the lookup outcome. An unknown id answers `NotFound` and
/// records nothing; a fault answers `Internal` and records nothing; only a
/// resolved link proceeds to the click write, whose event carries the
/// requested id and the two optional headers verbatim.
pub fn redirect_lookup_step(
    requested: &str,
    lookup: LookupOutcome,
    referer: Option<String>,
    user_agent: Option<String>,
) -> (r: RedirectStep)
    ensures
        lookup matches LookupOutcome::Found(l) ==> r matches RedirectStep::RecordClick {
            link,
            event,
        } && link == l && event.link_id@ == requested@ && event.referer == referer
            && event.user_agent == user_agent,
        lookup is Absent ==> r == RedirectStep::Respond(ApiError::NotFound),
        lookup is Fault ==> r == RedirectStep::Respond(ApiError::Internal),
{
    match lookup {
        LookupOutcome::Found(l) => RedirectStep::RecordClick {
            link: l,
            event: LinkClickEvent {
                link_id: String::from_str(requested),
                referer,
                user_agent,
            },
        },
        LookupOutcome::Absent => RedirectStep::Respond(ApiError::NotFound),
        LookupOutcome::Fault(_) => RedirectStep::Respond(ApiError::Internal),
    }
}

/// Builds the redirect answer for a resolved link. The click write's outcome
/// is taken only to be observed for logging: every field of the response is
/// pinned by the link alone, so a failed or timed-out write yields the very
/// response a successful one does.
pub fn finish_redirect(link: &Link, click_write: &WriteOutcome) -> (r: RedirectResponse)
    ensures
        r.status == redirect_response_spec(*link).0,
        r.location@ == redirect_response_spec(*link).1,
        r.cache_control@ == redirect_response_spec(*link).2,
{
    RedirectResponse {
        status: 307,
        location: link.target_url.clone(),
        cache_control: String::from_str(
            "public, max-age=300, s-maxage=300, stale-while-revalidate=300, stale-if-error=300",
        ),
    }
}

/// Round trip: a target URL accepted by creation is persisted in its
/// canonicalized form, and a redirect that later resolves the persisted row
/// points `Location` — `redirect_location_spec`, which `finish_redirect`
/// answers with — at exactly that canonicalized URL.
pub proof fn lemma_create_then_redirect_round_trip(
    target: Seq<char>,
    canonical: Seq<char>,
    ids: Set<Seq<char>>,
    candidate: Seq<char>,
    l: Link,
)
    requires
        canonical_url(target) == Some(canonical),
        store_reports(ids, candidate, canonical, InsertOutcome::Inserted(l)),
    ensures
        redirect_location_spec(l) == canonical,
{
}

} // verus!
