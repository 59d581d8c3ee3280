//! The data model: links, click events, derived statistics, and the settings
//! record holding the hashed shared secret.

use vstd::prelude::*;

verus! {

/// A short link: a URL-safe id and the canonicalized URL it points at.
///
/// The id is the store's primary key, globally unique and immutable once
/// created; the target may later be changed in place by the update workflow.
pub struct Link {
    pub id: String,
    pub target_url: String,
}

/// The body of a creation or update request: the raw target URL as the client
/// sent it, not yet validated or canonicalized.
pub struct LinkTarget {
    pub target_url: String,
}

/// One observed resolution of a link. `link_id` is a weak reference: the event
/// is never validated against the existence of the link before it is written.
/// Both headers are optional and carried verbatim.
pub struct LinkClickEvent {
    pub link_id: String,
    pub referer: Option<String>,
    pub user_agent: Option<String>,
}

/// One row of the statistics read path: how often a link was resolved with a
/// given `(referer, user_agent)` pair. Derived by the store's grouped count,
/// never persisted.
pub struct CountedLinkStatistic {
    pub amount: Option<i64>,
    pub referer: Option<String>,
    pub user_agent: Option<String>,
}

/// The process-wide configuration record: a one-way hash digest of the
/// authorized secret, re-read from the store on every authentication check so
/// that rotation takes effect without restart.
pub struct Setting {
    pub id: String,
    pub encrypted_global_api_key: String,
}

} // verus!
