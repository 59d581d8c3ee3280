use link_shortener::creation::{CreationFlow, CreationStep, MAX_ATTEMPTS};
use link_shortener::errors::ApiError;
use link_shortener::idgen::generate_id;
use link_shortener::links::{Link, LinkTarget};
use link_shortener::store::{InsertOutcome, StoreFault, UpdateOutcome};
use link_shortener::update::{begin_update, finish_update};

use base64::Engine;

fn flow_for(url: &str) -> CreationFlow {
    match CreationFlow::begin(&LinkTarget { target_url: String::from(url) }) {
        Ok(f) => f,
        Err(_) => panic!("expected a valid URL"),
    }
}

#[test]
fn creation_canonicalizes_target() {
    let f = flow_for("https://EXAMPLE.com");
    assert_eq!(f.canonical_url, "https://example.com/");
    assert_eq!(f.attempts_made, 0);
}

#[test]
fn creation_rejects_malformed_url() {
    let r = CreationFlow::begin(&LinkTarget { target_url: String::from("not a url") });
    assert!(matches!(r, Err(ApiError::InvalidInput)));
}

#[test]
fn creation_returns_persisted_link_at_once() {
    let f = flow_for("https://example.com/page");
    let persisted = Link {
        id: String::from("abc"),
        target_url: f.canonical_url.clone(),
    };
    match f.absorb(InsertOutcome::Inserted(persisted)) {
        CreationStep::Done(l) => {
            assert_eq!(l.id, "abc");
            assert_eq!(l.target_url, "https://example.com/page");
        }
        _ => panic!("a persisted row must end the workflow"),
    }
}

#[test]
fn creation_exhausts_after_three_collisions() {
    assert_eq!(MAX_ATTEMPTS, 3);
    let f = flow_for("https://example.com");
    let f = match f.absorb(InsertOutcome::DuplicateId) {
        CreationStep::Retry(f) => f,
        _ => panic!("first collision must retry"),
    };
    assert_eq!(f.attempts_made, 1);
    let f = match f.absorb(InsertOutcome::DuplicateId) {
        CreationStep::Retry(f) => f,
        _ => panic!("second collision must retry"),
    };
    assert_eq!(f.attempts_made, 2);
    match f.absorb(InsertOutcome::DuplicateId) {
        CreationStep::Fail(ApiError::Exhausted) => {}
        CreationStep::Fail(_) => panic!("the third collision must be Exhausted, not Internal"),
        _ => panic!("the third collision must be terminal"),
    }
}

#[test]
fn creation_aborts_on_store_fault() {
    let f = flow_for("https://example.com");
    match f.absorb(InsertOutcome::Fault(StoreFault::TimedOut)) {
        CreationStep::Fail(ApiError::Internal) => {}
        _ => panic!("a timeout is terminal and Internal; only conflicts are retried"),
    }
    let f = flow_for("https://example.com");
    match f.absorb(InsertOutcome::Fault(StoreFault::Failed)) {
        CreationStep::Fail(ApiError::Internal) => {}
        _ => panic!("a store failure is terminal and Internal"),
    }
}

#[test]
fn collision_retry_diverges_after_identical_candidates() {
    // Two creations racing with an identical generation seed: the store
    // accepts the first "same" candidate and reports a duplicate to the
    // second, which retries and persists a diverging candidate.
    let first = flow_for("https://example.com/a");
    let id1 = match first.absorb(InsertOutcome::Inserted(Link {
        id: String::from("same"),
        target_url: String::from("https://example.com/a"),
    })) {
        CreationStep::Done(l) => l.id,
        _ => panic!("first insert succeeds"),
    };
    let second = flow_for("https://example.com/b");
    let second = match second.absorb(InsertOutcome::DuplicateId) {
        CreationStep::Retry(f) => f,
        _ => panic!("the duplicate must be retried"),
    };
    let id2 = match second.absorb(InsertOutcome::Inserted(Link {
        id: String::from("diverged"),
        target_url: String::from("https://example.com/b"),
    })) {
        CreationStep::Done(l) => l.id,
        _ => panic!("second insert succeeds on the fresh candidate"),
    };
    assert_ne!(id1, id2);
}

#[test]
fn generated_id_is_compact_urlsafe_base64_of_a_decimal_u32() {
    for _ in 0..50 {
        let id = generate_id();
        assert!(2 <= id.len() && id.len() <= 14);
        assert!(id
            .chars()
            .all(|c| c.is_ascii_alphanumeric() || c == '-' || c == '_'));
        let bytes = base64::engine::general_purpose::URL_SAFE_NO_PAD
            .decode(id.as_bytes())
            .expect("a candidate id is URL-safe base64 without padding");
        assert_eq!(id.len(), (4 * bytes.len() + 2) / 3);
        let decimal = String::from_utf8(bytes).expect("the payload is ASCII decimal");
        let n: u32 = decimal.parse().expect("the payload is a 32-bit integer");
        assert!(n < u32::MAX);
        assert_eq!(decimal, n.to_string());
    }
}

#[test]
fn update_rejects_malformed_url() {
    let r = begin_update(&LinkTarget { target_url: String::from("not a url") });
    assert!(matches!(r, Err(ApiError::InvalidInput)));
}

#[test]
fn update_canonicalizes_target() {
    let r = begin_update(&LinkTarget { target_url: String::from("HTTPS://Example.com/Path") });
    assert_eq!(r.ok().unwrap(), "https://example.com/Path");
}

#[test]
fn update_passes_the_stored_row_through() {
    let row = Link {
        id: String::from("abc"),
        target_url: String::from("https://example.com/new"),
    };
    match finish_update(UpdateOutcome::Updated(row)) {
        Ok(l) => {
            assert_eq!(l.id, "abc");
            assert_eq!(l.target_url, "https://example.com/new");
        }
        Err(_) => panic!("an updated row is returned as-is"),
    }
}

#[test]
fn update_fault_is_internal() {
    match finish_update(UpdateOutcome::Fault(StoreFault::TimedOut)) {
        Err(ApiError::Internal) => {}
        _ => panic!("an update fault, unknown id included, surfaces as Internal"),
    }
}
