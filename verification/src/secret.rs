//! The secret gate: every mutating endpoint re-validates a caller-supplied
//! credential against the stored, hashed secret before the request may
//! proceed. Authentication state is never cached across requests.

use vstd::prelude::*;
use crate::errors::ApiError;
use crate::links::Setting;
use crate::store::StoreFault;

verus! {

/// The lowercase hex encoding of the 256-bit SHA3 digest of a credential,
/// a function of the credential's characters alone.
pub uninterp spec fn sha3_256_hex(s: Seq<char>) -> Seq<char>;

/// Relies on sha3::Sha3_256 (via the Digest trait: new, update, finalize)
/// over the credential's UTF-8 bytes, and on lowercase hex formatting of the
/// digest: the digest is 32 bytes, so its hex form is 64 characters, and it
/// depends on the input alone.
#[verifier::external_body]
fn hash_credential(key: &str) -> (r: String)
    ensures
        r@ == sha3_256_hex(key@),
        r@.len() == 64,
{
    let mut hasher = <sha3::Sha3_256 as sha3::Digest>::new();
    sha3::Digest::update(&mut hasher, key.as_bytes());
    let digest = sha3::Digest::finalize(hasher);
    format!("{digest:x}")
}

/// The decision on the credential header, prior to any store access.
pub enum GateStep {
    /// Answer immediately; the stored secret is never fetched.
    Deny(ApiError),
    /// A credential is present: fetch the settings record, then have
    /// `verify_credential` compare.
    CheckKey { api_key: String },
}

/// Inspects the credential header of a mutating request. A missing header is
/// refused outright — the request never reaches the store — and only a
/// present credential advances to the settings fetch.
pub fn gate_request(header: Option<String>) -> (r: GateStep)
    ensures
        header is None ==> r == GateStep::Deny(ApiError::Unauthorized),
        header matches Some(k) ==> r == (GateStep::CheckKey { api_key: k }),
{
    match header {
        None => GateStep::Deny(ApiError::Unauthorized),
        Some(k) => GateStep::CheckKey { api_key: k },
    }
}

/// Compares the supplied credential against the fetched settings record: the
/// request proceeds exactly when the hex-encoded digest of the credential
/// equals the stored hash, a mismatch is `Unauthorized`, and a store timeout
/// or failure is `Internal` — the caller must not be told "unauthorized" when
/// the real cause was a dependency outage.
pub fn verify_credential(api_key: &str, fetched: &Result<Setting, StoreFault>) -> (r: Result<
    (),
    ApiError,
>)
    ensures
        fetched matches Ok(s) ==> (r is Ok <==> s.encrypted_global_api_key@ == sha3_256_hex(
            api_key@,
        )),
        fetched matches Ok(s) && s.encrypted_global_api_key@ != sha3_256_hex(api_key@) ==> r
            == Err::<(), ApiError>(ApiError::Unauthorized),
        fetched is Err ==> r == Err::<(), ApiError>(ApiError::Internal),
{
    match fetched {
        Err(_) => Err(ApiError::Internal),
        Ok(s) => {
            let supplied = hash_credential(api_key);
            if s.encrypted_global_api_key == supplied {
                Ok(())
            } else {
                Err(ApiError::Unauthorized)
            }
        },
    }
}

} // verus!
