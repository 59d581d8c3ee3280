//! Short-id generation: a pseudo-random integer, written in decimal, encoded
//! with the URL-safe, padding-free base64 alphabet.
//!
//! No uniqueness check happens here — collisions are detected by the store's
//! uniqueness constraint and retried by the creation workflow. This keeps
//! generation stateless and constant-time.

use vstd::prelude::*;

verus! {

/// The ASCII decimal representation of `n`, most significant digit first.
pub open spec fn decimal_seq(n: nat) -> Seq<u8>
    decreases n,
{
    if n < 10 {
        seq![(n + 48) as u8]
    } else {
        decimal_seq(n / 10).push(((n % 10) + 48) as u8)
    }
}

/// Ten to the `k`th power.
pub open spec fn pow10(k: nat) -> nat
    decreases k,
{
    if k == 0 {
        1
    } else {
        10 * pow10((k - 1) as nat)
    }
}

/// The decimal representation of a 32-bit integer has at most ten digits.
proof fn lemma_decimal_seq_len(n: nat, k: nat)
    requires
        1 <= k,
        n < pow10(k),
    ensures
        1 <= decimal_seq(n).len() <= k,
    decreases k,
{
    if n < 10 {
    } else {
        assert(pow10(k) == 10 * pow10((k - 1) as nat));
        if k == 1 {
            assert(pow10(0) == 1);
        }
        vstd::arithmetic::div_mod::lemma_multiply_divide_lt(
            n as int,
            10,
            pow10((k - 1) as nat) as int,
        );
        lemma_decimal_seq_len(n / 10, (k - 1) as nat);
    }
}

/// Writes `n` in ASCII decimal, most significant digit first.
pub fn decimal_bytes(n: u32) -> (s: Vec<u8>)
    ensures
        s@ == decimal_seq(n as nat),
        1 <= s@.len() <= 10,
    decreases n,
{
    proof {
        reveal_with_fuel(pow10, 11);
        assert(pow10(10) == 10000000000);
        lemma_decimal_seq_len(n as nat, 10);
    }
    if n < 10 {
        let mut v: Vec<u8> = Vec::new();
        v.push((n as u8) + 48);
        proof {
            assert(v@ =~= decimal_seq(n as nat));
        }
        v
    } else {
        let mut v = decimal_bytes(n / 10);
        v.push(((n % 10) as u8) + 48);
        proof {
            assert(v@ =~= decimal_seq(n as nat));
        }
        v
    }
}

/// A pseudo-random integer drawn across the full positive 32-bit range.
///
/// Relies on rand::thread_rng and rand::Rng::gen_range over the non-empty
/// half-open range below u32::MAX: the draw always lies in that range.
/// Nothing more can be promised of a random value.
#[verifier::external_body]
fn random_below_u32_max() -> (r: u32)
    ensures
        r < u32::MAX,
{
    rand::Rng::gen_range(&mut rand::thread_rng(), 0..u32::MAX)
}

/// The URL-safe, padding-free base64 encoding of `b`, a function of the input
/// bytes alone.
pub uninterp spec fn b64url_of(b: Seq<u8>) -> Seq<char>;

/// A character of the URL-safe base64 alphabet: letters, digits, `-` and `_`.
pub open spec fn is_url_safe_char(c: char) -> bool {
    ('A' <= c && c <= 'Z') || ('a' <= c && c <= 'z') || ('0' <= c && c <= '9') || c == '-' || c
        == '_'
}

/// Relies on base64's URL_SAFE_NO_PAD engine: the encoding depends only on
/// the input bytes, its alphabet is `A-Z a-z 0-9 - _`, and without padding it
/// yields two output characters for a trailing byte, three for two trailing
/// bytes, and four per complete group of three — `(4 * len + 2) / 3`
/// characters in all.
#[verifier::external_body]
fn encode_url_safe(b: &Vec<u8>) -> (r: String)
    ensures
        r@ == b64url_of(b@),
        r@.len() == (4 * b@.len() + 2) / 3,
        forall|i: int| 0 <= i < r@.len() ==> is_url_safe_char(#[trigger] r@[i]),
{
    base64::Engine::encode(&base64::engine::general_purpose::URL_SAFE_NO_PAD, b.as_slice())
}

/// Produces a compact, URL-safe candidate id: some integer below u32::MAX,
/// written in decimal and base64-encoded without padding. Not guaranteed
/// unique — the creation workflow owns collision handling.
pub fn generate_id() -> (id: String)
    ensures
        exists|n: u32| n < u32::MAX && id@ == b64url_of(decimal_seq(n as nat)),
        2 <= id@.len() <= 14,
        forall|i: int| 0 <= i < id@.len() ==> is_url_safe_char(#[trigger] id@[i]),
{
    let n = random_below_u32_max();
    let digits = decimal_bytes(n);
    let id = encode_url_safe(&digits);
    proof {
        assert(n < u32::MAX && id@ == b64url_of(decimal_seq(n as nat)));
    }
    id
}

} // verus!
