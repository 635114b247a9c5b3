//! Decoding a candidate token and computing its verdict.

use vstd::prelude::*;

use jsonwebtoken::{decode, Algorithm, DecodingKey, Validation};

use crate::claims::{claims_verdict, expected_audience, expected_issuer, Claims};
use crate::verdict::AuthResult;

verus! {

/// What `core::str::from_utf8` decodes from the given bytes: the text when
/// they are valid UTF-8, nothing otherwise. A function of the bytes alone.
pub uninterp spec fn utf8_decode(bytes: Seq<u8>) -> Option<Seq<char>>;

/// What `jsonwebtoken::decode`, run with HS256, the compiled-in shared
/// secret and no claim validation, extracts from the given token text: the
/// payload's subject, expiration, audience and issuer, in that order, when
/// the token parses, its signature verifies under the secret, and the four
/// claims are present with their expected JSON types; nothing otherwise. A
/// function of the token text alone.
pub uninterp spec fn signed_claims(token: Seq<char>) -> Option<(Seq<char>, u64, Seq<char>, Seq<char>)>;

/// Relies on `core::str::from_utf8`: it succeeds exactly on valid UTF-8,
/// and the decoded text depends on the bytes alone.
#[verifier::external_body]
fn decode_utf8(bytes: &[u8]) -> (r: Option<&str>)
    ensures
        r is Some <==> utf8_decode(bytes@) is Some,
        r matches Some(t) ==> t@ == utf8_decode(bytes@).unwrap(),
{
    core::str::from_utf8(bytes).ok()
}

/// Relies on `jsonwebtoken::decode` with `Algorithm::HS256`, the
/// compiled-in shared secret, and a `Validation` whose claim checks are all
/// switched off, so that only the token's structure and signature decide;
/// and on `serde_json::Value`'s accessors to read the four claims out of
/// the decoded payload. The outcome depends on the token text alone.
#[verifier::external_body]
fn decode_signed(token: &str) -> (r: Option<Claims>)
    ensures
        r is Some <==> signed_claims(token@) is Some,
        r matches Some(c) ==> c@ == signed_claims(token@).unwrap(),
{
    let key = DecodingKey::from_secret(b"super-secret-key");
    let mut checks = Validation::new(Algorithm::HS256);
    checks.validate_exp = false;
    checks.validate_aud = false;
    checks.required_spec_claims.clear();
    let c = decode::<serde_json::Value>(token, &key, &checks).ok()?.claims;
    let sub = c.get("sub")?.as_str()?.to_owned();
    let exp = c.get("exp")?.as_u64()?;
    let aud = c.get("aud")?.as_str()?.to_owned();
    let iss = c.get("iss")?.as_str()?.to_owned();
    Some(Claims { sub, exp, aud, iss })
}

/// Relies on `jsonwebtoken::get_current_timestamp`: whole seconds since the
/// Unix epoch at the moment of the call. The clock decides the value, so
/// nothing is promised of it; it aborts if the system clock is set before
/// the epoch.
#[verifier::external_body]
fn timestamp_now() -> (r: u64) {
    jsonwebtoken::get_current_timestamp()
}

/// The verdict owed to the byte region `bytes` when judged at time `now`:
/// `Invalid` when the bytes are not UTF-8 or the text is not a token whose
/// signature verifies; otherwise the judgement of the signed claims —
/// `Expired` before anything else, then audience and issuer.
pub open spec fn verdict_of(bytes: Seq<u8>, now: u64) -> AuthResult {
    match utf8_decode(bytes) {
        None => AuthResult::Invalid,
        Some(token) => match signed_claims(token) {
            None => AuthResult::Invalid,
            Some(c) => claims_verdict(c, now),
        },
    }
}

/// Decide the verdict for `bytes` as of time `now` (whole seconds since the
/// Unix epoch). Pure: the verdict is a function of the bytes and the time
/// alone.
pub fn verify_token_at(bytes: &[u8], now: u64) -> (r: AuthResult)
    ensures
        r == verdict_of(bytes@, now),
{
    let token = match decode_utf8(bytes) {
        Some(t) => t,
        None => {
            return AuthResult::Invalid;
        },
    };
    let claims = match decode_signed(token) {
        Some(c) => c,
        None => {
            return AuthResult::Invalid;
        },
    };
    crate::claims::check_claims(&claims, now)
}

/// Decide the verdict for `bytes` as of the moment of the call.
pub fn verify_token(bytes: &[u8]) -> (r: AuthResult)
    ensures
        exists|now: u64| r == verdict_of(bytes@, now),
        utf8_decode(bytes@) is None ==> r == AuthResult::Invalid,
        (utf8_decode(bytes@) matches Some(token) && signed_claims(token) is None)
            ==> r == AuthResult::Invalid,
{
    let now = timestamp_now();
    verify_token_at(bytes, now)
}

/// Bytes that are not valid UTF-8 are judged `Invalid`, at every time; no
/// cryptographic work enters into it.
pub proof fn lemma_non_utf8_invalid(bytes: Seq<u8>, now: u64)
    requires
        utf8_decode(bytes) is None,
    ensures
        verdict_of(bytes, now) == AuthResult::Invalid,
{
}

/// A signed token whose expiration timestamp is in the past is judged
/// `Expired`, never merely `Invalid`, whatever its audience and issuer
/// hold: expiration takes precedence.
pub proof fn lemma_expired_precedence(bytes: Seq<u8>, now: u64)
    requires
        utf8_decode(bytes) is Some,
        signed_claims(utf8_decode(bytes).unwrap()) is Some,
        signed_claims(utf8_decode(bytes).unwrap()).unwrap().1 < now,
    ensures
        verdict_of(bytes, now) == AuthResult::Expired,
{
}

/// A signed, unexpired token whose audience or issuer is not the expected
/// one is judged `Invalid`.
pub proof fn lemma_claim_mismatch_invalid(bytes: Seq<u8>, now: u64)
    requires
        utf8_decode(bytes) is Some,
        signed_claims(utf8_decode(bytes).unwrap()) is Some,
        now <= signed_claims(utf8_decode(bytes).unwrap()).unwrap().1,
        signed_claims(utf8_decode(bytes).unwrap()).unwrap().2 != expected_audience()
            || signed_claims(utf8_decode(bytes).unwrap()).unwrap().3 != expected_issuer(),
    ensures
        verdict_of(bytes, now) == AuthResult::Invalid,
{
}

/// A signed token with a present or future expiration and the expected
/// audience and issuer is judged `Valid`.
pub proof fn lemma_accepted(bytes: Seq<u8>, now: u64)
    requires
        utf8_decode(bytes) is Some,
        signed_claims(utf8_decode(bytes).unwrap()) is Some,
        now <= signed_claims(utf8_decode(bytes).unwrap()).unwrap().1,
        signed_claims(utf8_decode(bytes).unwrap()).unwrap().2 == expected_audience(),
        signed_claims(utf8_decode(bytes).unwrap()).unwrap().3 == expected_issuer(),
    ensures
        verdict_of(bytes, now) == AuthResult::Valid,
{
}

/// Verification is deterministic and side-effect-free: two judgements of
/// the same bytes at the same moment agree.
pub proof fn lemma_verify_deterministic(bytes: Seq<u8>, now: u64, r1: AuthResult, r2: AuthResult)
    requires
        r1 == verdict_of(bytes, now),
        r2 == verdict_of(bytes, now),
    ensures
        r1 == r2,
{
}

} // verus!
