//! Secret hashing utilities.
//!
//! Two hash families with different trust/performance tradeoffs: a fast
//! deterministic digest for high-volume session-token lookups, and a slow
//! salted hash for low-volume, high-value API keys. Both live in outside
//! crates; their results are named here and every contract above speaks
//! of those names.

use vstd::prelude::*;

use sha2::Digest;

verus! {

/// The lowercase hex rendering of the SHA-256 digest of a string. The
/// digest is a function of the input characters alone.
pub uninterp spec fn sha256_hex_of(s: Seq<char>) -> Seq<char>;

/// Whether bcrypt's check of `secret` against `hash` succeeds: bcrypt
/// re-derives the hash from `secret` and the cost and salt encoded in
/// `hash`, so the outcome is a function of the two arguments alone
/// (malformed hashes are rejected).
pub uninterp spec fn bcrypt_accepts(secret: Seq<char>, hash: Seq<char>) -> bool;

/// Relies on sha2::Sha256: a deterministic, collision-resistant digest of
/// the input bytes, rendered as 64 lowercase hex digits (two per digest
/// byte).
#[verifier::external_body]
pub fn digest(secret: &str) -> (r: String)
    ensures
        r@ == sha256_hex_of(secret@),
        r@.len() == 64,
{
    let mut hasher = sha2::Sha256::new();
    hasher.update(secret.as_bytes());
    format!("{:x}", hasher.finalize())
}

/// Relies on bcrypt::hash with the default cost: it salts with fresh OS
/// randomness (so two calls on one input differ), and the hash it returns
/// verifies against the hashed secret. Fails only if OS randomness is
/// unavailable.
#[verifier::external_body]
pub fn salted_hash(secret: &str) -> (r: Option<String>)
    ensures
        (r matches Some(h) ==> bcrypt_accepts(secret@, h@)),
{
    match bcrypt::hash(secret, bcrypt::DEFAULT_COST) {
        Ok(h) => Some(h),
        Err(_) => None,
    }
}

/// Relies on bcrypt::verify: the constant-work check of a secret against
/// a stored salted hash; an unparsable hash is treated as a mismatch.
#[verifier::external_body]
pub fn verify(secret: &str, hash: &str) -> (r: bool)
    ensures
        r == bcrypt_accepts(secret@, hash@),
{
    bcrypt::verify(secret, hash).unwrap_or(false)
}

} // verus!
