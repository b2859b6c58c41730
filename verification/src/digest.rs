//! The three message digests a fingerprint is made of.
//!
//! The digest algorithms themselves are not verified here: each one is named by
//! a specification function without a body, and a thin wrapper around the
//! implementing crate is trusted to compute it.

use sha2::Digest;
use vstd::prelude::*;

verus! {

/// Longest input, in bytes, that the SHA-2 hashers accept: they count the
/// message length in bits in a 64-bit counter.
pub const SHA2_INPUT_LIMIT: u64 = 0x2000_0000_0000_0000;

/// The MD5 digest of `data`.
pub uninterp spec fn md5_digest(data: Seq<u8>) -> [u8; 16];

/// The SHA-224 digest of `data`.
pub uninterp spec fn sha224_digest(data: Seq<u8>) -> [u8; 28];

/// The SHA-256 digest of `data`.
pub uninterp spec fn sha256_digest(data: Seq<u8>) -> [u8; 32];

/// Calls `md5::compute`. Trusted: the sixteen bytes returned are a function of
/// the input bytes alone, which `md5_digest` names.
#[verifier::external_body]
pub(crate) fn md5_bytes(data: &[u8]) -> (digest: [u8; 16])
    ensures
        digest == md5_digest(data@),
{
    md5::compute(data).0
}

/// Feeds `data` to a fresh `sha2::Sha224` hasher and finalizes it. Trusted: the
/// twenty-eight bytes returned are a function of the input bytes alone, which
/// `sha224_digest` names. The length bound keeps the hasher's bit counter from
/// overflowing.
#[verifier::external_body]
pub(crate) fn sha224_bytes(data: &[u8]) -> (digest: [u8; 28])
    requires
        data@.len() < SHA2_INPUT_LIMIT,
    ensures
        digest == sha224_digest(data@),
{
    sha2::Sha224::new().chain(data).finalize().into()
}

/// Feeds `data` to a fresh `sha2::Sha256` hasher and finalizes it. Trusted: the
/// thirty-two bytes returned are a function of the input bytes alone, which
/// `sha256_digest` names. The length bound keeps the hasher's bit counter from
/// overflowing.
#[verifier::external_body]
pub(crate) fn sha256_bytes(data: &[u8]) -> (digest: [u8; 32])
    requires
        data@.len() < SHA2_INPUT_LIMIT,
    ensures
        digest == sha256_digest(data@),
{
    sha2::Sha256::new().chain(data).finalize().into()
}

} // verus!
