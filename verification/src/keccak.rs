//! Keccak-256, as computed by the `sha3` crate.

use vstd::prelude::*;
use sha3::Digest;

verus! {

/// The Keccak-256 digest of `data`.
///
/// The digest is not defined here: it stands for whatever
/// `sha3::Keccak256` computes for the same bytes.
pub uninterp spec fn keccak256_digest(data: Seq<u8>) -> Seq<u8>;

/// Hashes `data` with `sha3::Keccak256::digest`.
///
/// Trusted: the 32 bytes returned are taken to be the Keccak-256 digest of
/// `data`, a function of the bytes alone.
#[verifier::external_body]
pub(crate) fn keccak256(data: &[u8]) -> (digest: [u8; 32])
    ensures
        digest@ == keccak256_digest(data@),
{
    sha3::Keccak256::digest(data).into()
}

} // verus!
