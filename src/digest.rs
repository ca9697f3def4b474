//! SHA-256 and Keccak-256 digests, rendered as lowercase hexadecimal.
use sha2::Digest;
use vstd::prelude::*;

use crate::hex::{encode, hex_of};

verus! {

/// The SHA-256 digest of a byte sequence.
pub uninterp spec fn sha256_of(b: Seq<u8>) -> Seq<u8>;

/// The Keccak-256 digest of a byte sequence.
pub uninterp spec fn keccak256_of(b: Seq<u8>) -> Seq<u8>;

/// Relies on `sha2::Sha256::digest`: the 32-byte SHA-256 digest, a function of the input alone.
#[verifier::external_body]
pub(crate) fn sha256_bytes(b: &[u8]) -> (r: Vec<u8>)
    ensures
        r@ == sha256_of(b@),
        r@.len() == 32,
{
    sha2::Sha256::digest(b).to_vec()
}

/// Relies on `sha3::Keccak256::digest`: the 32-byte Keccak-256 digest, a function of the input alone.
#[verifier::external_body]
fn keccak256_bytes(b: &[u8]) -> (r: Vec<u8>)
    ensures
        r@ == keccak256_of(b@),
        r@.len() == 32,
{
    sha3::Keccak256::digest(b).to_vec()
}

/// The two digest algorithms.
#[derive(Debug, Clone, Copy, PartialEq, Eq, Structural)]
pub enum Algorithm {
    Sha256,
    Keccak256,
}

/// The digest bytes of `b` under `alg`.
pub open spec fn digest_of(alg: Algorithm, b: Seq<u8>) -> Seq<u8> {
    match alg {
        Algorithm::Sha256 => sha256_of(b),
        Algorithm::Keccak256 => keccak256_of(b),
    }
}

/// The text that hashing `b` under `alg` produces.
pub open spec fn digest_text(alg: Algorithm, b: Seq<u8>) -> Seq<char> {
    hex_of(digest_of(alg, b))
}

/// Hashes `content` under `alg` and renders the 32-byte digest as 64 lowercase digits.
pub fn digest(alg: Algorithm, content: &[u8]) -> (r: String)
    ensures
        r@ == digest_text(alg, content@),
        r@.len() == 64,
{
    let d = match alg {
        Algorithm::Sha256 => sha256_bytes(content),
        Algorithm::Keccak256 => keccak256_bytes(content),
    };
    encode(d.as_slice())
}

/// Hashing is deterministic: equal inputs give equal digest texts.
pub proof fn lemma_digest_deterministic(alg: Algorithm, b1: Seq<u8>, b2: Seq<u8>)
    requires
        b1 == b2,
    ensures
        digest_text(alg, b1) == digest_text(alg, b2),
{
}

} // verus!
