//! Addresses: the SHA-256 digest of a 64-byte public key, or a 32-byte
//! address given again, rendered canonically as 64 lowercase digits.
use vstd::prelude::*;

use crate::digest::sha256_bytes;
use crate::error::CryptoError;
use crate::hex::{decode, encode, hex_bytes, hex_of, lemma_hex_round_trip};
use crate::keys::address_of;
use crate::output::{Output, OutputView, result_view};

verus! {

/// The canonical address that a text denotes: a 32-byte address is re-rendered,
/// a 64-byte public key is hashed; anything else is refused.
pub open spec fn address_result(t: Seq<char>) -> Result<Seq<char>, CryptoError> {
    match hex_bytes(t) {
        Some(b) => if b.len() == 32 {
            Ok(hex_of(b))
        } else if b.len() == 64 {
            Ok(hex_of(address_of(b)))
        } else {
            Err(CryptoError::InvalidFormat)
        },
        None => Err(CryptoError::InvalidFormat),
    }
}

/// A text in canonical address form: the lowercase digits of 32 bytes.
pub open spec fn is_canonical_address(t: Seq<char>) -> bool {
    exists|a: Seq<u8>| a.len() == 32 && t == hex_of(a)
}

/// The canonical address that `text` denotes.
pub fn derive_address(text: &str) -> (r: Result<String, CryptoError>)
    ensures
        match r {
            Ok(a) => address_result(text@) == Ok::<Seq<char>, CryptoError>(a@)
                && is_canonical_address(a@),
            Err(e) => address_result(text@) == Err::<Seq<char>, CryptoError>(e),
        },
{
    let b = match decode(text) {
        Some(b) => b,
        None => return Err(CryptoError::InvalidFormat),
    };
    if b.len() == 32 {
        Ok(encode(b.as_slice()))
    } else if b.len() == 64 {
        let a = sha256_bytes(b.as_slice());
        Ok(encode(a.as_slice()))
    } else {
        Err(CryptoError::InvalidFormat)
    }
}

/// The address record of `text`: its canonical address as a single text.
pub fn dump_address(text: &str) -> (r: Result<Output, CryptoError>)
    ensures
        result_view(r) == match address_result(text@) {
            Ok(a) => Ok::<OutputView, CryptoError>(OutputView::Text(a)),
            Err(e) => Err::<OutputView, CryptoError>(e),
        },
        r is Ok ==> (r->Ok_0@ matches OutputView::Text(a) && is_canonical_address(a)),
{
    match derive_address(text) {
        Ok(a) => Ok(Output::Text(a)),
        Err(e) => Err(e),
    }
}

/// A canonical address is its own address.
pub proof fn lemma_address_idempotent(t: Seq<char>)
    requires
        is_canonical_address(t),
    ensures
        address_result(t) == Ok::<Seq<char>, CryptoError>(t),
{
    let a = choose|a: Seq<u8>| a.len() == 32 && t == hex_of(a);
    lemma_hex_round_trip(a);
}

} // verus!
