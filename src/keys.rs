//! secp256k1 key pairs: secrets given as hexadecimal text or freshly drawn,
//! their public keys, and the records that show them.
use k256::elliptic_curve::sec1::ToEncodedPoint;
use rand::RngCore;
use vstd::prelude::*;

use crate::address::address_result;
use crate::digest::{sha256_bytes, sha256_of};
use crate::error::CryptoError;
use crate::hex::{encode, decode, hex_bytes, hex_of, lemma_hex_round_trip};
use crate::output::{field, presentation_for, Output, OutputView, Presentation, result_view};

verus! {

/// The SEC1 uncompressed encoding of the public key of a 32-byte secret, or
/// `None` where the bytes are not a valid secp256k1 secret scalar.
pub uninterp spec fn secp256k1_public(secret: Seq<u8>) -> Option<Seq<u8>>;

/// The order of the secp256k1 group.
pub open spec fn group_order() -> nat {
    0xFFFF_FFFF_FFFF_FFFF_FFFF_FFFF_FFFF_FFFE * 0x1_0000_0000_0000_0000 * 0x1_0000_0000_0000_0000
        + 0xBAAE_DCE6_AF48_A03B_BFD2_5E8C_D036_4141
}

/// The value of a byte sequence read as a big-endian unsigned integer.
pub open spec fn be_value(b: Seq<u8>) -> nat
    decreases b.len(),
{
    if b.len() == 0 {
        0
    } else {
        be_value(b.drop_last()) * 256 + b.last() as nat
    }
}

/// A scalar that can be a secret key: nonzero and below the group order.
pub open spec fn in_scalar_range(b: Seq<u8>) -> bool {
    0 < be_value(b) < group_order()
}

/// Relies on `k256::SecretKey::from_slice` (on 32 bytes: accepted exactly when
/// the big-endian scalar is nonzero and below the group order) and on
/// `PublicKey::to_encoded_point(false)`: `0x04` followed by the 32-byte x and
/// y coordinates.
#[verifier::external_body]
fn sec1_public_key(secret: &[u8]) -> (r: Option<Vec<u8>>)
    requires
        secret@.len() == 32,
    ensures
        match r {
            Some(p) => secp256k1_public(secret@) == Some(p@) && p@.len() == 65 && p@[0] == 4,
            None => secp256k1_public(secret@) is None,
        },
        r is Some <==> in_scalar_range(secret@),
{
    match k256::SecretKey::from_slice(secret) {
        Ok(k) => Some(k.public_key().to_encoded_point(false).as_bytes().to_vec()),
        Err(_) => None,
    }
}

/// Relies on `rand::rngs::OsRng::try_fill_bytes`: 32 bytes from the operating
/// system's secure random source, or `None` where that source fails.
#[verifier::external_body]
fn random_secret_bytes() -> (r: Option<Vec<u8>>)
    ensures
        r matches Some(v) ==> v@.len() == 32,
{
    let mut buf = [0u8; 32];
    match rand::rngs::OsRng.try_fill_bytes(&mut buf) {
        Ok(()) => Some(buf.to_vec()),
        Err(_) => None,
    }
}

/// 32 bytes that are a valid secp256k1 secret scalar: nonzero and below the
/// group order, read big-endian.
pub open spec fn valid_secret(s: Seq<u8>) -> bool {
    &&& s.len() == 32
    &&& in_scalar_range(s)
    &&& secp256k1_public(s) matches Some(p) && p.len() == 65
}

/// The 64-byte public key of a valid secret: the x and y coordinates.
pub open spec fn public_of(s: Seq<u8>) -> Seq<u8> {
    secp256k1_public(s)->0.subrange(1, 65)
}

/// The address of a public key: its SHA-256 digest.
pub open spec fn address_of(public: Seq<u8>) -> Seq<u8> {
    sha256_of(public)
}

/// The secret that a text spells: 32 bytes in hexadecimal, `0x` allowed.
pub open spec fn secret_of_text(t: Seq<char>) -> Result<Seq<u8>, CryptoError> {
    match hex_bytes(t) {
        Some(b) => if valid_secret(b) {
            Ok(b)
        } else {
            Err(CryptoError::InvalidSecret)
        },
        None => Err(CryptoError::InvalidSecret),
    }
}

/// The record of a key pair: secret, public key and address.
pub open spec fn key_pair_view(s: Seq<u8>) -> OutputView {
    OutputView::Record(
        seq![
            ("secret"@, hex_of(s)),
            ("public"@, hex_of(public_of(s))),
            ("address"@, hex_of(address_of(public_of(s)))),
        ],
    )
}

/// The record of a public key and its address.
pub open spec fn public_view(s: Seq<u8>) -> OutputView {
    OutputView::Record(
        seq![("public"@, hex_of(public_of(s))), ("address"@, hex_of(address_of(public_of(s))))],
    )
}

/// The outcome of parsing a secret text into a key-pair record.
pub open spec fn parse_secret_result(t: Seq<char>) -> Result<OutputView, CryptoError> {
    match secret_of_text(t) {
        Ok(s) => Ok(key_pair_view(s)),
        Err(e) => Err(e),
    }
}

/// The outcome of deriving the public-key record of a secret text.
pub open spec fn get_public_key_result(t: Seq<char>) -> Result<OutputView, CryptoError> {
    match secret_of_text(t) {
        Ok(s) => Ok(public_view(s)),
        Err(e) => Err(e),
    }
}

/// The 64-byte public key of `secret`, or `None` where it is not a valid secret.
pub fn derive_public(secret: &[u8]) -> (r: Option<Vec<u8>>)
    ensures
        match r {
            Some(p) => valid_secret(secret@) && p@ == public_of(secret@) && p@.len() == 64,
            None => !valid_secret(secret@),
        },
{
    if secret.len() != 32 {
        return None;
    }
    let p = match sec1_public_key(secret) {
        Some(p) => p,
        None => return None,
    };
    let mut out: Vec<u8> = Vec::new();
    let mut i: usize = 1;
    while i < 65
        invariant
            1 <= i <= 65,
            p@.len() == 65,
            out@ =~= p@.subrange(1, i as int),
        decreases 65 - i,
    {
        out.push(p[i]);
        i = i + 1;
    }
    Some(out)
}

/// The secret that `text` spells, as 32 bytes.
pub fn secret_from_text(text: &str) -> (r: Result<Vec<u8>, CryptoError>)
    ensures
        match r {
            Ok(s) => secret_of_text(text@) == Ok::<Seq<u8>, CryptoError>(s@),
            Err(e) => secret_of_text(text@) == Err::<Seq<u8>, CryptoError>(e),
        },
{
    match decode(text) {
        Some(b) => match derive_public(b.as_slice()) {
            Some(_) => Ok(b),
            None => Err(CryptoError::InvalidSecret),
        },
        None => Err(CryptoError::InvalidSecret),
    }
}

/// Lowercase hexadecimal text of a secret, without prefix.
pub fn to_hex(secret: &[u8]) -> (r: String)
    requires
        secret@.len() == 32,
    ensures
        r@ == hex_of(secret@),
{
    encode(secret)
}

/// The key-pair record of a valid secret.
fn key_pair_record(secret: &[u8], public: &[u8]) -> (r: Output)
    requires
        valid_secret(secret@),
        public@ == public_of(secret@),
        public@.len() == 64,
    ensures
        r@ == key_pair_view(secret@),
{
    let address = sha256_bytes(public);
    let fields = vec![
        field("secret", encode(secret)),
        field("public", encode(public)),
        field("address", encode(address.as_slice())),
    ];
    let r = Output::Record(fields);
    assert(r@->Record_0 =~= key_pair_view(secret@)->Record_0);
    r
}

/// The public-key record of a valid secret.
fn public_record(secret: &[u8], public: &[u8]) -> (r: Output)
    requires
        valid_secret(secret@),
        public@ == public_of(secret@),
        public@.len() == 64,
    ensures
        r@ == public_view(secret@),
{
    let address = sha256_bytes(public);
    let fields = vec![field("public", encode(public)), field("address", encode(address.as_slice()))];
    let r = Output::Record(fields);
    assert(r@->Record_0 =~= public_view(secret@)->Record_0);
    r
}

/// The key-pair record of `entropy` where it is a valid secret.
pub fn new_key_from(entropy: &[u8]) -> (r: Result<Output, CryptoError>)
    ensures
        result_view(r) == if valid_secret(entropy@) {
            Ok::<OutputView, CryptoError>(key_pair_view(entropy@))
        } else {
            Err::<OutputView, CryptoError>(CryptoError::InvalidSecret)
        },
{
    match derive_public(entropy) {
        Some(p) => Ok(key_pair_record(entropy, p.as_slice())),
        None => Err(CryptoError::InvalidSecret),
    }
}

/// A fresh key pair from 32 random bytes. Fails with `IoError` where the
/// random source fails, and with `InvalidSecret` where the draw is not a
/// valid secret scalar.
pub fn new_key() -> (r: Result<Output, CryptoError>)
    ensures
        match r {
            Ok(o) => exists|s: Seq<u8>| valid_secret(s) && o@ == key_pair_view(s),
            Err(e) => e == CryptoError::InvalidSecret || e == CryptoError::IoError,
        },
{
    match random_secret_bytes() {
        Some(entropy) => new_key_from(entropy.as_slice()),
        None => Err(CryptoError::IoError),
    }
}

/// The key-pair record of the secret that `text` spells.
pub fn parse_secret(text: &str) -> (r: Result<Output, CryptoError>)
    ensures
        result_view(r) == parse_secret_result(text@),
{
    let secret = match secret_from_text(text) {
        Ok(s) => s,
        Err(e) => return Err(e),
    };
    match derive_public(secret.as_slice()) {
        Some(p) => Ok(key_pair_record(secret.as_slice(), p.as_slice())),
        None => Err(CryptoError::InvalidSecret),
    }
}

/// The public-key record of the secret that `text` spells; the secret itself
/// is not repeated.
pub fn get_public_key(text: &str) -> (r: Result<Output, CryptoError>)
    ensures
        result_view(r) == get_public_key_result(text@),
{
    let secret = match secret_from_text(text) {
        Ok(s) => s,
        Err(e) => return Err(e),
    };
    match derive_public(secret.as_slice()) {
        Some(p) => Ok(public_record(secret.as_slice(), p.as_slice())),
        None => Err(CryptoError::InvalidSecret),
    }
}

/// The hexadecimal text of a valid secret parses back to that secret.
pub proof fn lemma_secret_round_trip(s: Seq<u8>)
    requires
        valid_secret(s),
    ensures
        secret_of_text(hex_of(s)) == Ok::<Seq<u8>, CryptoError>(s),
{
    lemma_hex_round_trip(s);
}

/// The records derived from a secret depend on the secret alone: two texts
/// that spell the same bytes give the same outcomes.
pub proof fn lemma_derivation_deterministic(t1: Seq<char>, t2: Seq<char>)
    requires
        hex_bytes(t1) == hex_bytes(t2),
    ensures
        parse_secret_result(t1) == parse_secret_result(t2),
        get_public_key_result(t1) == get_public_key_result(t2),
{
}

/// On a terminal a key-pair record is shielded and a public-key record is
/// not; piped, both are printed as JSON.
pub proof fn lemma_key_records_shielding(s: Seq<u8>)
    ensures
        presentation_for(true, key_pair_view(s)) == Presentation::ShieldedYaml,
        presentation_for(true, public_view(s)) == Presentation::Yaml,
        presentation_for(false, key_pair_view(s)) == Presentation::Json,
        presentation_for(false, public_view(s)) == Presentation::Json,
{
    let k = key_pair_view(s)->Record_0;
    assert(k[0].0 == "secret"@);
    reveal_strlit("secret");
    reveal_strlit("public");
    reveal_strlit("address");
    let p = public_view(s)->Record_0;
    assert("public"@[0] != "secret"@[0]);
    assert("address"@.len() != "secret"@.len());
    assert(p[0].0 != "secret"@);
    assert(p[1].0 != "secret"@);
}

/// The address in a key record is what address derivation gives for the
/// public key in that record.
pub proof fn lemma_record_address_matches(s: Seq<u8>)
    requires
        valid_secret(s),
    ensures
        address_result(hex_of(public_of(s))) == Ok::<Seq<char>, CryptoError>(
            hex_of(address_of(public_of(s))),
        ),
{
    lemma_hex_round_trip(public_of(s));
}

} // verus!
