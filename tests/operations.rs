use forc_crypto::address::{derive_address, dump_address};
use forc_crypto::command::{help, run, AddressArgs, Command, HashArgs, SecretArg};
use forc_crypto::digest::{digest, Algorithm};
use forc_crypto::error::CryptoError;
use forc_crypto::hex::{decode, encode};
use forc_crypto::keys::{derive_public, get_public_key, new_key, new_key_from, parse_secret, secret_from_text, to_hex};
use forc_crypto::output::{has_sensible_info, presentation, Field, Output, Presentation};

const ONE: &str = "0000000000000000000000000000000000000000000000000000000000000001";
const G_HEX: &str = "79be667ef9dcbbac55a06295ce870b07029bfcdb2dce28d959f2815b16f81798483ada7726a3c4655da4fbfc0e1108a8fd17b448a68554199c47d08ffb10d4b8";
const G_ADDRESS: &str = "09c0b2d1a486c439a87bcba6b46a7a1a23f3897cc83a94521a96da5c23bc58db";
const ORDER: &str = "fffffffffffffffffffffffffffffffebaaedce6af48a03bbfd25e8cd0364141";

fn fields(o: &Output) -> Vec<(String, String)> {
    match o {
        Output::Record(fs) => fs.iter().map(|f: &Field| (f.name.clone(), f.value.clone())).collect(),
        Output::Text(_) => panic!("expected a record"),
    }
}

fn text(o: &Output) -> String {
    match o {
        Output::Text(t) => t.clone(),
        Output::Record(_) => panic!("expected a text"),
    }
}

fn pairs(v: &[(&str, &str)]) -> Vec<(String, String)> {
    v.iter().map(|(a, b)| (a.to_string(), b.to_string())).collect()
}

#[test]
fn sha256_of_empty_input() {
    assert_eq!(
        digest(Algorithm::Sha256, b""),
        "e3b0c44298fc1c149afbf4c8996fb92427ae41e4649b934ca495991b7852b855"
    );
}

#[test]
fn keccak256_of_empty_input() {
    assert_eq!(
        digest(Algorithm::Keccak256, b""),
        "c5d2460186f7233c927e7db2dcc703c0e500b653ca82273b7bfad8045d85a470"
    );
}

#[test]
fn sha256_of_abc() {
    assert_eq!(
        digest(Algorithm::Sha256, b"abc"),
        "ba7816bf8f01cfea414140de5dae2223b00361a396177a9cb410ff61f20015ad"
    );
}

#[test]
fn digest_is_deterministic() {
    let a = digest(Algorithm::Keccak256, b"hello world");
    let b = digest(Algorithm::Keccak256, b"hello world");
    assert_eq!(a, b);
    assert_eq!(a.len(), 64);
    assert_ne!(a, digest(Algorithm::Sha256, b"hello world"));
}

#[test]
fn hex_encodes_lowercase_and_decodes_both_cases() {
    assert_eq!(encode(&[0x00, 0xab, 0x7f]), "00ab7f");
    assert_eq!(encode(&[]), "");
    assert_eq!(decode("00AB7f"), Some(vec![0x00, 0xab, 0x7f]));
    assert_eq!(decode("0x00ab"), Some(vec![0x00, 0xab]));
    assert_eq!(decode("0x"), Some(vec![]));
    assert_eq!(decode("abc"), None);
    assert_eq!(decode("zz"), None);
}

#[test]
fn public_key_of_secret_one_is_the_generator() {
    let secret = decode(ONE).unwrap();
    let public = derive_public(&secret).unwrap();
    assert_eq!(encode(&public), G_HEX);
    assert_eq!(derive_public(&[0u8; 32]), None);
    assert_eq!(derive_public(&[1u8; 31]), None);
}

#[test]
fn get_public_key_of_secret_one() {
    let out = get_public_key(ONE).unwrap();
    assert_eq!(fields(&out), pairs(&[("public", G_HEX), ("address", G_ADDRESS)]));
    assert!(!has_sensible_info(&out));
}

#[test]
fn get_public_key_rejects_wrong_length() {
    assert_eq!(get_public_key("abcd").unwrap_err(), CryptoError::InvalidSecret);
    assert_eq!(get_public_key(&ONE[2..]).unwrap_err(), CryptoError::InvalidSecret);
}

#[test]
fn secrets_out_of_range_are_rejected() {
    let zero = "0".repeat(64);
    assert_eq!(secret_from_text(&zero), Err(CryptoError::InvalidSecret));
    assert_eq!(secret_from_text(ORDER), Err(CryptoError::InvalidSecret));
    assert_eq!(secret_from_text("xyz"), Err(CryptoError::InvalidSecret));
    assert!(secret_from_text(&ORDER.replace("4141", "4140")).is_ok());
}

#[test]
fn parse_secret_gives_key_pair_record() {
    let out = parse_secret(&format!("0x{}", ONE)).unwrap();
    assert_eq!(
        fields(&out),
        pairs(&[("secret", ONE), ("public", G_HEX), ("address", G_ADDRESS)])
    );
    assert!(has_sensible_info(&out));
}

#[test]
fn parse_secret_accepts_uppercase() {
    let upper = ORDER.replace("4141", "4140").to_uppercase();
    let out = parse_secret(&upper).unwrap();
    assert_eq!(fields(&out)[0].1, ORDER.replace("4141", "4140"));
}

#[test]
fn secret_round_trips_through_hex() {
    let out = new_key().unwrap();
    let secret_text = fields(&out)[0].1.clone();
    let secret = secret_from_text(&secret_text).unwrap();
    assert_eq!(to_hex(&secret), secret_text);
    let again = parse_secret(&to_hex(&secret)).unwrap();
    assert_eq!(fields(&again), fields(&out));
}

#[test]
fn new_key_twice_differs() {
    let a = fields(&new_key().unwrap());
    let b = fields(&new_key().unwrap());
    assert_ne!(a[0].1, b[0].1);
}

#[test]
fn new_key_from_known_bytes() {
    let out = new_key_from(&decode(ONE).unwrap()).unwrap();
    assert_eq!(
        fields(&out),
        pairs(&[("secret", ONE), ("public", G_HEX), ("address", G_ADDRESS)])
    );
    assert_eq!(new_key_from(&[0u8; 32]).unwrap_err(), CryptoError::InvalidSecret);
}

#[test]
fn address_of_public_key_is_its_digest() {
    assert_eq!(derive_address(G_HEX).unwrap(), G_ADDRESS);
    assert_eq!(derive_address(&format!("0x{}", G_HEX)).unwrap(), G_ADDRESS);
}

#[test]
fn address_normalization_is_idempotent() {
    let upper = format!("0x{}", G_ADDRESS.to_uppercase());
    let once = derive_address(&upper).unwrap();
    assert_eq!(once, G_ADDRESS);
    assert_eq!(derive_address(&once).unwrap(), once);
}

#[test]
fn address_rejects_other_lengths_and_text() {
    assert_eq!(derive_address("abcd"), Err(CryptoError::InvalidFormat));
    assert_eq!(derive_address("hello"), Err(CryptoError::InvalidFormat));
    assert_eq!(dump_address("").unwrap_err(), CryptoError::InvalidFormat);
    assert_eq!(text(&dump_address(G_ADDRESS).unwrap()), G_ADDRESS);
}

#[test]
fn shielding_follows_the_secret_field() {
    let pair = new_key().unwrap();
    let public = get_public_key(ONE).unwrap();
    let hashed = run(Command::Sha256(HashArgs { content: b"".to_vec() })).unwrap();
    assert_eq!(presentation(true, &pair), Presentation::ShieldedYaml);
    assert_eq!(presentation(true, &public), Presentation::Yaml);
    assert_eq!(presentation(true, &hashed), Presentation::Yaml);
    assert_eq!(presentation(false, &pair), Presentation::Json);
    assert_eq!(presentation(false, &public), Presentation::Json);
}

#[test]
fn piped_new_key_is_json_with_three_fields() {
    let out = run(Command::NewKey).unwrap();
    assert_eq!(presentation(false, &out), Presentation::Json);
    let names: Vec<String> = fields(&out).into_iter().map(|(n, _)| n).collect();
    assert_eq!(names, vec!["secret", "public", "address"]);
}

#[test]
fn run_routes_each_command() {
    let k = run(Command::Keccak256(HashArgs { content: Vec::new() })).unwrap();
    assert_eq!(text(&k), "c5d2460186f7233c927e7db2dcc703c0e500b653ca82273b7bfad8045d85a470");
    let s = run(Command::Sha256(HashArgs { content: b"abc".to_vec() })).unwrap();
    assert_eq!(text(&s), "ba7816bf8f01cfea414140de5dae2223b00361a396177a9cb410ff61f20015ad");
    let a = run(Command::Address(AddressArgs { address: G_HEX.to_string() })).unwrap();
    assert_eq!(text(&a), G_ADDRESS);
    let p = run(Command::GetPublicKey(SecretArg { secret: ONE.to_string() })).unwrap();
    assert_eq!(fields(&p).len(), 2);
    let q = run(Command::ParseSecret(SecretArg { secret: ONE.to_string() })).unwrap();
    assert_eq!(fields(&q).len(), 3);
    let e = run(Command::GetPublicKey(SecretArg { secret: "abcd".to_string() }));
    assert_eq!(e.unwrap_err(), CryptoError::InvalidSecret);
}

#[test]
fn help_lists_examples() {
    let h = help();
    assert!(h.starts_with("EXAMPLES:\n"));
    assert!(h.contains("forc crypto new-key"));
    assert!(h.contains("forc crypto get-public-key"));
}

#[test]
fn error_messages_are_distinct() {
    assert_ne!(CryptoError::InvalidSecret.message(), CryptoError::InvalidFormat.message());
    assert_ne!(CryptoError::InputError.message(), CryptoError::IoError.message());
}

#[test]
fn record_address_is_the_address_of_its_public_key() {
    let out = new_key().unwrap();
    let f = fields(&out);
    assert_eq!(derive_address(&f[1].1).unwrap(), f[2].1);
}

#[test]
fn secret_just_below_the_order_is_valid() {
    let below = ORDER.replace("4141", "4140");
    let out = get_public_key(&below).unwrap();
    assert_eq!(fields(&out).len(), 2);
    let at = get_public_key(ORDER);
    assert_eq!(at.unwrap_err(), CryptoError::InvalidSecret);
}

#[test]
fn address_of_address_output_is_unchanged() {
    let first = text(&run(Command::Address(AddressArgs { address: G_HEX.to_string() })).unwrap());
    let second = text(&run(Command::Address(AddressArgs { address: first.clone() })).unwrap());
    assert_eq!(first, second);
}
