//! The six operations and the router that runs exactly one of them.
use vstd::prelude::*;
use vstd::string::*;

use crate::address::{address_result, dump_address, is_canonical_address};
use crate::digest::{digest, digest_text, Algorithm};
use crate::error::CryptoError;
use crate::keys::{get_public_key, get_public_key_result, key_pair_view, new_key, parse_secret, parse_secret_result, valid_secret};
use crate::output::{Output, OutputView, result_view};

verus! {

/// The bytes to hash, already read from the inline text or the file.
#[derive(Debug)]
pub struct HashArgs {
    pub content: Vec<u8>,
}

/// An address or public key in hexadecimal.
#[derive(Debug)]
pub struct AddressArgs {
    pub address: String,
}

/// A secret key in hexadecimal.
#[derive(Debug)]
pub struct SecretArg {
    pub secret: String,
}

/// One operation, chosen on the command line.
#[derive(Debug)]
pub enum Command {
    Keccak256(HashArgs),
    Sha256(HashArgs),
    Address(AddressArgs),
    GetPublicKey(SecretArg),
    NewKey,
    ParseSecret(SecretArg),
}

/// The outcome of an operation, or `None` for `NewKey`, whose secret is drawn at random.
pub open spec fn command_result(c: Command) -> Option<Result<OutputView, CryptoError>> {
    match c {
        Command::Keccak256(a) => Some(Ok(OutputView::Text(digest_text(Algorithm::Keccak256, a.content@)))),
        Command::Sha256(a) => Some(Ok(OutputView::Text(digest_text(Algorithm::Sha256, a.content@)))),
        Command::Address(a) => Some(
            match address_result(a.address@) {
                Ok(t) => Ok(OutputView::Text(t)),
                Err(e) => Err(e),
            },
        ),
        Command::GetPublicKey(a) => Some(get_public_key_result(a.secret@)),
        Command::NewKey => None,
        Command::ParseSecret(a) => Some(parse_secret_result(a.secret@)),
    }
}

/// Runs the one operation that `cmd` selects and returns its result value.
pub fn run(cmd: Command) -> (r: Result<Output, CryptoError>)
    ensures
        match cmd {
            Command::NewKey => match r {
                Ok(o) => exists|s: Seq<u8>| valid_secret(s) && o@ == key_pair_view(s),
                Err(e) => e == CryptoError::InvalidSecret || e == CryptoError::IoError,
            },
            _ => Some(result_view(r)) == command_result(cmd),
        },
        cmd is Address && r is Ok ==> (r->Ok_0@ matches OutputView::Text(a)
            && is_canonical_address(a)),
{
    match cmd {
        Command::Keccak256(a) => Ok(Output::Text(digest(Algorithm::Keccak256, a.content.as_slice()))),
        Command::Sha256(a) => Ok(Output::Text(digest(Algorithm::Sha256, a.content.as_slice()))),
        Command::Address(a) => dump_address(a.address.as_str()),
        Command::GetPublicKey(a) => get_public_key(a.secret.as_str()),
        Command::NewKey => new_key(),
        Command::ParseSecret(a) => parse_secret(a.secret.as_str()),
    }
}

/// Usage examples of the digest commands.
pub const HASH_EXAMPLES: &'static str = "    # Keccak-256 or SHA-256 of a string\n    forc crypto keccak256 \"hello world\"\n    forc crypto sha256 \"hello world\"\n\n    # Keccak-256 or SHA-256 of a file's contents\n    forc crypto sha256 ./src/main.sw\n\n";

/// Usage examples of the address command.
pub const ADDRESS_EXAMPLES: &'static str = "    # The canonical form of an address, or the address of a public key\n    forc crypto address 0x0000000000000000000000000000000000000000000000000000000000000001\n\n";

/// Usage examples of the new-key command.
pub const NEW_KEY_EXAMPLES: &'static str = "    # A fresh key pair\n    forc crypto new-key\n\n";

/// Usage examples of the parse-secret command.
pub const PARSE_SECRET_EXAMPLES: &'static str = "    # The key pair of a secret; asked for without echo when omitted\n    forc crypto parse-secret 0x<64 hexadecimal digits>\n    forc crypto parse-secret\n\n";

/// Usage examples of the get-public-key command.
pub const GET_PUBLIC_KEY_EXAMPLES: &'static str = "    # The public key and address of a secret\n    forc crypto get-public-key 0x<64 hexadecimal digits>\n";

/// The text shown after the options in `--help`: the examples of every command.
pub fn help() -> (r: String)
    ensures
        r@ == "EXAMPLES:\n"@ + HASH_EXAMPLES@ + ADDRESS_EXAMPLES@ + NEW_KEY_EXAMPLES@
            + PARSE_SECRET_EXAMPLES@ + GET_PUBLIC_KEY_EXAMPLES@,
{
    let mut r = String::from_str("EXAMPLES:\n");
    r.append(HASH_EXAMPLES);
    r.append(ADDRESS_EXAMPLES);
    r.append(NEW_KEY_EXAMPLES);
    r.append(PARSE_SECRET_EXAMPLES);
    r.append(GET_PUBLIC_KEY_EXAMPLES);
    r
}

} // verus!
