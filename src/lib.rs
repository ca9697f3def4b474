//! Digests, secp256k1 key pairs and addresses, and the decision of how a
//! result is shown to the person or program that asked for it.
pub mod address;
pub mod command;
pub mod digest;
pub mod error;
pub mod hex;
pub mod keys;
pub mod output;
pub use command::{help, run, Command};
