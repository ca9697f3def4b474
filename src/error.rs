//! Why an operation produced no result.
use vstd::prelude::*;

verus! {

/// The ways an operation can fail.
#[derive(Debug, Clone, Copy, PartialEq, Eq, Structural)]
pub enum CryptoError {
    /// The input to hash could not be read.
    InputError,
    /// A secret that is not 32 bytes of hexadecimal text or not a valid
    /// secp256k1 scalar.
    InvalidSecret,
    /// A text that is neither an address nor a public key in hexadecimal.
    InvalidFormat,
    /// A prompt or the terminal failed.
    IoError,
}

impl CryptoError {
    /// A one-line description of the error.
    pub fn message(&self) -> (r: &'static str)
        ensures
            r@ == match self {
                CryptoError::InputError => "could not read the input"@,
                CryptoError::InvalidSecret => "invalid secret key"@,
                CryptoError::InvalidFormat => "invalid address or public key"@,
                CryptoError::IoError => "input/output error"@,
            },
    {
        match self {
            CryptoError::InputError => "could not read the input",
            CryptoError::InvalidSecret => "invalid secret key",
            CryptoError::InvalidFormat => "invalid address or public key",
            CryptoError::IoError => "input/output error",
        }
    }
}

} // verus!
