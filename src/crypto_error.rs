//! The error type of the cryptographic backends.

use vstd::prelude::*;

verus! {

/// What a cryptographic operation failed at.
#[derive(Debug, Clone, Copy, PartialEq, Eq, Structural)]
pub enum CryptoError {
    /// Symmetric decryption of a payload failed.
    AesDecrypt,
    /// The private key could not be generated.
    PkeyGen,
    /// Asymmetric decryption failed.
    PkeyDecrypt,
    /// The public key could not be encoded.
    PkeyPubEncode,
}

} // verus!
