//! The session's RSA key pair: generation, the encoded public half that is
//! sent at registration, and OAEP (SHA-256, no label) decryption of the
//! per-poll symmetric key.

use rsa::pkcs8::{EncodePublicKey, LineEnding};
use vstd::prelude::*;
use vstd::string::StringSliceAdditionalSpecFns;

use crate::crypto_error::CryptoError;
use crate::encoding::{base64_encode, base64_text};

verus! {

#[verifier::external_type_specification]
#[verifier::external_body]
pub struct ExRsaPrivateKey(rsa::RsaPrivateKey);

#[verifier::external_type_specification]
#[verifier::external_body]
pub struct ExRsaPublicKey(rsa::RsaPublicKey);

#[verifier::external_type_specification]
#[verifier::external_body]
pub struct ExRsaError(rsa::errors::Error);

#[verifier::external_type_specification]
#[verifier::external_body]
pub struct ExSpkiError(rsa::pkcs8::spki::Error);

/// Smallest key size that is generated.
pub const MIN_RSA_BITS: usize = 1024;

/// Largest key size that is generated; the RSA backend refuses larger public
/// keys.
pub const MAX_RSA_BITS: usize = 4096;

/// Key size used when none is given.
pub const DEFAULT_RSA_BITS: usize = 2048;

/// Relies on rsa's `RsaPrivateKey::new`, fed by the thread-local random
/// generator: a fresh key of `bits` bits, or an error.
#[verifier::external_body]
fn rsa_generate(bits: usize) -> (r: Result<rsa::RsaPrivateKey, rsa::errors::Error>)
    requires
        MIN_RSA_BITS <= bits <= MAX_RSA_BITS,
{
    rsa::RsaPrivateKey::new(&mut rand::thread_rng(), bits)
}

/// Relies on rsa's `RsaPrivateKey::to_public_key`: the public half of the key.
#[verifier::external_body]
fn rsa_public_half(key: &rsa::RsaPrivateKey) -> rsa::RsaPublicKey {
    key.to_public_key()
}

/// Relies on spki's `EncodePublicKey::to_public_key_pem` for an RSA public
/// key, with LF line endings: a PEM document under the `PUBLIC KEY` label.
#[verifier::external_body]
fn rsa_public_pem(key: &rsa::RsaPublicKey) -> (r: Result<String, rsa::pkcs8::spki::Error>)
    ensures
        r matches Ok(s) ==> "-----BEGIN PUBLIC KEY-----\n"@.is_prefix_of(s@),
{
    key.to_public_key_pem(LineEnding::LF)
}

/// Relies on rsa's `RsaPrivateKey::decrypt` with `Oaep::new::<sha2::Sha256>()`:
/// OAEP decryption with SHA-256 and no label.
#[verifier::external_body]
fn rsa_oaep_sha256_decrypt(key: &rsa::RsaPrivateKey, ct: &[u8]) -> Result<Vec<u8>, rsa::errors::Error> {
    key.decrypt(rsa::Oaep::new::<sha2::Sha256>(), ct)
}

/// The number of bits of a key to generate.
#[derive(Debug, Clone, Copy, PartialEq, Eq, Structural)]
pub struct RustCryptoPrivateKeySize(pub usize);

impl Default for RustCryptoPrivateKeySize {
    fn default() -> (r: RustCryptoPrivateKeySize)
        ensures
            r.0 == DEFAULT_RSA_BITS,
    {
        RustCryptoPrivateKeySize(DEFAULT_RSA_BITS)
    }
}

impl From<usize> for RustCryptoPrivateKeySize {
    fn from(value: usize) -> (r: RustCryptoPrivateKeySize)
        ensures
            r.0 == value,
    {
        RustCryptoPrivateKeySize(value)
    }
}

impl vstd::std_specs::convert::FromSpecImpl<usize> for RustCryptoPrivateKeySize {
    open spec fn obeys_from_spec() -> bool {
        true
    }

    open spec fn from_spec(v: usize) -> RustCryptoPrivateKeySize {
        RustCryptoPrivateKeySize(v)
    }
}

/// Whether a key of this many bits is generated at all.
pub open spec fn rsa_bits_allowed(bits: usize) -> bool {
    MIN_RSA_BITS <= bits <= MAX_RSA_BITS
}

/// The text sent as the public key at registration: base64 of the PEM
/// document.
pub fn encode_pem(pem: &str) -> (r: String)
    ensures
        r@ == base64_text(pem.spec_bytes()),
{
    base64_encode(pem.as_bytes())
}

/// A backend for the session's asymmetric key pair: it is made from its
/// settings, hands out its encoded public half, and decrypts what was
/// encrypted to that half.
pub trait PrivateKey: Sized {
    type Settings;

    fn new_with_settings(settings: Self::Settings) -> (r: Result<Self, CryptoError>)
        ensures
            r matches Err(e) ==> e == CryptoError::PkeyGen,
    ;

    fn get_encoded_pub_key(&self) -> (r: Result<String, CryptoError>)
        ensures
            r matches Err(e) ==> e == CryptoError::PkeyPubEncode,
    ;

    fn decrypt_data(&self, encrypted_data: &[u8]) -> (r: Result<Vec<u8>, CryptoError>)
        ensures
            r matches Err(e) ==> e == CryptoError::PkeyDecrypt,
    ;

    fn secure_drop(&mut self);
}

/// An RSA private key, wiped from memory when dropped.
pub struct RustCryptoPrivateKey {
    priv_key: rsa::RsaPrivateKey,
}

impl RustCryptoPrivateKey {
    /// Generates a key. Sizes outside `MIN_RSA_BITS ..= MAX_RSA_BITS` are
    /// refused with `PkeyGen`; within them the backend may still fail, with the
    /// same error.
    pub fn generate(bits: usize) -> (r: Result<RustCryptoPrivateKey, CryptoError>)
        ensures
            !rsa_bits_allowed(bits) ==> r is Err,
            r matches Err(e) ==> e == CryptoError::PkeyGen,
    {
        if bits < MIN_RSA_BITS || bits > MAX_RSA_BITS {
            return Err(CryptoError::PkeyGen);
        }
        match rsa_generate(bits) {
            Ok(priv_key) => Ok(RustCryptoPrivateKey { priv_key }),
            Err(_) => Err(CryptoError::PkeyGen),
        }
    }
}

impl RustCryptoPrivateKey {
    /// The public half as base64 of its PEM (SPKI) document, or
    /// `PkeyPubEncode`.
    pub fn encoded_public_key(&self) -> (r: Result<String, CryptoError>)
        ensures
            r matches Err(e) ==> e == CryptoError::PkeyPubEncode,
            r matches Ok(s) ==> exists|pem: &str|
                "-----BEGIN PUBLIC KEY-----\n"@.is_prefix_of(pem@) && s@ == base64_text(
                    pem.spec_bytes(),
                ),
    {
        let pub_key = rsa_public_half(&self.priv_key);
        match rsa_public_pem(&pub_key) {
            Ok(pem) => {
                let pem_text = pem.as_str();
                let encoded = encode_pem(pem_text);
                assert("-----BEGIN PUBLIC KEY-----\n"@.is_prefix_of(pem_text@)
                    && encoded@ == base64_text(pem_text.spec_bytes()));
                Ok(encoded)
            },
            Err(_) => Err(CryptoError::PkeyPubEncode),
        }
    }
}

impl PrivateKey for RustCryptoPrivateKey {
    type Settings = RustCryptoPrivateKeySize;

    /// Generates a key of the given size; see `generate`.
    fn new_with_settings(settings: RustCryptoPrivateKeySize) -> (r: Result<RustCryptoPrivateKey, CryptoError>) {
        RustCryptoPrivateKey::generate(settings.0)
    }

    /// The public half as base64 of its PEM (SPKI) document.
    fn get_encoded_pub_key(&self) -> (r: Result<String, CryptoError>) {
        self.encoded_public_key()
    }

    /// OAEP decryption with SHA-256 and no label.
    fn decrypt_data(&self, encrypted_data: &[u8]) -> (r: Result<Vec<u8>, CryptoError>) {
        match rsa_oaep_sha256_decrypt(&self.priv_key, encrypted_data) {
            Ok(plain) => Ok(plain),
            Err(_) => Err(CryptoError::PkeyDecrypt),
        }
    }

    /// The key material is wiped when the key is dropped, so nothing more is
    /// done here.
    fn secure_drop(&mut self) {
    }
}

} // verus!
