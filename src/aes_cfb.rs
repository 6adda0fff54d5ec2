//! AES in CFB mode, used for the payloads of a poll. The first 16 bytes of a
//! payload are the initialisation vector, the rest is the ciphertext.

use aes::cipher::{AsyncStreamCipher, KeyIvInit};
use vstd::prelude::*;

use crate::crypto_error::CryptoError;

verus! {

/// Length of the initialisation vector in front of each payload.
pub const IV_LEN: usize = 16;

/// Plaintext of AES-128-CFB for a key, an initialisation vector and a
/// ciphertext.
pub uninterp spec fn aes128_cfb_plain(key: Seq<u8>, iv: Seq<u8>, ct: Seq<u8>) -> Seq<u8>;

/// Plaintext of AES-192-CFB for a key, an initialisation vector and a
/// ciphertext.
pub uninterp spec fn aes192_cfb_plain(key: Seq<u8>, iv: Seq<u8>, ct: Seq<u8>) -> Seq<u8>;

/// Plaintext of AES-256-CFB for a key, an initialisation vector and a
/// ciphertext.
pub uninterp spec fn aes256_cfb_plain(key: Seq<u8>, iv: Seq<u8>, ct: Seq<u8>) -> Seq<u8>;

/// Relies on cfb_mode's `Decryptor<aes::Aes128>` (`KeyIvInit::new`,
/// `AsyncStreamCipher::decrypt`), which decrypts the buffer in place.
#[verifier::external_body]
fn aes128_cfb_decrypt(key: &[u8], iv: &[u8], ct: &[u8]) -> (r: Vec<u8>)
    requires
        key@.len() == 16,
        iv@.len() == IV_LEN,
    ensures
        r@ == aes128_cfb_plain(key@, iv@, ct@),
        r@.len() == ct@.len(),
{
    let mut buf = ct.to_vec();
    cfb_mode::Decryptor::<aes::Aes128>::new(key.into(), iv.into()).decrypt(&mut buf);
    buf
}

/// Relies on cfb_mode's `Decryptor<aes::Aes192>` (`KeyIvInit::new`,
/// `AsyncStreamCipher::decrypt`), which decrypts the buffer in place.
#[verifier::external_body]
fn aes192_cfb_decrypt(key: &[u8], iv: &[u8], ct: &[u8]) -> (r: Vec<u8>)
    requires
        key@.len() == 24,
        iv@.len() == IV_LEN,
    ensures
        r@ == aes192_cfb_plain(key@, iv@, ct@),
        r@.len() == ct@.len(),
{
    let mut buf = ct.to_vec();
    cfb_mode::Decryptor::<aes::Aes192>::new(key.into(), iv.into()).decrypt(&mut buf);
    buf
}

/// Relies on cfb_mode's `Decryptor<aes::Aes256>` (`KeyIvInit::new`,
/// `AsyncStreamCipher::decrypt`), which decrypts the buffer in place.
#[verifier::external_body]
fn aes256_cfb_decrypt(key: &[u8], iv: &[u8], ct: &[u8]) -> (r: Vec<u8>)
    requires
        key@.len() == 32,
        iv@.len() == IV_LEN,
    ensures
        r@ == aes256_cfb_plain(key@, iv@, ct@),
        r@.len() == ct@.len(),
{
    let mut buf = ct.to_vec();
    cfb_mode::Decryptor::<aes::Aes256>::new(key.into(), iv.into()).decrypt(&mut buf);
    buf
}

/// The AES variants, by key size.
#[derive(Debug, Clone, Copy, PartialEq, Eq, Structural)]
pub enum AesKeySize {
    Aes128,
    Aes192,
    Aes256,
}

impl AesKeySize {
    pub open spec fn spec_key_len(self) -> nat {
        match self {
            AesKeySize::Aes128 => 16,
            AesKeySize::Aes192 => 24,
            AesKeySize::Aes256 => 32,
        }
    }

    /// Length in bytes of a key of this size.
    pub fn key_len(&self) -> (r: usize)
        ensures
            r == self.spec_key_len(),
    {
        match self {
            AesKeySize::Aes128 => 16,
            AesKeySize::Aes192 => 24,
            AesKeySize::Aes256 => 32,
        }
    }

    pub open spec fn spec_for_key_len(len: nat) -> Option<AesKeySize> {
        if len == 16 {
            Some(AesKeySize::Aes128)
        } else if len == 24 {
            Some(AesKeySize::Aes192)
        } else if len == 32 {
            Some(AesKeySize::Aes256)
        } else {
            None
        }
    }

    /// The variant whose keys are `len` bytes long, if any.
    pub fn for_key_len(len: usize) -> (r: Option<AesKeySize>)
        ensures
            r == Self::spec_for_key_len(len as nat),
    {
        if len == 16 {
            Some(AesKeySize::Aes128)
        } else if len == 24 {
            Some(AesKeySize::Aes192)
        } else if len == 32 {
            Some(AesKeySize::Aes256)
        } else {
            None
        }
    }
}

/// The plaintext of a payload (initialisation vector, then ciphertext) under a
/// key, or `None` where the payload is shorter than the vector or the key has
/// the wrong length.
pub open spec fn cfb_plain(size: AesKeySize, key: Seq<u8>, payload: Seq<u8>) -> Option<Seq<u8>> {
    if payload.len() < IV_LEN || key.len() != size.spec_key_len() {
        None
    } else {
        let iv = payload.take(IV_LEN as int);
        let ct = payload.skip(IV_LEN as int);
        Some(
            match size {
                AesKeySize::Aes128 => aes128_cfb_plain(key, iv, ct),
                AesKeySize::Aes192 => aes192_cfb_plain(key, iv, ct),
                AesKeySize::Aes256 => aes256_cfb_plain(key, iv, ct),
            },
        )
    }
}

/// Settings of the AES decryptor.
#[derive(Debug, Clone, Copy, PartialEq, Eq, Structural)]
pub struct AesSettings {
    pub key_size: AesKeySize,
}

impl Default for AesSettings {
    /// AES-256, as the public interaction servers use it.
    fn default() -> (r: AesSettings)
        ensures
            r.key_size == AesKeySize::Aes256,
    {
        AesSettings { key_size: AesKeySize::Aes256 }
    }
}

/// Decrypts payloads with AES in CFB mode for one key size.
#[derive(Debug)]
pub struct RustCryptoAesCfbDecryptor {
    pub settings: AesSettings,
}

impl RustCryptoAesCfbDecryptor {
    /// Builds the decryptor; it cannot fail.
    pub fn new_with_settings(settings: AesSettings) -> (r: Result<RustCryptoAesCfbDecryptor, CryptoError>)
        ensures
            r matches Ok(d) && d.settings == settings,
    {
        Ok(RustCryptoAesCfbDecryptor { settings })
    }

    /// Decrypts one payload: its first 16 bytes are the initialisation vector,
    /// the rest the ciphertext. Fails with `AesDecrypt` exactly when the payload
    /// is shorter than that or the key does not fit the configured size.
    pub fn decrypt_data(&self, aes_key: &[u8], encrypted_data: &[u8]) -> (r: Result<Vec<u8>, CryptoError>)
        ensures
            r matches Ok(plain) ==> plain@.len() == encrypted_data@.len() - IV_LEN,
            match r {
                Ok(plain) => cfb_plain(self.settings.key_size, aes_key@, encrypted_data@)
                    == Some(plain@),
                Err(e) => e == CryptoError::AesDecrypt && cfb_plain(
                    self.settings.key_size,
                    aes_key@,
                    encrypted_data@,
                ) is None,
            },
    {
        if encrypted_data.len() < IV_LEN || aes_key.len() != self.settings.key_size.key_len() {
            return Err(CryptoError::AesDecrypt);
        }
        let (iv, ct) = encrypted_data.split_at(IV_LEN);
        proof {
            assert(iv@ =~= encrypted_data@.take(IV_LEN as int));
            assert(ct@ =~= encrypted_data@.skip(IV_LEN as int));
        }
        let plain = match self.settings.key_size {
            AesKeySize::Aes128 => aes128_cfb_decrypt(aes_key, iv, ct),
            AesKeySize::Aes192 => aes192_cfb_decrypt(aes_key, iv, ct),
            AesKeySize::Aes256 => aes256_cfb_decrypt(aes_key, iv, ct),
        };
        Ok(plain)
    }

    /// Nothing secret is held between calls, so there is nothing to wipe.
    pub fn secure_drop(&mut self)
        ensures
            final(self).settings == old(self).settings,
    {
    }
}

} // verus!
