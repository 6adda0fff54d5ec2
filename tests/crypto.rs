use aes::cipher::{AsyncStreamCipher, KeyIvInit};
use base64::Engine;
use interactsh_rs::aes_cfb::{AesKeySize, AesSettings, RustCryptoAesCfbDecryptor};
use interactsh_rs::crypto_error::CryptoError;
use interactsh_rs::pkey::{encode_pem, PrivateKey, RustCryptoPrivateKey, RustCryptoPrivateKeySize};
use rsa::pkcs8::DecodePublicKey;

fn public_key_of(key: &RustCryptoPrivateKey) -> rsa::RsaPublicKey {
    let encoded = key.get_encoded_pub_key().expect("Failed to encode the public key");
    let pem = base64::engine::general_purpose::STANDARD.decode(encoded).unwrap();
    rsa::RsaPublicKey::from_public_key_pem(std::str::from_utf8(&pem).unwrap()).unwrap()
}

fn encrypt_with_pub(key: &rsa::RsaPublicKey, message: &[u8]) -> Vec<u8> {
    key.encrypt(&mut rand::thread_rng(), rsa::Oaep::new::<sha2::Sha256>(), message).unwrap()
}

#[test]
fn rsa_private_key_generates_successfully_with_2048_bits() {
    let _rsa_private_key = RustCryptoPrivateKey::new_with_settings(RustCryptoPrivateKeySize(2048))
        .expect("RSA private key generation failed with 2048 bits");
}

#[test]
fn rsa_public_key_extraction_works_successfully() {
    let rsa_private_key = RustCryptoPrivateKey::new_with_settings(RustCryptoPrivateKeySize(2048))
        .expect("RSA private key generation failed with 2048 bits");
    let _rsa_public_key = public_key_of(&rsa_private_key);
}

#[test]
fn rsa_public_key_b64_encode_works_successfully() {
    let rsa_private_key = RustCryptoPrivateKey::new_with_settings(RustCryptoPrivateKeySize(2048))
        .expect("RSA private key generation failed with 2048 bits");
    let encoded_public_key = rsa_private_key.get_encoded_pub_key().expect("Failed to encode the public key");
    let pem = base64::engine::general_purpose::STANDARD.decode(&encoded_public_key).unwrap();
    assert!(std::str::from_utf8(&pem).unwrap().starts_with("-----BEGIN PUBLIC KEY-----\n"));
}

#[test]
fn oaep_round_trip_for_several_sizes() {
    let key = RustCryptoPrivateKey::new_with_settings(RustCryptoPrivateKeySize(1024)).unwrap();
    let public = public_key_of(&key);
    // 1024-bit modulus, SHA-256: at most 128 - 2 * 32 - 2 = 62 bytes
    for len in [0usize, 1, 16, 32, 62] {
        let message: Vec<u8> = (0..len).map(|i| (i * 7 + 3) as u8).collect();
        let ciphertext = encrypt_with_pub(&public, &message);
        assert_eq!(key.decrypt_data(&ciphertext), Ok(message));
    }
}

#[test]
fn decrypting_garbage_fails() {
    let key = RustCryptoPrivateKey::new_with_settings(RustCryptoPrivateKeySize(1024)).unwrap();
    assert_eq!(key.decrypt_data(&[1, 2, 3]), Err(CryptoError::PkeyDecrypt));
}

#[test]
fn key_sizes_out_of_range_are_refused() {
    assert!(matches!(
        RustCryptoPrivateKey::new_with_settings(RustCryptoPrivateKeySize(512)),
        Err(CryptoError::PkeyGen)
    ));
    assert!(matches!(
        RustCryptoPrivateKey::new_with_settings(RustCryptoPrivateKeySize(8192)),
        Err(CryptoError::PkeyGen)
    ));
    assert_eq!(RustCryptoPrivateKeySize::default(), RustCryptoPrivateKeySize(2048));
    assert_eq!(RustCryptoPrivateKeySize::from(3072), RustCryptoPrivateKeySize(3072));
}

#[test]
fn pem_text_is_base64_encoded() {
    assert_eq!(encode_pem("hello"), "aGVsbG8=");
    assert_eq!(encode_pem(""), "");
}

fn cfb_encrypt(size: AesKeySize, key: &[u8], iv: &[u8; 16], plain: &[u8]) -> Vec<u8> {
    let mut buf = plain.to_vec();
    match size {
        AesKeySize::Aes128 => cfb_mode::Encryptor::<aes::Aes128>::new(key.into(), iv.into()).encrypt(&mut buf),
        AesKeySize::Aes192 => cfb_mode::Encryptor::<aes::Aes192>::new(key.into(), iv.into()).encrypt(&mut buf),
        AesKeySize::Aes256 => cfb_mode::Encryptor::<aes::Aes256>::new(key.into(), iv.into()).encrypt(&mut buf),
    }
    let mut payload = iv.to_vec();
    payload.extend_from_slice(&buf);
    payload
}

#[test]
fn aes_cfb_decrypts_each_key_size() {
    let iv = [9u8; 16];
    let plain = b"an interaction log, longer than one block".to_vec();
    for (size, len) in [(AesKeySize::Aes128, 16usize), (AesKeySize::Aes192, 24), (AesKeySize::Aes256, 32)] {
        let key: Vec<u8> = (0..len as u8).collect();
        let payload = cfb_encrypt(size, &key, &iv, &plain);
        assert_ne!(&payload[16..], &plain[..]);
        let decryptor = RustCryptoAesCfbDecryptor::new_with_settings(AesSettings { key_size: size }).unwrap();
        assert_eq!(decryptor.decrypt_data(&key, &payload), Ok(plain.clone()));
    }
}

#[test]
fn aes_cfb_refuses_short_payloads_and_wrong_keys() {
    let decryptor = RustCryptoAesCfbDecryptor::new_with_settings(AesSettings::default()).unwrap();
    assert_eq!(decryptor.settings.key_size, AesKeySize::Aes256);
    assert_eq!(decryptor.decrypt_data(&[0u8; 32], &[0u8; 15]), Err(CryptoError::AesDecrypt));
    assert_eq!(decryptor.decrypt_data(&[0u8; 16], &[0u8; 40]), Err(CryptoError::AesDecrypt));
    assert_eq!(decryptor.decrypt_data(&[0u8; 32], &[0u8; 16]), Ok(vec![]));
    assert_eq!(AesKeySize::for_key_len(24), Some(AesKeySize::Aes192));
    assert_eq!(AesKeySize::for_key_len(20), None);
}
