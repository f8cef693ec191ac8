use argon2::PasswordHasher;
use base64::Engine;
use chacha20poly1305::aead::{Aead, KeyInit};
use money_insight::crypto::{
    decrypt, decrypt_with_key, derive_encryption_key, encrypt, encrypt_under_key,
    encrypt_with_key, frame_sealed, key_from_hash, secret_from_opened, split_framed, APP_SALT,
    CIPHER_MAX_LEN, KEY_LEN, KEY_SALT, NONCE_LEN, TAG_LEN,
};
use money_insight::error::CryptoFailure;

const KEY: [u8; 32] = [7u8; 32];
const NONCE: [u8; 12] = [9u8; 12];

fn standard_decode(text: &str) -> Vec<u8> {
    base64::engine::general_purpose::STANDARD.decode(text).unwrap()
}

fn standard_encode(bytes: &[u8]) -> String {
    base64::engine::general_purpose::STANDARD.encode(bytes)
}

#[test]
fn encrypt_then_decrypt_gives_the_plaintext_back() {
    let blob = encrypt("access-token-123", "device-a").unwrap();
    assert_eq!(decrypt(&blob, "device-a"), Ok("access-token-123".to_string()));
}

#[test]
fn round_trip_holds_for_many_plaintexts_under_one_key() {
    let plaintexts = ["", "a", "hello world", "păsărică ✓ 日本語", "line\nbreak\ttab\0nul"];
    for plaintext in plaintexts {
        let blob = encrypt_under_key(&KEY, plaintext).unwrap();
        assert_eq!(decrypt_with_key(&KEY, &blob), Ok(plaintext.to_string()));
    }
    let long = "x".repeat(100_000);
    let blob = encrypt_under_key(&KEY, &long).unwrap();
    assert_eq!(decrypt_with_key(&KEY, &blob), Ok(long));
}

#[test]
fn encrypting_twice_gives_different_blobs_that_both_decrypt() {
    let first = encrypt_under_key(&KEY, "same secret").unwrap();
    let second = encrypt_under_key(&KEY, "same secret").unwrap();
    assert_ne!(first, second);
    assert_ne!(standard_decode(&first)[..NONCE_LEN], standard_decode(&second)[..NONCE_LEN]);
    assert_eq!(decrypt_with_key(&KEY, &first), Ok("same secret".to_string()));
    assert_eq!(decrypt_with_key(&KEY, &second), Ok("same secret".to_string()));
}

#[test]
fn blob_is_base64_of_nonce_then_sealed_bytes() {
    let blob = encrypt_with_key(&KEY, &NONCE, "hello").unwrap();
    let bytes = standard_decode(&blob);
    assert_eq!(bytes.len(), NONCE_LEN + 5 + TAG_LEN);
    assert_eq!(&bytes[..NONCE_LEN], &NONCE[..]);
    assert_ne!(&bytes[NONCE_LEN..NONCE_LEN + 5], b"hello");
    let cipher = chacha20poly1305::ChaCha20Poly1305::new_from_slice(&KEY).unwrap();
    let opened = cipher
        .decrypt(&chacha20poly1305::Nonce::from(NONCE), &bytes[NONCE_LEN..])
        .unwrap();
    assert_eq!(opened, b"hello".to_vec());
}

#[test]
fn sealing_is_a_function_of_key_nonce_and_plaintext() {
    let first = encrypt_with_key(&KEY, &NONCE, "hello").unwrap();
    let second = encrypt_with_key(&KEY, &NONCE, "hello").unwrap();
    assert_eq!(first, second);
    let other_nonce = encrypt_with_key(&KEY, &[1u8; 12], "hello").unwrap();
    assert_ne!(first, other_nonce);
}

#[test]
fn flipping_any_byte_of_a_blob_makes_decryption_fail() {
    let blob = encrypt_with_key(&KEY, &NONCE, "a secret worth keeping").unwrap();
    let bytes = standard_decode(&blob);
    for at in 0..bytes.len() {
        for bit in [0x01u8, 0x80u8] {
            let mut changed = bytes.clone();
            changed[at] ^= bit;
            let tampered = standard_encode(&changed);
            assert_eq!(
                decrypt_with_key(&KEY, &tampered),
                Err(CryptoFailure::Authentication),
                "byte {at} bit {bit}"
            );
        }
    }
}

#[test]
fn changing_any_character_of_a_blob_makes_decryption_fail() {
    let blob = encrypt_with_key(&KEY, &NONCE, "a secret worth keeping").unwrap();
    for at in 0..blob.len() {
        let mut text = blob.clone().into_bytes();
        text[at] = if text[at] == b'A' { b'B' } else { b'A' };
        let tampered = String::from_utf8(text).unwrap();
        if tampered == blob {
            continue;
        }
        assert!(decrypt_with_key(&KEY, &tampered).is_err(), "character {at}");
    }
}

#[test]
fn truncated_blob_is_refused() {
    let blob = encrypt_with_key(&KEY, &NONCE, "hello").unwrap();
    let bytes = standard_decode(&blob);
    for keep in 0..bytes.len() {
        let result = decrypt_with_key(&KEY, &standard_encode(&bytes[..keep]));
        if keep < NONCE_LEN {
            assert_eq!(result, Err(CryptoFailure::TooShort));
        } else {
            assert_eq!(result, Err(CryptoFailure::Authentication));
        }
    }
}

#[test]
fn text_that_is_not_base64_is_refused() {
    assert_eq!(decrypt_with_key(&KEY, "not base64 !!!"), Err(CryptoFailure::Encoding));
    assert_eq!(decrypt_with_key(&KEY, "AAA"), Err(CryptoFailure::Encoding));
}

#[test]
fn blob_shorter_than_a_nonce_is_too_short() {
    assert_eq!(decrypt_with_key(&KEY, ""), Err(CryptoFailure::TooShort));
    assert_eq!(decrypt_with_key(&KEY, &standard_encode(&[0u8; 11])), Err(CryptoFailure::TooShort));
    assert_eq!(
        decrypt_with_key(&KEY, &standard_encode(&[0u8; 12])),
        Err(CryptoFailure::Authentication)
    );
}

#[test]
fn blob_under_another_key_is_refused() {
    let blob = encrypt_with_key(&KEY, &NONCE, "hello").unwrap();
    assert_eq!(decrypt_with_key(&[8u8; 32], &blob), Err(CryptoFailure::Authentication));
}

#[test]
fn sealed_bytes_that_are_not_text_are_refused() {
    let cipher = chacha20poly1305::ChaCha20Poly1305::new_from_slice(&KEY).unwrap();
    let sealed = cipher
        .encrypt(&chacha20poly1305::Nonce::from(NONCE), &[0xffu8, 0xfe, 0x80][..])
        .unwrap();
    let mut framed = NONCE.to_vec();
    framed.extend_from_slice(&sealed);
    assert_eq!(decrypt_with_key(&KEY, &standard_encode(&framed)), Err(CryptoFailure::NotText));
}

#[test]
fn cipher_takes_all_but_the_first_and_the_last_block_of_its_keystream() {
    assert_eq!(CIPHER_MAX_LEN, (u32::MAX as u64 - 1) * 64);
    assert_eq!(CIPHER_MAX_LEN, 274_877_906_816);
}

#[test]
fn secret_of_several_megabytes_is_encrypted() {
    let secret = "0123456789abcdef".repeat(256 * 1024);
    assert_eq!(secret.len(), 4 * 1024 * 1024);
    let blob = encrypt_with_key(&KEY, &NONCE, &secret).unwrap();
    let bytes = standard_decode(&blob);
    assert_eq!(bytes.len(), NONCE_LEN + secret.len() + TAG_LEN);
    assert_eq!(&bytes[..NONCE_LEN], &NONCE[..]);
    assert_eq!(blob.len(), 4 * ((bytes.len() + 2) / 3));
    assert_eq!(decrypt_with_key(&KEY, &blob), Ok(secret));
}

#[test]
fn stored_bytes_are_the_nonce_and_what_the_cipher_made() {
    assert_eq!(frame_sealed(&NONCE, None), Err(CryptoFailure::Encryption));
    let mut expected = NONCE.to_vec();
    expected.extend_from_slice(&[1, 2, 3]);
    assert_eq!(frame_sealed(&NONCE, Some(vec![1, 2, 3])), Ok(expected));
    assert_eq!(frame_sealed(&NONCE, Some(Vec::new())), Ok(NONCE.to_vec()));
}

#[test]
fn decoded_bytes_are_split_behind_the_nonce() {
    assert_eq!(split_framed(None), Err(CryptoFailure::Encoding));
    assert_eq!(split_framed(Some(vec![0u8; 11])), Err(CryptoFailure::TooShort));
    assert_eq!(split_framed(Some(Vec::new())), Err(CryptoFailure::TooShort));
    let bytes: Vec<u8> = (0u8..15).collect();
    let nonce: [u8; 12] = [0, 1, 2, 3, 4, 5, 6, 7, 8, 9, 10, 11];
    assert_eq!(split_framed(Some(bytes)), Ok((nonce, vec![12, 13, 14])));
    assert_eq!(split_framed(Some(nonce.to_vec())), Ok((nonce, Vec::new())));
}

#[test]
fn opened_bytes_are_a_secret_where_they_are_text() {
    assert_eq!(secret_from_opened(None), Err(CryptoFailure::Authentication));
    assert_eq!(secret_from_opened(Some(vec![0xff, 0xfe])), Err(CryptoFailure::NotText));
    assert_eq!(secret_from_opened(Some(vec![0xc3])), Err(CryptoFailure::NotText));
    assert_eq!(
        secret_from_opened(Some("h\u{e9}llo".as_bytes().to_vec())),
        Ok("h\u{e9}llo".to_string())
    );
    assert_eq!(secret_from_opened(Some(Vec::new())), Ok(String::new()));
}

#[test]
fn stored_form_that_opens_is_what_sealing_its_secret_gives() {
    let cipher = chacha20poly1305::ChaCha20Poly1305::new_from_slice(&KEY).unwrap();
    for secret in ["", "token", "a longer secret, with \u{20ac} in it"] {
        let blob = encrypt_under_key(&KEY, secret).unwrap();
        let opened = decrypt_with_key(&KEY, &blob).unwrap();
        let bytes = standard_decode(&blob);
        let mut nonce = [0u8; 12];
        nonce.copy_from_slice(&bytes[..NONCE_LEN]);
        let sealed = cipher
            .encrypt(&chacha20poly1305::Nonce::from(nonce), opened.as_bytes())
            .unwrap();
        assert_eq!(&bytes[NONCE_LEN..], &sealed[..]);
    }
}

#[test]
fn key_is_the_first_32_bytes_of_the_hash() {
    let hash: Vec<u8> = (0u8..40).collect();
    let expected: Vec<u8> = (0u8..32).collect();
    assert_eq!(key_from_hash(Some(hash)).unwrap().to_vec(), expected);
    let exact: Vec<u8> = (100u8..132).collect();
    assert_eq!(key_from_hash(Some(exact.clone())).unwrap().to_vec(), exact);
}

#[test]
fn hash_that_is_missing_or_too_short_gives_no_key() {
    assert_eq!(key_from_hash(None), Err(CryptoFailure::KeyDerivation));
    assert_eq!(key_from_hash(Some(vec![1u8; 31])), Err(CryptoFailure::HashTooShort));
    assert_eq!(key_from_hash(Some(Vec::new())), Err(CryptoFailure::HashTooShort));
}

#[test]
fn derived_key_is_argon2id_of_device_id_and_app_salt() {
    let key = derive_encryption_key("device-a").unwrap();
    assert_eq!(key.len(), KEY_LEN);
    let mut material = b"device-a".to_vec();
    material.extend_from_slice(APP_SALT.as_bytes());
    assert_eq!(material, b"device-amoney-insight-auth-v1".to_vec());
    let mut expected = [0u8; 32];
    argon2::Argon2::default()
        .hash_password_into(&material, b"moneyinsightsalt12345", &mut expected)
        .unwrap();
    assert_eq!(key, expected);
    assert_ne!(&key[..material.len()], &material[..]);
}

#[test]
fn hash_of_the_key_material_is_as_long_as_a_key() {
    let salt = argon2::password_hash::SaltString::from_b64(KEY_SALT).unwrap();
    let hashed = argon2::Argon2::default()
        .hash_password(b"device-amoney-insight-auth-v1", &salt)
        .unwrap();
    let hash = hashed.hash.unwrap();
    assert_eq!(hash.as_bytes().len(), KEY_LEN);
    assert_eq!(&derive_encryption_key("device-a").unwrap()[..], hash.as_bytes());
}

#[test]
fn key_is_the_same_each_time_and_differs_between_devices() {
    let first = derive_encryption_key("device-a").unwrap();
    let again = derive_encryption_key("device-a").unwrap();
    let other = derive_encryption_key("device-b").unwrap();
    assert_eq!(first, again);
    assert_ne!(first, other);
}

#[test]
fn secret_of_one_device_does_not_decrypt_on_another() {
    let blob = encrypt("secret", "device-a").unwrap();
    assert_eq!(decrypt(&blob, "device-b"), Err(CryptoFailure::Authentication));
}

#[test]
fn crypto_failures_have_their_messages() {
    assert_eq!(CryptoFailure::KeyDerivation.message(), "Failed to hash password");
    assert_eq!(CryptoFailure::HashTooShort.message(), "Hash too short");
    assert_eq!(CryptoFailure::Encryption.message(), "Encryption failed");
    assert_eq!(CryptoFailure::Encoding.message(), "Failed to decode base64");
    assert_eq!(CryptoFailure::TooShort.message(), "Encrypted data too short");
    assert_eq!(CryptoFailure::Authentication.message(), "Decryption failed");
    assert_eq!(CryptoFailure::NotText.message(), "Failed to convert decrypted data to string");
}
