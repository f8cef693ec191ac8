//! Encryption of the secrets at rest.
//!
//! The key is derived from the identifier of the device and is never stored.
//! A secret is sealed with ChaCha20-Poly1305 under a nonce of its own and kept
//! as the base64 text of the nonce followed by the sealed bytes.
//!
//! The cipher, the hash and the encoding are those of outside crates. This
//! module gives what they compute a name and proves how the engine puts them
//! together.

use vstd::prelude::*;
use vstd::utf8::{
    decode_utf8, decode_utf8_encode_utf8, encode_utf8, encode_utf8_decode_utf8,
    encode_utf8_valid_utf8, valid_utf8,
};
use vstd::slice::{slice_subrange, slice_to_vec};
use argon2::PasswordHasher;
use base64::Engine;
use chacha20poly1305::aead::{Aead, KeyInit};
use crate::error::CryptoFailure;
use crate::random::{first_twelve, random_bytes};

verus! {

/// The number of bytes of a key.
pub const KEY_LEN: usize = 32;

/// The number of bytes of a nonce.
pub const NONCE_LEN: usize = 12;

/// The number of bytes that the cipher adds to what it seals.
pub const TAG_LEN: usize = 16;

/// The most bytes that the cipher takes under one nonce. Its keystream has
/// 2^32 blocks of 64 bytes; the first goes to the key of the tag, and the
/// last is never reached.
pub const CIPHER_MAX_LEN: u64 = 274_877_906_816;

/// What is appended to the identifier of the device before it is hashed.
pub const APP_SALT: &'static str = "money-insight-auth-v1";

/// The salt of the hash, in the base64 form that the hash takes it in. It is
/// the same on every device, so that a device derives the same key each time.
pub const KEY_SALT: &'static str = "bW9uZXlpbnNpZ2h0c2FsdDEyMzQ1";

/// The bytes of an optional list of bytes.
pub open spec fn option_bytes(bytes: Option<Vec<u8>>) -> Option<Seq<u8>> {
    match bytes {
        Some(b) => Some(b@),
        None => None,
    }
}

/// The hash that Argon2id (version 19, 19 MiB, two passes, one lane) gives
/// for a password and a salt in base64 form; `None` where it refuses them.
pub uninterp spec fn argon2id_hash(password: Seq<u8>, salt: Seq<char>) -> Option<Seq<u8>>;

/// What ChaCha20-Poly1305 makes of a plaintext under a key and a nonce, with
/// no associated data: the encrypted bytes followed by the tag. `None` where
/// it refuses the plaintext.
pub uninterp spec fn chacha20poly1305_seal(key: Seq<u8>, nonce: Seq<u8>, plaintext: Seq<u8>) -> Option<
    Seq<u8>,
>;

/// The plaintext that ChaCha20-Poly1305 gives back for sealed bytes under a
/// key and a nonce; `None` where the tag does not fit them.
pub uninterp spec fn chacha20poly1305_open(key: Seq<u8>, nonce: Seq<u8>, sealed: Seq<u8>) -> Option<
    Seq<u8>,
>;

/// The base64 text of bytes, in the standard alphabet and with padding.
pub uninterp spec fn base64_text(bytes: Seq<u8>) -> Seq<char>;

/// The bytes that a base64 text stands for; `None` where it is no such text.
pub uninterp spec fn base64_bytes(text: Seq<char>) -> Option<Seq<u8>>;

/// Calls `hash_password` of `argon2::Argon2::default()` with the salt read by
/// `SaltString::from_b64`, and hands out the bytes of the hash. Beside the
/// name of the outcome the contract claims that a hash has 32 bytes, the
/// length that the parameters of `Argon2::default()` give it.
#[verifier::external_body]
fn argon2_hash(password: &[u8], salt: &str) -> (hash: Option<Vec<u8>>)
    ensures
        option_bytes(hash) == argon2id_hash(password@, salt@),
        hash matches Some(bytes) ==> bytes@.len() == 32,
{
    let salt = argon2::password_hash::SaltString::from_b64(salt).ok()?;
    let hashed = argon2::Argon2::default().hash_password(password, &salt).ok()?;
    Some(hashed.hash?.as_bytes().to_vec())
}

/// A nonce of random bytes.
fn random_nonce() -> (nonce: [u8; 12]) {
    first_twelve(&random_bytes())
}

/// Whether the cipher accepts a plaintext of so many bytes: one that fills
/// at most 2^32 - 2 blocks of 64 bytes.
pub open spec fn cipher_accepts(len: nat) -> bool {
    len <= CIPHER_MAX_LEN
}

/// Whether sealed bytes are few enough to have been sealed: a plaintext that
/// the cipher accepts, and the tag.
pub open spec fn openable(len: nat) -> bool {
    len <= CIPHER_MAX_LEN + TAG_LEN
}

/// The number of characters of the base64 text of so many bytes: four for
/// every three bytes, the last three filled up.
pub open spec fn base64_len(len: nat) -> nat {
    (4 * ((len + 2) / 3)) as nat
}

/// Whether the machine can hold the base64 text of so many bytes: a text
/// has at most `isize::MAX` bytes.
pub open spec fn encodable(len: nat) -> bool {
    base64_len(len) <= isize::MAX
}

/// Whether a secret of so many bytes can be stored: the cipher accepts it,
/// and the machine can hold the text of its nonce, its sealed bytes and the
/// tag.
pub open spec fn storable(len: nat) -> bool {
    cipher_accepts(len) && encodable((NONCE_LEN + len + TAG_LEN) as nat)
}

/// Calls `encrypt` of `chacha20poly1305::ChaCha20Poly1305`. Two kinds of
/// plaintext are left out, on which the call panics. One is a plaintext of
/// more than 2^32 - 2 blocks of 64 bytes: the cipher itself refuses only
/// from 2^32 - 1 full blocks on, and between the two its keystream runs out.
/// The other is a plaintext within 16 bytes of `isize::MAX`: the call copies
/// the plaintext into a buffer with room for the tag, and no buffer is so
/// long.
///
/// Beside the name of the outcome the contract claims three things of the
/// cipher: that it seals every plaintext that is let in, that it adds a tag
/// of 16 bytes, and that what it sealed opens again to the plaintext under
/// the same key and nonce.
#[verifier::external_body]
fn seal(key: &[u8; 32], nonce: &[u8; 12], plaintext: &[u8]) -> (sealed: Option<Vec<u8>>)
    requires
        cipher_accepts(plaintext@.len()),
        plaintext@.len() + TAG_LEN <= isize::MAX,
    ensures
        option_bytes(sealed) == chacha20poly1305_seal(key@, nonce@, plaintext@),
        sealed.is_some(),
        sealed matches Some(bytes) ==> bytes@.len() == plaintext@.len() + TAG_LEN
            && chacha20poly1305_open(key@, nonce@, bytes@) == Some(plaintext@),
{
    let cipher = chacha20poly1305::ChaCha20Poly1305::new_from_slice(key).ok()?;
    cipher.encrypt(&chacha20poly1305::Nonce::from(*nonce), plaintext).ok()
}

/// Calls `decrypt` of `chacha20poly1305::ChaCha20Poly1305`. Sealed bytes
/// that are too many to have been sealed are left out: on some of them the
/// keystream of the cipher runs out, and the call panics.
///
/// Beside the name of the outcome the contract claims that the cipher opens
/// nothing but what it sealed: it gives a plaintext only where the last 16
/// bytes are the tag that it computes for the bytes before them, and the
/// plaintext is then the one that it encrypts to those bytes, so that sealing
/// the plaintext under the same key and nonce gives the sealed bytes again.
#[verifier::external_body]
fn open(key: &[u8; 32], nonce: &[u8; 12], sealed: &[u8]) -> (plaintext: Option<Vec<u8>>)
    requires
        openable(sealed@.len()),
    ensures
        option_bytes(plaintext) == chacha20poly1305_open(key@, nonce@, sealed@),
        plaintext matches Some(bytes) ==> sealed@.len() == bytes@.len() + TAG_LEN
            && chacha20poly1305_seal(key@, nonce@, bytes@) == Some(sealed@),
{
    let cipher = chacha20poly1305::ChaCha20Poly1305::new_from_slice(key).ok()?;
    cipher.decrypt(&chacha20poly1305::Nonce::from(*nonce), sealed).ok()
}

/// Calls `encode` of `base64::engine::general_purpose::STANDARD`, which
/// panics where the length of the text cannot be counted or the text cannot
/// be allocated: bytes whose text would have more than `isize::MAX` bytes are
/// left out. Beside the name of the outcome the contract claims that the
/// text stands for the bytes that it was made of.
#[verifier::external_body]
fn base64_encode(bytes: &[u8]) -> (text: String)
    requires
        encodable(bytes@.len()),
    ensures
        text@ == base64_text(bytes@),
        base64_bytes(text@) == Some(bytes@),
{
    base64::engine::general_purpose::STANDARD.encode(bytes)
}

/// Calls `decode` of `base64::engine::general_purpose::STANDARD`. The
/// contract only gives the outcome its name.
#[verifier::external_body]
fn base64_decode(text: &str) -> (bytes: Option<Vec<u8>>)
    ensures
        option_bytes(bytes) == base64_bytes(text@),
{
    base64::engine::general_purpose::STANDARD.decode(text).ok()
}

/// Calls `String::from_utf8`: the text of bytes that are UTF-8, and nothing
/// for other bytes.
#[verifier::external_body]
fn text_from_utf8(bytes: Vec<u8>) -> (text: Option<String>)
    ensures
        match text {
            Some(s) => valid_utf8(bytes@) && s@ == decode_utf8(bytes@),
            None => !valid_utf8(bytes@),
        },
{
    String::from_utf8(bytes).ok()
}

/// The key that a hash gives: its first 32 bytes.
pub open spec fn key_of_hash(hash: Option<Seq<u8>>) -> Result<Seq<u8>, CryptoFailure> {
    match hash {
        None => Err(CryptoFailure::KeyDerivation),
        Some(h) => if h.len() < KEY_LEN {
            Err(CryptoFailure::HashTooShort)
        } else {
            Ok(h.subrange(0, KEY_LEN as int))
        },
    }
}

/// What is hashed for the key of a device: the identifier of the device and
/// the salt of the application behind it.
pub open spec fn key_material(device_id: Seq<char>) -> Seq<u8> {
    encode_utf8(device_id) + encode_utf8(APP_SALT@)
}

/// The key of a device.
pub open spec fn derived_key(device_id: Seq<char>) -> Result<Seq<u8>, CryptoFailure> {
    key_of_hash(argon2id_hash(key_material(device_id), KEY_SALT@))
}

/// The bytes that are stored for a nonce and what the cipher made under it:
/// the nonce, and the sealed bytes behind it.
pub open spec fn framed(nonce: Seq<u8>, sealed: Option<Seq<u8>>) -> Result<Seq<u8>, CryptoFailure> {
    match sealed {
        None => Err(CryptoFailure::Encryption),
        Some(bytes) => Ok(nonce + bytes),
    }
}

/// The nonce and the sealed bytes in what was decoded from a stored form.
pub open spec fn unframed(decoded: Option<Seq<u8>>) -> Result<(Seq<u8>, Seq<u8>), CryptoFailure> {
    match decoded {
        None => Err(CryptoFailure::Encoding),
        Some(bytes) => if bytes.len() < NONCE_LEN {
            Err(CryptoFailure::TooShort)
        } else {
            Ok(
                (
                    bytes.subrange(0, NONCE_LEN as int),
                    bytes.subrange(NONCE_LEN as int, bytes.len() as int),
                ),
            )
        },
    }
}

/// The secret in what the cipher gave back.
pub open spec fn secret_of(opened: Option<Seq<u8>>) -> Result<Seq<char>, CryptoFailure> {
    match opened {
        None => Err(CryptoFailure::Authentication),
        Some(plaintext) => if valid_utf8(plaintext) {
            Ok(decode_utf8(plaintext))
        } else {
            Err(CryptoFailure::NotText)
        },
    }
}

/// The stored form of a secret, sealed under a key and a nonce: the base64
/// text of the nonce and the sealed bytes. There is none where the secret
/// cannot be stored.
pub open spec fn sealed_blob(key: Seq<u8>, nonce: Seq<u8>, plaintext: Seq<char>) -> Result<
    Seq<char>,
    CryptoFailure,
> {
    let bytes = encode_utf8(plaintext);
    if storable(bytes.len()) {
        match framed(nonce, chacha20poly1305_seal(key, nonce, bytes)) {
            Err(e) => Err(e),
            Ok(stored) => Ok(base64_text(stored)),
        }
    } else {
        Err(CryptoFailure::Encryption)
    }
}

/// Whether a stored form is what sealing a secret under a key gives, under
/// the nonce that the form holds: the nonce, and behind it the sealed bytes,
/// which are as many as the bytes of the secret and the tag.
pub open spec fn sealed_form(key: Seq<u8>, blob: Seq<char>, secret: Seq<char>) -> bool {
    unframed(base64_bytes(blob)) matches Ok(parts) && parts.1.len() == encode_utf8(secret).len()
        + TAG_LEN && chacha20poly1305_seal(key, parts.0, encode_utf8(secret)) == Some(parts.1)
}

/// The nonce under which a stored secret was sealed, where the stored form
/// is long enough to hold one.
pub open spec fn blob_nonce(blob: Seq<char>) -> Option<Seq<u8>> {
    match unframed(base64_bytes(blob)) {
        Ok(parts) => Some(parts.0),
        Err(_) => None,
    }
}

/// The secret that a stored form holds under a key. It holds none where its
/// sealed bytes are too many to have been sealed.
pub open spec fn opened_blob(key: Seq<u8>, blob: Seq<char>) -> Result<Seq<char>, CryptoFailure> {
    match unframed(base64_bytes(blob)) {
        Err(e) => Err(e),
        Ok(parts) => if openable(parts.1.len()) {
            secret_of(chacha20poly1305_open(key, parts.0, parts.1))
        } else {
            Err(CryptoFailure::Authentication)
        },
    }
}

/// The secret that a stored form holds on a device.
pub open spec fn decrypted(device_id: Seq<char>, blob: Seq<char>) -> Result<
    Seq<char>,
    CryptoFailure,
> {
    match derived_key(device_id) {
        Err(e) => Err(e),
        Ok(key) => opened_blob(key, blob),
    }
}

/// Why a secret cannot be encrypted on a device, if it cannot: the key
/// cannot be derived, or the secret cannot be stored.
pub open spec fn encryption_failure(device_id: Seq<char>, plaintext: Seq<char>) -> Option<
    CryptoFailure,
> {
    match derived_key(device_id) {
        Err(e) => Some(e),
        Ok(_) => if storable(encode_utf8(plaintext).len()) {
            None
        } else {
            Some(CryptoFailure::Encryption)
        },
    }
}

/// On a machine of sixty-four bits every secret that the cipher accepts can
/// be stored: encryption then fails only where the key cannot be derived or
/// the cipher refuses.
pub proof fn lemma_wide_machine_stores_all(len: nat)
    requires
        usize::MAX == 0xffff_ffff_ffff_ffff,
    ensures
        storable(len) == cipher_accepts(len),
{
}

/// The key that is made of the hash of the key material.
pub fn key_from_hash(hash: Option<Vec<u8>>) -> (key: Result<[u8; 32], CryptoFailure>)
    ensures
        match key {
            Ok(k) => key_of_hash(option_bytes(hash)) == Ok::<Seq<u8>, CryptoFailure>(k@),
            Err(e) => key_of_hash(option_bytes(hash)) == Err::<Seq<u8>, CryptoFailure>(e),
        },
{
    match hash {
        None => Err(CryptoFailure::KeyDerivation),
        Some(bytes) => {
            if bytes.len() < KEY_LEN {
                return Err(CryptoFailure::HashTooShort);
            }
            let mut key = [0u8;32];
            let mut i: usize = 0;
            while i < KEY_LEN
                invariant
                    i <= KEY_LEN,
                    bytes.len() >= KEY_LEN,
                    forall|j: int| 0 <= j < i ==> key@[j] == bytes@[j],
                decreases KEY_LEN - i,
            {
                key[i] = bytes[i];
                i = i + 1;
            }
            assert(key@ =~= bytes@.subrange(0, KEY_LEN as int));
            Ok(key)
        },
    }
}

/// Derives the key of a device from its identifier. The same identifier
/// gives the same key each time, so the key need not be stored. The hash is
/// as long as a key, so all of it is the key, and the derivation fails only
/// where the hash itself does.
pub fn derive_encryption_key(device_id: &str) -> (key: Result<[u8; 32], CryptoFailure>)
    ensures
        match key {
            Ok(k) => derived_key(device_id@) == Ok::<Seq<u8>, CryptoFailure>(k@)
                && argon2id_hash(key_material(device_id@), KEY_SALT@) == Some(k@),
            Err(e) => derived_key(device_id@) == Err::<Seq<u8>, CryptoFailure>(e)
                && e == CryptoFailure::KeyDerivation,
        },
{
    let mut material: Vec<u8> = Vec::new();
    material.extend_from_slice(device_id.as_bytes());
    material.extend_from_slice(APP_SALT.as_bytes());
    assert(material@ =~= key_material(device_id@));
    key_from_hash(argon2_hash(material.as_slice(), KEY_SALT))
}

/// The bytes that are stored for a nonce and what the cipher made under it.
pub fn frame_sealed(nonce: &[u8; 12], sealed: Option<Vec<u8>>) -> (bytes: Result<Vec<u8>, CryptoFailure>)
    ensures
        match bytes {
            Ok(b) => framed(nonce@, option_bytes(sealed)) == Ok::<Seq<u8>, CryptoFailure>(b@),
            Err(e) => framed(nonce@, option_bytes(sealed)) == Err::<Seq<u8>, CryptoFailure>(e),
        },
{
    match sealed {
        None => Err(CryptoFailure::Encryption),
        Some(sealed) => {
            let mut bytes: Vec<u8> = Vec::new();
            bytes.extend_from_slice(nonce.as_slice());
            bytes.extend_from_slice(sealed.as_slice());
            assert(bytes@ =~= nonce@ + sealed@);
            Ok(bytes)
        },
    }
}

/// The nonce and the sealed bytes in what was decoded from a stored form.
pub fn split_framed(decoded: Option<Vec<u8>>) -> (parts: Result<([u8; 12], Vec<u8>), CryptoFailure>)
    ensures
        match parts {
            Ok(p) => unframed(option_bytes(decoded)) == Ok::<(Seq<u8>, Seq<u8>), CryptoFailure>(
                (p.0@, p.1@),
            ),
            Err(e) => unframed(option_bytes(decoded)) == Err::<(Seq<u8>, Seq<u8>), CryptoFailure>(
                e,
            ),
        },
{
    match decoded {
        None => Err(CryptoFailure::Encoding),
        Some(bytes) => {
            if bytes.len() < NONCE_LEN {
                return Err(CryptoFailure::TooShort);
            }
            let mut nonce = [0u8;12];
            let mut i: usize = 0;
            while i < NONCE_LEN
                invariant
                    i <= NONCE_LEN,
                    bytes.len() >= NONCE_LEN,
                    forall|j: int| 0 <= j < i ==> nonce@[j] == bytes@[j],
                decreases NONCE_LEN - i,
            {
                nonce[i] = bytes[i];
                i = i + 1;
            }
            assert(nonce@ =~= bytes@.subrange(0, NONCE_LEN as int));
            let sealed = slice_to_vec(slice_subrange(bytes.as_slice(), NONCE_LEN, bytes.len()));
            Ok((nonce, sealed))
        },
    }
}

/// The secret in what the cipher gave back: nothing where the cipher
/// refused, and nothing where what it gave back is not text.
pub fn secret_from_opened(opened: Option<Vec<u8>>) -> (secret: Result<String, CryptoFailure>)
    ensures
        match secret {
            Ok(s) => secret_of(option_bytes(opened)) == Ok::<Seq<char>, CryptoFailure>(s@),
            Err(e) => secret_of(option_bytes(opened)) == Err::<Seq<char>, CryptoFailure>(e),
        },
{
    match opened {
        None => Err(CryptoFailure::Authentication),
        Some(bytes) => match text_from_utf8(bytes) {
            Some(text) => Ok(text),
            None => Err(CryptoFailure::NotText),
        },
    }
}

/// Seals a secret under a key and a nonce. A nonce must not be used twice
/// under one key. What comes out holds the nonce and opens again to the
/// secret under the key. Sealing fails where the secret cannot be stored, and
/// only there.
pub fn encrypt_with_key(key: &[u8; 32], nonce: &[u8; 12], plaintext: &str) -> (blob: Result<
    String,
    CryptoFailure,
>)
    ensures
        match blob {
            Ok(b) => sealed_blob(key@, nonce@, plaintext@) == Ok::<Seq<char>, CryptoFailure>(b@)
                && opened_blob(key@, b@) == Ok::<Seq<char>, CryptoFailure>(plaintext@)
                && blob_nonce(b@) == Some(nonce@) && sealed_form(key@, b@, plaintext@),
            Err(e) => sealed_blob(key@, nonce@, plaintext@) == Err::<Seq<char>, CryptoFailure>(e),
        },
        blob.is_ok() <==> storable(encode_utf8(plaintext@).len()),
{
    let bytes = plaintext.as_bytes();
    if bytes.len() as u64 > CIPHER_MAX_LEN {
        return Err(CryptoFailure::Encryption);
    }
    // Four characters stand for three bytes, and no text is longer than
    // `isize::MAX`.
    if bytes.len() > usize::MAX / 8 * 3 - (NONCE_LEN + TAG_LEN) {
        return Err(CryptoFailure::Encryption);
    }
    match frame_sealed(nonce, seal(key, nonce, bytes)) {
        Err(e) => Err(e),
        Ok(stored) => {
            let blob = base64_encode(stored.as_slice());
            proof {
                let sealed = chacha20poly1305_seal(key@, nonce@, bytes@)->Some_0;
                assert(stored@.subrange(0, NONCE_LEN as int) =~= nonce@);
                assert(stored@.subrange(NONCE_LEN as int, stored@.len() as int) =~= sealed);
                encode_utf8_valid_utf8(plaintext@);
                encode_utf8_decode_utf8(plaintext@);
            }
            Ok(blob)
        },
    }
}

/// Opens the stored form of a secret under a key. Nothing comes out but
/// what was sealed: a stored form that opens to a secret is what sealing
/// that secret under the key gives, under the nonce that the form holds.
/// Sealed bytes that are too many to have been sealed are refused like those
/// whose tag does not fit.
pub fn decrypt_with_key(key: &[u8; 32], encrypted: &str) -> (plaintext: Result<String, CryptoFailure>)
    ensures
        match plaintext {
            Ok(p) => opened_blob(key@, encrypted@) == Ok::<Seq<char>, CryptoFailure>(p@)
                && sealed_form(key@, encrypted@, p@),
            Err(e) => opened_blob(key@, encrypted@) == Err::<Seq<char>, CryptoFailure>(e),
        },
{
    match split_framed(base64_decode(encrypted)) {
        Err(e) => Err(e),
        Ok((nonce, sealed)) => {
            if sealed.len() as u64 > CIPHER_MAX_LEN + TAG_LEN as u64 {
                return Err(CryptoFailure::Authentication);
            }
            let opened = open(key, &nonce, sealed.as_slice());
            proof {
                let given = option_bytes(opened);
                if given.is_some() && valid_utf8(given->Some_0) {
                    decode_utf8_encode_utf8(given->Some_0);
                }
            }
            secret_from_opened(opened)
        },
    }
}

/// Seals a secret under a key and a nonce that is drawn for it.
///
/// Whatever the nonce, what comes out holds it and opens again to the
/// secret under the key. Sealing fails where the secret cannot be stored, and
/// only there.
pub fn encrypt_under_key(key: &[u8; 32], plaintext: &str) -> (blob: Result<String, CryptoFailure>)
    ensures
        match blob {
            Ok(b) => opened_blob(key@, b@) == Ok::<Seq<char>, CryptoFailure>(plaintext@)
                && sealed_form(key@, b@, plaintext@) && exists|nonce: Seq<u8>|
                nonce.len() == NONCE_LEN && #[trigger] sealed_blob(key@, nonce, plaintext@) == Ok::<
                    Seq<char>,
                    CryptoFailure,
                >(b@) && blob_nonce(b@) == Some(nonce),
            Err(e) => e == CryptoFailure::Encryption,
        },
        blob.is_ok() <==> storable(encode_utf8(plaintext@).len()),
{
    let nonce = random_nonce();
    let blob = encrypt_with_key(key, &nonce, plaintext);
    proof {
        if blob.is_ok() {
            assert(nonce@.len() == NONCE_LEN);
            assert(sealed_blob(key@, nonce@, plaintext@) == Ok::<Seq<char>, CryptoFailure>(
                blob->Ok_0@,
            ));
        } else {
            assert(sealed_blob(key@, nonce@, plaintext@) is Err);
        }
    }
    blob
}

/// Encrypts a secret on a device, under a nonce that is drawn for it.
///
/// Whatever the nonce, what comes out holds it and decrypts to the secret on
/// the same device. Encryption fails where the key cannot be derived or the
/// secret cannot be stored, and only there.
pub fn encrypt(plaintext: &str, device_id: &str) -> (blob: Result<String, CryptoFailure>)
    ensures
        match blob {
            Ok(b) => encryption_failure(device_id@, plaintext@).is_none() && decrypted(
                device_id@,
                b@,
            ) == Ok::<Seq<char>, CryptoFailure>(plaintext@) && sealed_form(
                derived_key(device_id@)->Ok_0,
                b@,
                plaintext@,
            ) && exists|nonce: Seq<u8>|
                nonce.len() == NONCE_LEN && #[trigger] sealed_blob(
                    derived_key(device_id@)->Ok_0,
                    nonce,
                    plaintext@,
                ) == Ok::<Seq<char>, CryptoFailure>(b@) && blob_nonce(b@) == Some(nonce),
            Err(e) => encryption_failure(device_id@, plaintext@) == Some(e),
        },
{
    match derive_encryption_key(device_id) {
        Err(e) => Err(e),
        Ok(key) => encrypt_under_key(&key, plaintext),
    }
}

/// Decrypts the stored form of a secret on a device. Nothing comes out but
/// what was sealed under the key of the device.
pub fn decrypt(encrypted: &str, device_id: &str) -> (plaintext: Result<String, CryptoFailure>)
    ensures
        match plaintext {
            Ok(p) => decrypted(device_id@, encrypted@) == Ok::<Seq<char>, CryptoFailure>(p@)
                && sealed_form(derived_key(device_id@)->Ok_0, encrypted@, p@),
            Err(e) => decrypted(device_id@, encrypted@) == Err::<Seq<char>, CryptoFailure>(e),
        },
{
    match derive_encryption_key(device_id) {
        Err(e) => Err(e),
        Ok(key) => decrypt_with_key(&key, encrypted),
    }
}

/// Two stored forms that were sealed under different nonces differ.
pub proof fn lemma_distinct_nonces_distinct_blobs(
    first: Seq<char>,
    second: Seq<char>,
    first_nonce: Seq<u8>,
    second_nonce: Seq<u8>,
)
    requires
        blob_nonce(first) == Some(first_nonce),
        blob_nonce(second) == Some(second_nonce),
        first_nonce != second_nonce,
    ensures
        first != second,
{
}

/// Two stored forms that hold the same secret under one key and one nonce
/// stand for the same bytes. So a stored form that was changed behind its
/// nonce does not open to the secret that it was made of: it is refused, or
/// it is the stored form of another secret.
pub proof fn lemma_same_secret_same_bytes(
    key: Seq<u8>,
    first: Seq<char>,
    second: Seq<char>,
    secret: Seq<char>,
)
    requires
        sealed_form(key, first, secret),
        sealed_form(key, second, secret),
        blob_nonce(first) == blob_nonce(second),
    ensures
        base64_bytes(first) == base64_bytes(second),
{
    let a = base64_bytes(first)->Some_0;
    let b = base64_bytes(second)->Some_0;
    let nonce = blob_nonce(first)->Some_0;
    let sealed = chacha20poly1305_seal(key, nonce, encode_utf8(secret))->Some_0;
    assert(a =~= nonce + sealed);
    assert(b =~= nonce + sealed);
}

/// A stored form never opens to anything but what the cipher authenticated:
/// where the cipher refuses the sealed bytes, no secret comes out.
pub proof fn lemma_refused_by_cipher_is_refused(key: Seq<u8>, blob: Seq<char>)
    requires
        unframed(base64_bytes(blob)) matches Ok(parts) && chacha20poly1305_open(
            key,
            parts.0,
            parts.1,
        ).is_none(),
    ensures
        opened_blob(key, blob) == Err::<Seq<char>, CryptoFailure>(CryptoFailure::Authentication),
{
}

} // verus!
