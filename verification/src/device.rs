//! The identifier of the device, from which the key of the credential store
//! is derived.
//!
//! Where the platform hands out an identifier of the machine, that is the
//! one. Where it does not, the identifier is made of what the platform does
//! hand out, by hashing.

use vstd::prelude::*;
use vstd::utf8::encode_utf8;
use sha2::Digest;
use crate::hexadecimal::{hex_encode, hex_lower};

verus! {

/// What is hashed together with the seed of the platform.
pub const DEVICE_SALT: &'static str = "money-insight-unique-salt";

/// The seed that is taken where the platform hands out nothing.
pub const FALLBACK_SEED: &'static str = "money-insight-android-device";

/// The SHA-256 digest of bytes.
pub uninterp spec fn sha256(data: Seq<u8>) -> Seq<u8>;

/// Calls `sha2::Sha256::digest`. The contract only gives the outcome its
/// name.
#[verifier::external_body]
fn sha256_digest(data: &[u8]) -> (digest: [u8; 32])
    ensures
        digest@ == sha256(data@),
{
    sha2::Sha256::digest(data).into()
}

/// The seed of the identifier: the first of the values that the platform
/// hands out, or the fallback where it hands out none.
pub open spec fn seed_of(first: Option<Seq<char>>, second: Option<Seq<char>>) -> Seq<char> {
    match first {
        Some(seed) => seed,
        None => match second {
            Some(seed) => seed,
            None => FALLBACK_SEED@,
        },
    }
}

/// The identifier that is made of a seed: the digest of the seed and the
/// salt behind it, in hexadecimal.
pub open spec fn identifier_of(seed: Seq<char>) -> Seq<char> {
    hex_lower(sha256(encode_utf8(seed) + encode_utf8(DEVICE_SALT@)))
}

/// The identifier of a device whose platform hands out no identifier of the
/// machine, made of up to two values that it does hand out.
pub fn hashed_device_identifier(first: Option<&str>, second: Option<&str>) -> (identifier: String)
    ensures
        identifier@ == identifier_of(
            seed_of(
                match first {
                    Some(s) => Some(s@),
                    None => None,
                },
                match second {
                    Some(s) => Some(s@),
                    None => None,
                },
            ),
        ),
{
    let seed: &str = match first {
        Some(seed) => seed,
        None => match second {
            Some(seed) => seed,
            None => FALLBACK_SEED,
        },
    };
    let mut data: Vec<u8> = Vec::new();
    data.extend_from_slice(seed.as_bytes());
    data.extend_from_slice(DEVICE_SALT.as_bytes());
    assert(data@ =~= encode_utf8(seed@) + encode_utf8(DEVICE_SALT@));
    let digest = sha256_digest(data.as_slice());
    hex_encode(digest.as_slice())
}

} // verus!
