//! Expiry of access tokens.
//!
//! A token is a JSON Web Token. The engine reads the time of expiry that the
//! token states and does not check the signature: that is for the remote
//! service, which issued the token and will refuse a forged one. It takes a
//! token for an access token only where the time of issue and the subject,
//! if the token states them, are a whole number and a text.

use vstd::prelude::*;
use crate::error::TokenError;

verus! {

/// The claim that states when a token expires.
pub const EXPIRY_CLAIM: &'static str = "exp";

/// The claim that states when a token was issued.
pub const ISSUED_CLAIM: &'static str = "iat";

/// The claim that states whom a token was issued to.
pub const SUBJECT_CLAIM: &'static str = "sub";

/// What a claim of a token holds, as far as the engine tells claims apart.
#[derive(Clone, Copy, Debug, PartialEq, Eq)]
pub enum Claim {
    /// The token states no such claim.
    Absent,
    /// The claim is stated as `null`.
    Null,
    /// The claim is a number: the whole number that it is, where it is one
    /// of sixty-four bits with a sign.
    Number(Option<i64>),
    /// The claim is a text.
    Text,
    /// The claim is anything else: a truth value, a list or an object.
    Other,
}

/// What the claim of a name holds in the claims that `jsonwebtoken` decodes
/// from a token without checking the signature; `None` where it does not
/// decode the token.
pub uninterp spec fn token_claim(token: Seq<char>, name: Seq<char>) -> Option<Claim>;

/// Calls `jsonwebtoken::decode` with the check of the signature and of the
/// expiry switched off, and tells what the claim of a name holds in the
/// claims that come out. The contract only gives the outcome its name.
#[verifier::external_body]
fn decode_claim(token: &str, name: &str) -> (claim: Option<Claim>)
    ensures
        claim == token_claim(token@, name@),
{
    let mut validation = jsonwebtoken::Validation::new(jsonwebtoken::Algorithm::HS256);
    validation.insecure_disable_signature_validation();
    validation.validate_exp = false;
    let key = jsonwebtoken::DecodingKey::from_secret(&[]);
    let data = jsonwebtoken::decode::<serde_json::Value>(token, &key, &validation).ok()?;
    Some(match data.claims.get(name) {
        None => Claim::Absent,
        Some(serde_json::Value::Null) => Claim::Null,
        Some(serde_json::Value::Number(number)) => Claim::Number(number.as_i64()),
        Some(serde_json::Value::String(_)) => Claim::Text,
        Some(_) => Claim::Other,
    })
}

/// Whether a claim may stand where a whole number may be stated or left out.
pub open spec fn optional_number(claim: Claim) -> bool {
    claim == Claim::Absent || claim == Claim::Null || (claim matches Claim::Number(Some(_)))
}

/// Whether a claim may stand where a text may be stated or left out.
pub open spec fn optional_text(claim: Claim) -> bool {
    claim == Claim::Absent || claim == Claim::Null || claim == Claim::Text
}

/// The time of expiry that the claims of a token give, in seconds since the
/// start of 1970. The token must decode and state its expiry as a whole
/// number; the time of issue, where it is stated, must be a whole number,
/// and the subject a text.
pub open spec fn claimed_expiry(exp: Option<Claim>, iat: Option<Claim>, sub: Option<Claim>) -> Option<
    i64,
> {
    match (exp, iat, sub) {
        (Some(Claim::Number(Some(at))), Some(issued), Some(subject)) => if optional_number(issued)
            && optional_text(subject) {
            Some(at)
        } else {
            None
        },
        _ => None,
    }
}

/// The time of expiry that a token states; `None` where the token does not
/// decode or its claims are not those of an access token.
pub open spec fn token_expiry(token: Seq<char>) -> Option<i64> {
    claimed_expiry(
        token_claim(token, EXPIRY_CLAIM@),
        token_claim(token, ISSUED_CLAIM@),
        token_claim(token, SUBJECT_CLAIM@),
    )
}

/// The time of expiry that the claims of a token give.
pub fn expiry_from_claims(exp: Option<Claim>, iat: Option<Claim>, sub: Option<Claim>) -> (expiry: Option<
    i64,
>)
    ensures
        expiry == claimed_expiry(exp, iat, sub),
{
    match (exp, iat, sub) {
        (Some(Claim::Number(Some(at))), Some(issued), Some(subject)) => {
            let issued_fits = match issued {
                Claim::Absent | Claim::Null | Claim::Number(Some(_)) => true,
                _ => false,
            };
            let subject_fits = match subject {
                Claim::Absent | Claim::Null | Claim::Text => true,
                _ => false,
            };
            if issued_fits && subject_fits {
                Some(at)
            } else {
                None
            }
        },
        _ => None,
    }
}

/// The time of expiry that a token states.
fn decode_expiry(token: &str) -> (expiry: Option<i64>)
    ensures
        expiry == token_expiry(token@),
{
    expiry_from_claims(
        decode_claim(token, EXPIRY_CLAIM),
        decode_claim(token, ISSUED_CLAIM),
        decode_claim(token, SUBJECT_CLAIM),
    )
}

/// Calls `elapsed` on `std::time::UNIX_EPOCH`: the whole seconds from the
/// start of 1970 to now, or nothing where the clock stands before 1970.
/// Nothing is known of the number.
#[verifier::external_body]
fn seconds_since_epoch() -> (secs: Option<u64>) {
    match std::time::UNIX_EPOCH.elapsed() {
        Ok(elapsed) => Some(elapsed.as_secs()),
        Err(_) => None,
    }
}

/// Whether a time of expiry lies before `now`; an error where there is none.
pub open spec fn expiry_passed(expiry: Option<i64>, now: i64) -> Result<bool, TokenError> {
    match expiry {
        Some(at) => Ok(at < now),
        None => Err(TokenError::Malformed),
    }
}

/// Whether a token is past its time at `now`.
pub open spec fn expired_at(token: Seq<char>, now: i64) -> Result<bool, TokenError> {
    expiry_passed(token_expiry(token), now)
}

/// Whether a time of expiry, as it was read from a token, lies before `now`.
pub fn check_expiry(expiry: Option<i64>, now: i64) -> (expired: Result<bool, TokenError>)
    ensures
        expired == expiry_passed(expiry, now),
{
    match expiry {
        Some(at) => Ok(at < now),
        None => Err(TokenError::Malformed),
    }
}

/// Whether a token is past its time at `now`.
pub fn is_token_expired_at(token: &str, now: i64) -> (expired: Result<bool, TokenError>)
    ensures
        expired == expired_at(token@, now),
{
    check_expiry(decode_expiry(token), now)
}

/// Whether a token is past its time by a reading of the clock. A token that
/// does not decode is an error whatever the clock says; a clock that could
/// not be read is an error for a token that decodes.
pub open spec fn expired_by(token: Seq<char>, now: Option<i64>) -> Result<bool, TokenError> {
    match token_expiry(token) {
        None => Err(TokenError::Malformed),
        Some(at) => match now {
            Some(n) => Ok(at < n),
            None => Err(TokenError::Clock),
        },
    }
}

/// Whether a token is past its time by a reading of the clock, which may
/// have failed.
pub fn is_token_expired_by(token: &str, now: Option<i64>) -> (expired: Result<bool, TokenError>)
    ensures
        expired == expired_by(token@, now),
{
    match decode_expiry(token) {
        None => Err(TokenError::Malformed),
        Some(at) => match now {
            Some(n) => Ok(at < n),
            None => Err(TokenError::Clock),
        },
    }
}

/// The time that a reading of the clock stands for: the seconds that were
/// read, cut to sixty-four bits with a sign, and an error where the clock
/// could not be read.
pub open spec fn reading_time(secs: Option<u64>) -> Result<i64, TokenError> {
    match secs {
        Some(s) => Ok(s as i64),
        None => Err(TokenError::Clock),
    }
}

/// The time that a reading of the clock stands for.
pub fn time_from_reading(secs: Option<u64>) -> (now: Result<i64, TokenError>)
    ensures
        now == reading_time(secs),
{
    match secs {
        Some(s) => Ok(
            #[verifier::truncate]
            (s as i64),
        ),
        None => Err(TokenError::Clock),
    }
}

/// The time of the machine, in seconds since the start of 1970.
pub fn current_time() -> (now: Result<i64, TokenError>)
    ensures
        now matches Err(e) ==> e == TokenError::Clock,
{
    time_from_reading(seconds_since_epoch())
}

/// Whether a token is past its time now, by the clock of the machine: the
/// answer of [`is_token_expired_by`] for what the clock gave.
pub fn is_token_expired(token: &str) -> (expired: Result<bool, TokenError>)
    ensures
        exists|now: Option<i64>| expired == #[trigger] expired_by(token@, now),
{
    let now = match current_time() {
        Ok(n) => Some(n),
        Err(_) => None,
    };
    let expired = is_token_expired_by(token, now);
    assert(expired == expired_by(token@, now));
    expired
}

} // verus!
