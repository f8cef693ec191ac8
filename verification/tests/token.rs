use base64::Engine;
use money_insight::error::TokenError;
use money_insight::token::{
    check_expiry, current_time, expiry_from_claims, is_token_expired, is_token_expired_at,
    is_token_expired_by, time_from_reading, Claim,
};

fn part(json: &str) -> String {
    base64::engine::general_purpose::URL_SAFE_NO_PAD.encode(json.as_bytes())
}

fn token_with_claims(claims: &str) -> String {
    format!("{}.{}.{}", part("{\"alg\":\"HS256\",\"typ\":\"JWT\"}"), part(claims), part("sig"))
}

#[test]
fn token_with_exp_one_is_expired_now() {
    let token = token_with_claims("{\"exp\":1,\"iat\":0,\"sub\":\"user\"}");
    assert_eq!(is_token_expired(&token), Ok(true));
    assert_eq!(is_token_expired_at(&token, 1_700_000_000), Ok(true));
}

#[test]
fn token_is_expired_strictly_after_its_time() {
    let token = token_with_claims("{\"exp\":1000}");
    assert_eq!(is_token_expired_at(&token, 999), Ok(false));
    assert_eq!(is_token_expired_at(&token, 1000), Ok(false));
    assert_eq!(is_token_expired_at(&token, 1001), Ok(true));
}

#[test]
fn token_that_expires_in_the_far_future_is_not_expired_now() {
    let token = token_with_claims("{\"exp\":32503680000}");
    assert_eq!(is_token_expired(&token), Ok(false));
}

#[test]
fn signature_of_a_token_is_not_checked() {
    let good = token_with_claims("{\"exp\":5}");
    let forged = format!("{}.{}", &good[..good.rfind('.').unwrap()], "AAAA");
    assert_eq!(is_token_expired_at(&good, 6), Ok(true));
    assert_eq!(is_token_expired_at(&forged, 6), Ok(true));
    let rs256 = format!("{}.{}.{}", part("{\"alg\":\"RS256\",\"typ\":\"JWT\"}"), part("{\"exp\":5}"), "x");
    assert_eq!(is_token_expired_at(&rs256, 6), Ok(true));
}

#[test]
fn text_that_is_no_token_is_malformed() {
    assert_eq!(is_token_expired_at("", 0), Err(TokenError::Malformed));
    assert_eq!(is_token_expired_at("not-a-token", 0), Err(TokenError::Malformed));
    assert_eq!(is_token_expired_at("a.b", 0), Err(TokenError::Malformed));
    assert_eq!(is_token_expired_at("a.b.c", 0), Err(TokenError::Malformed));
    assert_eq!(is_token_expired("a.b.c"), Err(TokenError::Malformed));
}

#[test]
fn token_without_a_whole_number_of_expiry_is_malformed() {
    assert_eq!(is_token_expired_at(&token_with_claims("{\"sub\":\"user\"}"), 0), Err(TokenError::Malformed));
    assert_eq!(is_token_expired_at(&token_with_claims("{\"exp\":\"soon\"}"), 0), Err(TokenError::Malformed));
    assert_eq!(is_token_expired_at(&token_with_claims("{\"exp\":1.5}"), 0), Err(TokenError::Malformed));
    assert_eq!(is_token_expired_at(&token_with_claims("{\"exp\":-5}"), 0), Err(TokenError::Malformed));
    assert_eq!(is_token_expired_at(&token_with_claims("[1]"), 0), Err(TokenError::Malformed));
}

#[test]
fn expiry_that_was_read_is_compared_with_the_time() {
    assert_eq!(check_expiry(Some(10), 11), Ok(true));
    assert_eq!(check_expiry(Some(10), 10), Ok(false));
    assert_eq!(check_expiry(Some(i64::MAX), i64::MAX), Ok(false));
    assert_eq!(check_expiry(Some(i64::MIN), i64::MIN + 1), Ok(true));
    assert_eq!(check_expiry(None, 0), Err(TokenError::Malformed));
}

#[test]
fn clock_of_the_machine_is_past_2020() {
    let now = current_time().unwrap();
    assert!(now > 1_577_836_800);
}

#[test]
fn clock_that_could_not_be_read_is_an_error_for_a_token_that_decodes() {
    let token = token_with_claims("{\"exp\":1000}");
    assert_eq!(is_token_expired_by(&token, None), Err(TokenError::Clock));
    assert_eq!(is_token_expired_by(&token, Some(1001)), Ok(true));
    assert_eq!(is_token_expired_by(&token, Some(1000)), Ok(false));
    assert_eq!(is_token_expired_by("a.b.c", None), Err(TokenError::Malformed));
    assert_eq!(is_token_expired_by("a.b.c", Some(5)), Err(TokenError::Malformed));
}

#[test]
fn reading_of_the_clock_is_cut_to_a_signed_number() {
    assert_eq!(time_from_reading(Some(0)), Ok(0));
    assert_eq!(time_from_reading(Some(1_700_000_000)), Ok(1_700_000_000));
    assert_eq!(time_from_reading(Some(9_223_372_036_854_775_807)), Ok(i64::MAX));
    assert_eq!(time_from_reading(Some(9_223_372_036_854_775_808)), Ok(i64::MIN));
    assert_eq!(time_from_reading(Some(u64::MAX)), Ok(-1));
    assert_eq!(time_from_reading(None), Err(TokenError::Clock));
}

#[test]
fn time_of_issue_that_is_stated_must_be_a_whole_number() {
    let at = |claims: &str| is_token_expired_at(&token_with_claims(claims), 6);
    assert_eq!(at("{\"exp\":5,\"iat\":3}"), Ok(true));
    assert_eq!(at("{\"exp\":5,\"iat\":-3}"), Ok(true));
    assert_eq!(at("{\"exp\":5,\"iat\":null}"), Ok(true));
    assert_eq!(at("{\"exp\":5,\"iat\":\"then\"}"), Err(TokenError::Malformed));
    assert_eq!(at("{\"exp\":5,\"iat\":1.5}"), Err(TokenError::Malformed));
    assert_eq!(at("{\"exp\":5,\"iat\":true}"), Err(TokenError::Malformed));
    assert_eq!(at("{\"exp\":5,\"iat\":[3]}"), Err(TokenError::Malformed));
    assert_eq!(at("{\"exp\":5,\"iat\":18446744073709551615}"), Err(TokenError::Malformed));
}

#[test]
fn subject_that_is_stated_must_be_a_text() {
    let at = |claims: &str| is_token_expired_at(&token_with_claims(claims), 4);
    assert_eq!(at("{\"exp\":5,\"sub\":\"user\"}"), Ok(false));
    assert_eq!(at("{\"exp\":5,\"sub\":\"\"}"), Ok(false));
    assert_eq!(at("{\"exp\":5,\"sub\":null}"), Ok(false));
    assert_eq!(at("{\"exp\":5,\"sub\":7}"), Err(TokenError::Malformed));
    assert_eq!(at("{\"exp\":5,\"sub\":{\"id\":7}}"), Err(TokenError::Malformed));
    assert_eq!(at("{\"exp\":5,\"sub\":false}"), Err(TokenError::Malformed));
}

#[test]
fn claims_that_the_engine_does_not_read_are_passed_over() {
    let token = token_with_claims("{\"exp\":5,\"role\":[1,2],\"name\":7,\"jti\":null}");
    assert_eq!(is_token_expired_at(&token, 6), Ok(true));
}

#[test]
fn expiry_is_read_from_claims_of_the_right_kinds() {
    let exp = Some(Claim::Number(Some(10)));
    assert_eq!(expiry_from_claims(exp, Some(Claim::Absent), Some(Claim::Absent)), Some(10));
    assert_eq!(expiry_from_claims(exp, Some(Claim::Null), Some(Claim::Null)), Some(10));
    assert_eq!(expiry_from_claims(exp, Some(Claim::Number(Some(-4))), Some(Claim::Text)), Some(10));
    assert_eq!(
        expiry_from_claims(Some(Claim::Number(Some(i64::MIN))), Some(Claim::Absent), Some(Claim::Text)),
        Some(i64::MIN)
    );
    assert_eq!(expiry_from_claims(exp, Some(Claim::Number(None)), Some(Claim::Text)), None);
    assert_eq!(expiry_from_claims(exp, Some(Claim::Text), Some(Claim::Text)), None);
    assert_eq!(expiry_from_claims(exp, Some(Claim::Other), Some(Claim::Text)), None);
    assert_eq!(expiry_from_claims(exp, Some(Claim::Absent), Some(Claim::Number(Some(1)))), None);
    assert_eq!(expiry_from_claims(exp, Some(Claim::Absent), Some(Claim::Other)), None);
}

#[test]
fn expiry_is_not_read_where_it_is_no_whole_number_or_the_token_does_not_decode() {
    let fine = Some(Claim::Absent);
    assert_eq!(expiry_from_claims(Some(Claim::Absent), fine, fine), None);
    assert_eq!(expiry_from_claims(Some(Claim::Null), fine, fine), None);
    assert_eq!(expiry_from_claims(Some(Claim::Number(None)), fine, fine), None);
    assert_eq!(expiry_from_claims(Some(Claim::Text), fine, fine), None);
    assert_eq!(expiry_from_claims(Some(Claim::Other), fine, fine), None);
    assert_eq!(expiry_from_claims(None, None, None), None);
    assert_eq!(expiry_from_claims(None, fine, fine), None);
    assert_eq!(expiry_from_claims(Some(Claim::Number(Some(10))), None, fine), None);
    assert_eq!(expiry_from_claims(Some(Claim::Number(Some(10))), fine, None), None);
}
