use base64::Engine;
use money_insight::auth::{
    AuthCheck, AuthResponse, AuthService, AuthStatus, ClientConfig, CredentialStore,
    RemoteSession, TokenPair,
};
use money_insight::crypto::{decrypt_with_key, derive_encryption_key, encrypt_under_key};
use money_insight::error::{Credential, CryptoFailure, SyncError};

const DEVICE: &str = "device-a";
const NOW: i64 = 1_700_000_000;
const CLOCK: Option<i64> = Some(NOW);

fn service() -> AuthService {
    AuthService::new(
        "http://localhost:3000".to_string(),
        "money-insight".to_string(),
        "default-key".to_string(),
    )
}

fn part(json: &str) -> String {
    base64::engine::general_purpose::URL_SAFE_NO_PAD.encode(json.as_bytes())
}

fn token_expiring_at(exp: i64) -> String {
    format!(
        "{}.{}.{}",
        part("{\"alg\":\"HS256\",\"typ\":\"JWT\"}"),
        part(&format!("{{\"exp\":{},\"sub\":\"u1\"}}", exp)),
        part("sig")
    )
}

fn session() -> RemoteSession {
    RemoteSession {
        user_id: "u1".to_string(),
        access_token: "access-1".to_string(),
        refresh_token: "refresh-1".to_string(),
        apps: vec!["money-insight".to_string(), "other".to_string()],
        is_admin: true,
    }
}

fn store_with_access_token(token: &str) -> CredentialStore {
    let key = derive_encryption_key(DEVICE).unwrap();
    let mut store = CredentialStore::new();
    store.access_token = Some(encrypt_under_key(&key, token).unwrap());
    store.refresh_token = Some(encrypt_under_key(&key, "refresh-0").unwrap());
    store.user_id = Some("u1".to_string());
    store.apps = Some(vec!["money-insight".to_string()]);
    store.is_admin = Some(false);
    store
}

#[test]
fn without_an_access_token_the_user_is_not_signed_in_and_nobody_is_asked() {
    let auth = service();
    let store = CredentialStore::new();
    let check = auth.check_authentication(&store, DEVICE, CLOCK);
    assert_eq!(check, AuthCheck::Unauthenticated);
    assert_ne!(check, AuthCheck::RefreshRequired);
    assert!(!auth.is_authenticated(check, true));
    assert!(!auth.is_authenticated(check, false));
}

#[test]
fn expired_access_token_asks_for_a_refresh_whose_outcome_decides() {
    let auth = service();
    let mut store = store_with_access_token(&token_expiring_at(1));
    let check = auth.check_authentication(&store, DEVICE, CLOCK);
    assert_eq!(check, AuthCheck::RefreshRequired);

    let tokens = auth.begin_refresh(&store, DEVICE).unwrap();
    assert_eq!(tokens.refresh_token, "refresh-0");
    let fresh = token_expiring_at(NOW + 3600);
    let refreshed = auth.refresh_token(
        &mut store,
        DEVICE,
        Ok((Some(fresh.clone()), Some("refresh-1".to_string()))),
    );
    assert_eq!(refreshed, Ok(()));
    assert!(auth.is_authenticated(check, refreshed.is_ok()));
    assert_eq!(auth.get_access_token(&store, DEVICE), Ok(fresh));
    assert_eq!(auth.check_authentication(&store, DEVICE, CLOCK), AuthCheck::Authenticated);

    let mut other = store_with_access_token(&token_expiring_at(1));
    let before = other.clone();
    let failed = auth.refresh_token(&mut other, DEVICE, Err("401".to_string()));
    assert_eq!(failed, Err(SyncError::RefreshFailure));
    assert!(!auth.is_authenticated(check, failed.is_ok()));
    assert_eq!(other, before);
}

#[test]
fn access_token_that_is_good_needs_nothing() {
    let auth = service();
    let store = store_with_access_token(&token_expiring_at(NOW + 10));
    let check = auth.check_authentication(&store, DEVICE, CLOCK);
    assert_eq!(check, AuthCheck::Authenticated);
    assert!(auth.is_authenticated(check, false));
    assert_eq!(auth.check_authentication(&store, DEVICE, Some(NOW + 10)), AuthCheck::Authenticated);
    assert_eq!(auth.check_authentication(&store, DEVICE, Some(NOW + 11)), AuthCheck::RefreshRequired);
}

#[test]
fn access_token_that_does_not_decode_or_decrypt() {
    let auth = service();
    let garbled = store_with_access_token("not a token");
    assert_eq!(auth.check_authentication(&garbled, DEVICE, CLOCK), AuthCheck::Unauthenticated);
    assert_eq!(auth.check_status(&garbled, DEVICE, CLOCK), AuthCheck::RefreshRequired);
    let mut tampered = CredentialStore::new();
    tampered.access_token = Some("AAAA".to_string());
    assert_eq!(auth.check_authentication(&tampered, DEVICE, CLOCK), AuthCheck::Unauthenticated);
    assert_eq!(auth.check_status(&tampered, DEVICE, CLOCK), AuthCheck::Unauthenticated);
    assert_eq!(auth.check_status(&CredentialStore::new(), DEVICE, CLOCK), AuthCheck::Unauthenticated);
    let good = store_with_access_token(&token_expiring_at(NOW + 10));
    assert_eq!(auth.check_status(&good, DEVICE, CLOCK), AuthCheck::Authenticated);
    assert_eq!(auth.check_status(&good, DEVICE, None), AuthCheck::RefreshRequired);
    assert_eq!(auth.check_authentication(&good, DEVICE, None), AuthCheck::Unauthenticated);
    assert_eq!(auth.check_status(&garbled, DEVICE, None), AuthCheck::RefreshRequired);
    assert_eq!(auth.check_authentication(&good, "device-b", CLOCK), AuthCheck::Unauthenticated);
}

#[test]
fn login_keeps_the_session_tokens_encrypted_and_the_rest_in_the_clear() {
    let auth = service();
    let mut store = CredentialStore::new();
    let response = auth.login(&mut store, DEVICE, Ok(session())).unwrap();
    assert_eq!(response, AuthResponse {
        user_id: "u1".to_string(),
        access_token: "access-1".to_string(),
        refresh_token: "refresh-1".to_string(),
        apps: Some(vec!["money-insight".to_string(), "other".to_string()]),
        is_admin: Some(true),
    });
    assert_eq!(store.user_id, Some("u1".to_string()));
    assert_eq!(store.server_url, Some("http://localhost:3000".to_string()));
    assert_eq!(store.app_id, Some("money-insight".to_string()));
    assert_eq!(store.apps, Some(vec!["money-insight".to_string(), "other".to_string()]));
    assert_eq!(store.is_admin, Some(true));
    let key = derive_encryption_key(DEVICE).unwrap();
    let access = store.access_token.clone().unwrap();
    let refresh = store.refresh_token.clone().unwrap();
    let api_key = store.api_key.clone().unwrap();
    assert_ne!(access, "access-1");
    assert!(!access.contains("access-1"));
    assert_eq!(decrypt_with_key(&key, &access), Ok("access-1".to_string()));
    assert_eq!(decrypt_with_key(&key, &refresh), Ok("refresh-1".to_string()));
    assert_eq!(decrypt_with_key(&key, &api_key), Ok("default-key".to_string()));
}

#[test]
fn register_keeps_the_session_and_hands_out_no_empty_memberships() {
    let auth = service();
    let mut store = CredentialStore::new();
    store.apps = Some(vec!["kept".to_string()]);
    store.is_admin = Some(true);
    let plain = RemoteSession { apps: vec![], is_admin: false, ..session() };
    let response = auth.register(&mut store, DEVICE, Ok(plain)).unwrap();
    assert_eq!(response.apps, None);
    assert_eq!(response.is_admin, None);
    assert_eq!(store.apps, Some(vec!["kept".to_string()]));
    assert_eq!(store.is_admin, Some(true));
    assert_eq!(store.user_id, Some("u1".to_string()));
    assert_eq!(auth.get_refresh_token(&store, DEVICE), Ok("refresh-1".to_string()));
}

#[test]
fn refused_login_or_registration_changes_nothing() {
    let auth = service();
    let mut store = store_with_access_token("old");
    let before = store.clone();
    assert_eq!(
        auth.login(&mut store, DEVICE, Err("bad password".to_string())),
        Err(SyncError::TransportFailure)
    );
    assert_eq!(
        auth.register(&mut store, DEVICE, Err("taken".to_string())),
        Err(SyncError::TransportFailure)
    );
    assert_eq!(store, before);
}

#[test]
fn session_response_maps_empty_memberships_and_plain_users_to_nothing() {
    let response = AuthService::session_response(session());
    assert_eq!(response.apps, Some(vec!["money-insight".to_string(), "other".to_string()]));
    assert_eq!(response.is_admin, Some(true));
    let response = AuthService::session_response(RemoteSession {
        apps: vec![],
        is_admin: false,
        ..session()
    });
    assert_eq!(response.apps, None);
    assert_eq!(response.is_admin, None);
    assert_eq!(response.user_id, "u1");
    assert_eq!(response.access_token, "access-1");
    assert_eq!(response.refresh_token, "refresh-1");
}

#[test]
fn store_auth_data_keeps_what_it_is_given() {
    let auth = service();
    let mut store = CredentialStore::new();
    let response = AuthResponse {
        user_id: "u2".to_string(),
        access_token: "a".to_string(),
        refresh_token: "r".to_string(),
        apps: None,
        is_admin: Some(false),
    };
    assert_eq!(auth.store_auth_data(&mut store, DEVICE, &response, "app-x", "key-x"), Ok(()));
    assert_eq!(store.user_id, Some("u2".to_string()));
    assert_eq!(store.app_id, Some("app-x".to_string()));
    assert_eq!(store.apps, None);
    assert_eq!(store.is_admin, Some(false));
    assert_eq!(auth.get_stored_api_key(&store, DEVICE), Ok("key-x".to_string()));
}

#[test]
fn logout_deletes_every_stored_value() {
    let auth = service();
    let mut store = CredentialStore::new();
    auth.login(&mut store, DEVICE, Ok(session())).unwrap();
    assert_ne!(store, CredentialStore::new());
    auth.logout(&mut store);
    assert_eq!(store, CredentialStore::new());
    assert_eq!(store.access_token, None);
    assert_eq!(store.server_url, None);
    assert_eq!(auth.check_authentication(&store, DEVICE, CLOCK), AuthCheck::Unauthenticated);
    auth.logout(&mut store);
    assert_eq!(store, CredentialStore::new());
}

#[test]
fn missing_secrets_are_told_apart_from_secrets_that_do_not_decrypt() {
    let auth = service();
    let mut store = CredentialStore::new();
    assert_eq!(
        auth.get_access_token(&store, DEVICE),
        Err(SyncError::CredentialMissing(Credential::AccessToken))
    );
    assert_eq!(
        auth.get_refresh_token(&store, DEVICE),
        Err(SyncError::CredentialMissing(Credential::RefreshToken))
    );
    assert_eq!(
        auth.get_stored_api_key(&store, DEVICE),
        Err(SyncError::CredentialMissing(Credential::ApiKey))
    );
    store.access_token = Some("%%%".to_string());
    assert_eq!(
        auth.get_access_token(&store, DEVICE),
        Err(SyncError::CryptoFailure(CryptoFailure::Encoding))
    );
}

#[test]
fn refresh_needs_both_stored_tokens() {
    let auth = service();
    let mut store = store_with_access_token("access-0");
    assert_eq!(
        auth.begin_refresh(&store, DEVICE),
        Ok(TokenPair {
            access_token: "access-0".to_string(),
            refresh_token: "refresh-0".to_string(),
        })
    );
    let kept = store.access_token.take();
    assert_eq!(
        auth.begin_refresh(&store, DEVICE),
        Err(SyncError::CredentialMissing(Credential::AccessToken))
    );
    store.access_token = Some("AAAA".to_string());
    assert_eq!(
        auth.begin_refresh(&store, DEVICE),
        Err(SyncError::CryptoFailure(CryptoFailure::TooShort))
    );
    store.refresh_token = None;
    assert_eq!(
        auth.begin_refresh(&store, DEVICE),
        Err(SyncError::CredentialMissing(Credential::RefreshToken))
    );
    store.access_token = kept;
    assert_eq!(
        auth.begin_refresh(&store, DEVICE),
        Err(SyncError::CredentialMissing(Credential::RefreshToken))
    );
}

#[test]
fn refresh_without_both_new_tokens_fails_and_changes_nothing() {
    let auth = service();
    let mut store = store_with_access_token("access-0");
    let before = store.clone();
    assert_eq!(
        auth.refresh_token(&mut store, DEVICE, Ok((None, Some("r".to_string())))),
        Err(SyncError::CredentialMissing(Credential::AccessToken))
    );
    assert_eq!(
        auth.refresh_token(&mut store, DEVICE, Ok((None, None))),
        Err(SyncError::CredentialMissing(Credential::AccessToken))
    );
    assert_eq!(
        auth.refresh_token(&mut store, DEVICE, Ok((Some("a".to_string()), None))),
        Err(SyncError::CredentialMissing(Credential::RefreshToken))
    );
    assert_eq!(store, before);
}

#[test]
fn new_tokens_replace_the_old_ones_and_nothing_else() {
    let auth = service();
    let mut store = store_with_access_token("access-0");
    store.server_url = Some("https://kept".to_string());
    let before = store.clone();
    assert_eq!(auth.update_tokens_raw(&mut store, DEVICE, "access-9", "refresh-9"), Ok(()));
    assert_eq!(auth.get_access_token(&store, DEVICE), Ok("access-9".to_string()));
    assert_eq!(auth.get_refresh_token(&store, DEVICE), Ok("refresh-9".to_string()));
    assert_ne!(store.access_token, before.access_token);
    assert_eq!(store.user_id, before.user_id);
    assert_eq!(store.apps, before.apps);
    assert_eq!(store.is_admin, before.is_admin);
    assert_eq!(store.server_url, before.server_url);
    assert_eq!(store.api_key, before.api_key);
}

#[test]
fn status_tells_who_is_signed_in_and_nothing_of_anyone_else() {
    let auth = service();
    let store = store_with_access_token(&token_expiring_at(NOW + 10));
    let signed_in = AuthStatus {
        is_authenticated: true,
        user_id: Some("u1".to_string()),
        apps: Some(vec!["money-insight".to_string()]),
        is_admin: Some(false),
        server_url: Some("http://localhost:3000".to_string()),
    };
    let signed_out = AuthStatus {
        is_authenticated: false,
        user_id: None,
        apps: None,
        is_admin: None,
        server_url: Some("http://localhost:3000".to_string()),
    };
    assert_eq!(auth.get_auth_status(&store, AuthCheck::Authenticated, false), signed_in);
    assert_eq!(auth.get_auth_status(&store, AuthCheck::RefreshRequired, true), signed_in);
    assert_eq!(auth.get_auth_status(&store, AuthCheck::RefreshRequired, false), signed_out);
    assert_eq!(auth.get_auth_status(&store, AuthCheck::Unauthenticated, true), signed_out);
}

#[test]
fn sync_settings_take_the_defaults_of_the_service_where_none_are_given() {
    let auth = service();
    let mut store = store_with_access_token("access-0");
    let before = store.clone();
    assert_eq!(auth.configure_sync(&mut store, DEVICE, None, None, None), Ok(()));
    assert_eq!(store.server_url, Some("http://localhost:3000".to_string()));
    assert_eq!(store.app_id, Some("money-insight".to_string()));
    assert_eq!(auth.get_stored_api_key(&store, DEVICE), Ok("default-key".to_string()));
    assert_eq!(store.access_token, before.access_token);
    assert_eq!(store.user_id, before.user_id);
    assert_eq!(
        auth.configure_sync(
            &mut store,
            DEVICE,
            Some("https://sync.example".to_string()),
            Some("app-2".to_string()),
            Some("key-2".to_string()),
        ),
        Ok(())
    );
    assert_eq!(store.server_url, Some("https://sync.example".to_string()));
    assert_eq!(store.app_id, Some("app-2".to_string()));
    assert_eq!(auth.get_stored_api_key(&store, DEVICE), Ok("key-2".to_string()));
}

#[test]
fn new_address_keeps_the_identifier_and_key_of_the_service() {
    let auth = service();
    assert_eq!(
        auth.set_server_url("https://new.example".to_string()),
        ClientConfig {
            server_url: "https://new.example".to_string(),
            app_id: "money-insight".to_string(),
            api_key: "default-key".to_string(),
        }
    );
    assert_eq!(auth.server_url, "http://localhost:3000");
}
