//! The credential store and the decisions of the authentication flow.
//!
//! The tokens and the API key are kept encrypted; who the user is, and where
//! the remote service lives, is kept in the clear. The calls to the remote
//! service are made by the application: this module says what is to be sent,
//! and what is made of the answer.

use vstd::prelude::*;
use vstd::utf8::encode_utf8;
use crate::crypto::{
    decrypt, decrypt_with_key, decrypted, derive_encryption_key, derived_key, encrypt_under_key,
    storable,
};
use crate::error::{Credential, CryptoFailure, SyncError};
use crate::text::{clone_option_text, clone_option_texts, option_text, option_texts, texts};
use crate::token::{expired_by, is_token_expired_by};

verus! {

/// What is kept of a session between runs.
#[derive(Debug, PartialEq)]
pub struct CredentialStore {
    /// The access token, encrypted.
    pub access_token: Option<String>,
    /// The refresh token, encrypted.
    pub refresh_token: Option<String>,
    /// The API key of this installation, encrypted.
    pub api_key: Option<String>,
    pub user_id: Option<String>,
    pub apps: Option<Vec<String>>,
    pub is_admin: Option<bool>,
    pub server_url: Option<String>,
    pub app_id: Option<String>,
}

/// What a [`CredentialStore`] holds.
pub struct CredentialStoreView {
    pub access_token: Option<Seq<char>>,
    pub refresh_token: Option<Seq<char>>,
    pub api_key: Option<Seq<char>>,
    pub user_id: Option<Seq<char>>,
    pub apps: Option<Seq<Seq<char>>>,
    pub is_admin: Option<bool>,
    pub server_url: Option<Seq<char>>,
    pub app_id: Option<Seq<char>>,
}

impl View for CredentialStore {
    type V = CredentialStoreView;

    open spec fn view(&self) -> CredentialStoreView {
        CredentialStoreView {
            access_token: option_text(self.access_token),
            refresh_token: option_text(self.refresh_token),
            api_key: option_text(self.api_key),
            user_id: option_text(self.user_id),
            apps: option_texts(self.apps),
            is_admin: self.is_admin,
            server_url: option_text(self.server_url),
            app_id: option_text(self.app_id),
        }
    }
}

impl Clone for CredentialStore {
    fn clone(&self) -> (copy: CredentialStore)
        ensures
            copy@ == self@,
    {
        CredentialStore {
            access_token: clone_option_text(&self.access_token),
            refresh_token: clone_option_text(&self.refresh_token),
            api_key: clone_option_text(&self.api_key),
            user_id: clone_option_text(&self.user_id),
            apps: clone_option_texts(&self.apps),
            is_admin: self.is_admin,
            server_url: clone_option_text(&self.server_url),
            app_id: clone_option_text(&self.app_id),
        }
    }
}

/// The store that holds nothing.
pub open spec fn empty_store() -> CredentialStoreView {
    CredentialStoreView {
        access_token: None,
        refresh_token: None,
        api_key: None,
        user_id: None,
        apps: None,
        is_admin: None,
        server_url: None,
        app_id: None,
    }
}

impl CredentialStore {
    /// A store that holds nothing.
    pub fn new() -> (store: CredentialStore)
        ensures
            store@ == empty_store(),
    {
        CredentialStore {
            access_token: None,
            refresh_token: None,
            api_key: None,
            user_id: None,
            apps: None,
            is_admin: None,
            server_url: None,
            app_id: None,
        }
    }
}

/// The secret behind an encrypted value of the store on a device. A value
/// that is not stored is missing; one that does not decrypt is a failure of
/// its own, and never counts as missing.
pub open spec fn stored_secret(blob: Option<Seq<char>>, device_id: Seq<char>, which: Credential) -> Result<
    Seq<char>,
    SyncError,
> {
    match blob {
        None => Err(SyncError::CredentialMissing(which)),
        Some(b) => match decrypted(device_id, b) {
            Ok(secret) => Ok(secret),
            Err(e) => Err(SyncError::CryptoFailure(e)),
        },
    }
}

/// Whether an encrypted value of the store holds a secret on a device.
pub open spec fn holds_secret(blob: Option<Seq<char>>, device_id: Seq<char>, secret: Seq<char>) -> bool {
    blob matches Some(b) && decrypted(device_id, b) == Ok::<Seq<char>, CryptoFailure>(secret)
}

/// Whether a secret can be stored: the cipher accepts it, and the machine
/// can hold its stored form.
pub open spec fn fits(secret: Seq<char>) -> bool {
    storable(encode_utf8(secret).len())
}

/// Why the secrets of a list cannot all be encrypted on a device, if they
/// cannot: the key cannot be derived, or one of them cannot be stored.
pub open spec fn secrets_failure(device_id: Seq<char>, secrets: Seq<Seq<char>>) -> Option<
    CryptoFailure,
> {
    match derived_key(device_id) {
        Err(e) => Some(e),
        Ok(_) => if forall|i: int| 0 <= i < secrets.len() ==> fits(#[trigger] secrets[i]) {
            None
        } else {
            Some(CryptoFailure::Encryption)
        },
    }
}

/// The secret behind an encrypted value of the store.
fn read_secret(blob: &Option<String>, device_id: &str, which: Credential) -> (secret: Result<
    String,
    SyncError,
>)
    ensures
        match secret {
            Ok(s) => stored_secret(option_text(*blob), device_id@, which) == Ok::<
                Seq<char>,
                SyncError,
            >(s@),
            Err(e) => stored_secret(option_text(*blob), device_id@, which) == Err::<
                Seq<char>,
                SyncError,
            >(e),
        },
{
    match blob {
        None => Err(SyncError::CredentialMissing(which)),
        Some(b) => match decrypt(b.as_str(), device_id) {
            Ok(secret) => Ok(secret),
            Err(e) => Err(SyncError::CryptoFailure(e)),
        },
    }
}

/// The secret behind an encrypted value of the store, opened under the key
/// of the device.
pub(crate) fn read_secret_with_key(
    blob: &Option<String>,
    key: &[u8; 32],
    device_id: Ghost<Seq<char>>,
    which: Credential,
) -> (secret: Result<String, SyncError>)
    requires
        derived_key(device_id@) == Ok::<Seq<u8>, CryptoFailure>(key@),
    ensures
        match secret {
            Ok(s) => stored_secret(option_text(*blob), device_id@, which) == Ok::<
                Seq<char>,
                SyncError,
            >(s@),
            Err(e) => stored_secret(option_text(*blob), device_id@, which) == Err::<
                Seq<char>,
                SyncError,
            >(e),
        },
{
    match blob {
        None => Err(SyncError::CredentialMissing(which)),
        Some(b) => match decrypt_with_key(key, b.as_str()) {
            Ok(secret) => Ok(secret),
            Err(e) => Err(SyncError::CryptoFailure(e)),
        },
    }
}

/// What the remote service answers to a registration or a login.
#[derive(Clone, Debug, PartialEq)]
pub struct RemoteSession {
    pub user_id: String,
    pub access_token: String,
    pub refresh_token: String,
    pub apps: Vec<String>,
    pub is_admin: bool,
}

/// What a registration or a login hands to the caller.
#[derive(Clone, Debug, PartialEq)]
pub struct AuthResponse {
    pub user_id: String,
    pub access_token: String,
    pub refresh_token: String,
    pub apps: Option<Vec<String>>,
    pub is_admin: Option<bool>,
}

/// Whether a user is signed in, and who it is.
#[derive(Clone, Debug, PartialEq)]
pub struct AuthStatus {
    pub is_authenticated: bool,
    pub user_id: Option<String>,
    pub apps: Option<Vec<String>>,
    pub is_admin: Option<bool>,
    pub server_url: Option<String>,
}

/// What a client of the remote service is set up with.
#[derive(Clone, Debug, PartialEq)]
pub struct ClientConfig {
    pub server_url: String,
    pub app_id: String,
    pub api_key: String,
}

/// The tokens that are handed to the remote service for a refresh.
#[derive(Clone, Debug, PartialEq)]
pub struct TokenPair {
    pub access_token: String,
    pub refresh_token: String,
}

/// What is to be done to learn whether the user is signed in.
#[derive(Clone, Copy, Debug, PartialEq, Eq, Structural)]
pub enum AuthCheck {
    /// The stored access token is good: nothing is to be done.
    Authenticated,
    /// There is no usable access token: the user is not signed in, and the
    /// remote service is not asked.
    Unauthenticated,
    /// The stored access token is past its time: the remote service is to be
    /// asked for a refresh, and the outcome decides.
    RefreshRequired,
}

/// The list of memberships that is handed on: none for an empty one.
pub open spec fn memberships(apps: Seq<Seq<char>>) -> Option<Seq<Seq<char>>> {
    if apps.len() == 0 {
        None
    } else {
        Some(apps)
    }
}

/// The admin flag that is handed on: none for a user who is no admin.
pub open spec fn admin_flag(is_admin: bool) -> Option<bool> {
    if is_admin {
        Some(true)
    } else {
        None
    }
}

/// What a check of the stored access token asks for, by a reading of the
/// clock. With `lenient`, a token of which it cannot be told whether it is
/// past its time counts as one that is; without, the user counts as not
/// signed in.
pub open spec fn auth_check(
    store: CredentialStoreView,
    device_id: Seq<char>,
    now: Option<i64>,
    lenient: bool,
) -> AuthCheck {
    match stored_secret(store.access_token, device_id, Credential::AccessToken) {
        Err(_) => AuthCheck::Unauthenticated,
        Ok(token) => match expired_by(token, now) {
            Ok(true) => AuthCheck::RefreshRequired,
            Ok(false) => AuthCheck::Authenticated,
            Err(_) => if lenient {
                AuthCheck::RefreshRequired
            } else {
                AuthCheck::Unauthenticated
            },
        },
    }
}

/// Whether the user is signed in, given what the check asked for and, where
/// it asked for a refresh, whether the refresh succeeded.
pub open spec fn authenticated(check: AuthCheck, refresh_succeeded: bool) -> bool {
    match check {
        AuthCheck::Authenticated => true,
        AuthCheck::Unauthenticated => false,
        AuthCheck::RefreshRequired => refresh_succeeded,
    }
}

/// The service that signs a user in and keeps the session.
#[derive(Clone, Debug, PartialEq)]
pub struct AuthService {
    pub server_url: String,
    pub default_app_id: String,
    pub default_api_key: String,
}

impl AuthService {
    /// A service for a remote service at an address, with the identifier and
    /// the API key that this installation was built with.
    pub fn new(server_url: String, default_app_id: String, default_api_key: String) -> (service:
        AuthService)
        ensures
            service.server_url@ == server_url@,
            service.default_app_id@ == default_app_id@,
            service.default_api_key@ == default_api_key@,
    {
        AuthService { server_url, default_app_id, default_api_key }
    }

    /// What the client of the remote service is set up with anew when the
    /// address of the service changes: the new address, and the identifier
    /// and key that this service was made with.
    pub fn set_server_url(&self, server_url: String) -> (config: ClientConfig)
        ensures
            config.server_url@ == server_url@,
            config.app_id@ == self.default_app_id@,
            config.api_key@ == self.default_api_key@,
    {
        ClientConfig {
            server_url,
            app_id: self.default_app_id.clone(),
            api_key: self.default_api_key.clone(),
        }
    }

    /// What is handed to the caller for the answer of the remote service.
    pub fn session_response(session: RemoteSession) -> (response: AuthResponse)
        ensures
            response.user_id@ == session.user_id@,
            response.access_token@ == session.access_token@,
            response.refresh_token@ == session.refresh_token@,
            option_texts(response.apps) == memberships(texts(session.apps@)),
            response.is_admin == admin_flag(session.is_admin),
    {
        let apps = if session.apps.len() == 0 {
            None
        } else {
            Some(session.apps)
        };
        let is_admin = if session.is_admin {
            Some(true)
        } else {
            None
        };
        AuthResponse {
            user_id: session.user_id,
            access_token: session.access_token,
            refresh_token: session.refresh_token,
            apps,
            is_admin,
        }
    }

    /// Keeps what a registration or a login brought: the tokens and the API
    /// key encrypted, the rest in the clear. Either all of it is kept or, on
    /// a failure, nothing is changed.
    pub fn store_auth_data(
        &self,
        store: &mut CredentialStore,
        device_id: &str,
        response: &AuthResponse,
        app_id: &str,
        api_key: &str,
    ) -> (done: Result<(), SyncError>)
        ensures
            match done {
                Ok(_) => {
                    &&& secrets_failure(
                        device_id@,
                        seq![response.access_token@, response.refresh_token@, api_key@],
                    ).is_none()
                    &&& holds_secret(final(store)@.access_token, device_id@, response.access_token@)
                    &&& holds_secret(
                        final(store)@.refresh_token,
                        device_id@,
                        response.refresh_token@,
                    )
                    &&& holds_secret(final(store)@.api_key, device_id@, api_key@)
                    &&& final(store)@.user_id == Some(response.user_id@)
                    &&& final(store)@.server_url == Some(self.server_url@)
                    &&& final(store)@.app_id == Some(app_id@)
                    &&& final(store)@.apps == if response.apps.is_some() {
                        option_texts(response.apps)
                    } else {
                        old(store)@.apps
                    }
                    &&& final(store)@.is_admin == if response.is_admin.is_some() {
                        response.is_admin
                    } else {
                        old(store)@.is_admin
                    }
                },
                Err(e) => {
                    &&& final(store)@ == old(store)@
                    &&& secrets_failure(
                        device_id@,
                        seq![response.access_token@, response.refresh_token@, api_key@],
                    ) matches Some(f)
                    &&& e == SyncError::CryptoFailure(f)
                },
            },
    {
        let ghost secrets = seq![response.access_token@, response.refresh_token@, api_key@];
        let key = match derive_encryption_key(device_id) {
            Ok(key) => key,
            Err(e) => {
                return Err(SyncError::CryptoFailure(e));
            },
        };
        let access = match encrypt_under_key(&key, response.access_token.as_str()) {
            Ok(blob) => blob,
            Err(e) => {
                assert(!fits(secrets[0]));
                return Err(SyncError::CryptoFailure(e));
            },
        };
        let refresh = match encrypt_under_key(&key, response.refresh_token.as_str()) {
            Ok(blob) => blob,
            Err(e) => {
                assert(!fits(secrets[1]));
                return Err(SyncError::CryptoFailure(e));
            },
        };
        let sealed_key = match encrypt_under_key(&key, api_key) {
            Ok(blob) => blob,
            Err(e) => {
                assert(!fits(secrets[2]));
                return Err(SyncError::CryptoFailure(e));
            },
        };
        store.access_token = Some(access);
        store.refresh_token = Some(refresh);
        store.api_key = Some(sealed_key);
        store.user_id = Some(response.user_id.clone());
        store.server_url = Some(self.server_url.clone());
        store.app_id = Some(app_id.to_owned());
        match &response.apps {
            Some(apps) => {
                store.apps = Some(crate::text::clone_texts(apps));
            },
            None => {},
        }
        match response.is_admin {
            Some(is_admin) => {
                store.is_admin = Some(is_admin);
            },
            None => {},
        }
        Ok(())
    }

    /// Takes the answer of the remote service to a registration: on success
    /// the session is kept and handed to the caller.
    pub fn register(
        &self,
        store: &mut CredentialStore,
        device_id: &str,
        outcome: Result<RemoteSession, String>,
    ) -> (response: Result<AuthResponse, SyncError>)
        ensures
            self.signed_in(*old(store), *final(store), device_id@, outcome, response),
    {
        self.keep_session(store, device_id, outcome)
    }

    /// Takes the answer of the remote service to a login: on success the
    /// session is kept and handed to the caller.
    pub fn login(
        &self,
        store: &mut CredentialStore,
        device_id: &str,
        outcome: Result<RemoteSession, String>,
    ) -> (response: Result<AuthResponse, SyncError>)
        ensures
            self.signed_in(*old(store), *final(store), device_id@, outcome, response),
    {
        self.keep_session(store, device_id, outcome)
    }

    /// What holds after the answer to a registration or a login was taken.
    ///
    /// Where the remote service refused, the failure is one of transport and
    /// the store is unchanged. Where a secret cannot be encrypted, the
    /// failure is that of the cipher and the store is unchanged. Else the
    /// store holds the session, and the caller gets it.
    pub open spec fn signed_in(
        &self,
        before: CredentialStore,
        after: CredentialStore,
        device_id: Seq<char>,
        outcome: Result<RemoteSession, String>,
        response: Result<AuthResponse, SyncError>,
    ) -> bool {
        match outcome {
            Err(_) => response == Err::<AuthResponse, SyncError>(SyncError::TransportFailure)
                && after@ == before@,
            Ok(session) => {
                let secrets = seq![
                    session.access_token@,
                    session.refresh_token@,
                    self.default_api_key@,
                ];
                match response {
                    Err(e) => {
                        &&& after@ == before@
                        &&& secrets_failure(device_id, secrets) matches Some(f)
                        &&& e == SyncError::CryptoFailure(f)
                    },
                    Ok(r) => {
                        &&& secrets_failure(device_id, secrets).is_none()
                        &&& r.user_id@ == session.user_id@
                        &&& r.access_token@ == session.access_token@
                        &&& r.refresh_token@ == session.refresh_token@
                        &&& option_texts(r.apps) == memberships(texts(session.apps@))
                        &&& r.is_admin == admin_flag(session.is_admin)
                        &&& holds_secret(after@.access_token, device_id, session.access_token@)
                        &&& holds_secret(after@.refresh_token, device_id, session.refresh_token@)
                        &&& holds_secret(after@.api_key, device_id, self.default_api_key@)
                        &&& after@.user_id == Some(session.user_id@)
                        &&& after@.server_url == Some(self.server_url@)
                        &&& after@.app_id == Some(self.default_app_id@)
                        &&& after@.apps == if session.apps@.len() == 0 {
                            before@.apps
                        } else {
                            Some(texts(session.apps@))
                        }
                        &&& after@.is_admin == if session.is_admin {
                            Some(true)
                        } else {
                            before@.is_admin
                        }
                    },
                }
            },
        }
    }

    /// Takes the answer of the remote service to a registration or a login.
    fn keep_session(
        &self,
        store: &mut CredentialStore,
        device_id: &str,
        outcome: Result<RemoteSession, String>,
    ) -> (response: Result<AuthResponse, SyncError>)
        ensures
            self.signed_in(*old(store), *final(store), device_id@, outcome, response),
    {
        match outcome {
            Err(_) => Err(SyncError::TransportFailure),
            Ok(session) => {
                let response = AuthService::session_response(session);
                match self.store_auth_data(
                    store,
                    device_id,
                    &response,
                    self.default_app_id.as_str(),
                    self.default_api_key.as_str(),
                ) {
                    Ok(_) => Ok(response),
                    Err(e) => Err(e),
                }
            },
        }
    }

    /// Forgets the session: every value of the store is deleted.
    pub fn logout(&self, store: &mut CredentialStore)
        ensures
            final(store)@ == empty_store(),
    {
        store.access_token = None;
        store.refresh_token = None;
        store.user_id = None;
        store.apps = None;
        store.is_admin = None;
        store.app_id = None;
        store.api_key = None;
        store.server_url = None;
    }

    /// The access token, decrypted.
    pub fn get_access_token(&self, store: &CredentialStore, device_id: &str) -> (token: Result<
        String,
        SyncError,
    >)
        ensures
            match token {
                Ok(t) => stored_secret(store@.access_token, device_id@, Credential::AccessToken)
                    == Ok::<Seq<char>, SyncError>(t@),
                Err(e) => stored_secret(store@.access_token, device_id@, Credential::AccessToken)
                    == Err::<Seq<char>, SyncError>(e),
            },
    {
        read_secret(&store.access_token, device_id, Credential::AccessToken)
    }

    /// The refresh token, decrypted.
    pub fn get_refresh_token(&self, store: &CredentialStore, device_id: &str) -> (token: Result<
        String,
        SyncError,
    >)
        ensures
            match token {
                Ok(t) => stored_secret(store@.refresh_token, device_id@, Credential::RefreshToken)
                    == Ok::<Seq<char>, SyncError>(t@),
                Err(e) => stored_secret(store@.refresh_token, device_id@, Credential::RefreshToken)
                    == Err::<Seq<char>, SyncError>(e),
            },
    {
        read_secret(&store.refresh_token, device_id, Credential::RefreshToken)
    }

    /// The API key of this installation, decrypted.
    pub fn get_stored_api_key(&self, store: &CredentialStore, device_id: &str) -> (key: Result<
        String,
        SyncError,
    >)
        ensures
            match key {
                Ok(k) => stored_secret(store@.api_key, device_id@, Credential::ApiKey) == Ok::<
                    Seq<char>,
                    SyncError,
                >(k@),
                Err(e) => stored_secret(store@.api_key, device_id@, Credential::ApiKey) == Err::<
                    Seq<char>,
                    SyncError,
                >(e),
            },
    {
        read_secret(&store.api_key, device_id, Credential::ApiKey)
    }

    /// What is to be done to learn whether the user is signed in, by a
    /// reading of the clock, which may have failed. A user without a usable
    /// access token is not signed in, and the remote service is not asked;
    /// so is one whose token does not decode.
    pub fn check_authentication(&self, store: &CredentialStore, device_id: &str, now: Option<i64>) -> (check:
        AuthCheck)
        ensures
            check == auth_check(store@, device_id@, now, false),
    {
        match self.get_access_token(store, device_id) {
            Err(_) => AuthCheck::Unauthenticated,
            Ok(token) => match is_token_expired_by(token.as_str(), now) {
                Ok(true) => AuthCheck::RefreshRequired,
                Ok(false) => AuthCheck::Authenticated,
                Err(_) => AuthCheck::Unauthenticated,
            },
        }
    }

    /// What is to be done before the status of the session is reported. A
    /// token of which it cannot be told whether it is past its time counts
    /// as one that is.
    pub fn check_status(&self, store: &CredentialStore, device_id: &str, now: Option<i64>) -> (check:
        AuthCheck)
        ensures
            check == auth_check(store@, device_id@, now, true),
    {
        match self.get_access_token(store, device_id) {
            Err(_) => AuthCheck::Unauthenticated,
            Ok(token) => match is_token_expired_by(token.as_str(), now) {
                Ok(false) => AuthCheck::Authenticated,
                _ => AuthCheck::RefreshRequired,
            },
        }
    }

    /// Whether the user is signed in, given what the check asked for and,
    /// where it asked for a refresh, whether the refresh succeeded.
    pub fn is_authenticated(&self, check: AuthCheck, refresh_succeeded: bool) -> (signed_in: bool)
        ensures
            signed_in == authenticated(check, refresh_succeeded),
    {
        match check {
            AuthCheck::Authenticated => true,
            AuthCheck::Unauthenticated => false,
            AuthCheck::RefreshRequired => refresh_succeeded,
        }
    }

    /// The status of the session, given what the check asked for and, where
    /// it asked for a refresh, whether the refresh succeeded. Who the user
    /// is, is told of a user who is signed in, and of no other.
    pub fn get_auth_status(&self, store: &CredentialStore, check: AuthCheck, refresh_succeeded: bool) -> (status:
        AuthStatus)
        ensures
            status.is_authenticated == authenticated(check, refresh_succeeded),
            option_text(status.server_url) == Some(self.server_url@),
            option_text(status.user_id) == if status.is_authenticated {
                store@.user_id
            } else {
                None
            },
            option_texts(status.apps) == if status.is_authenticated {
                store@.apps
            } else {
                None
            },
            status.is_admin == if status.is_authenticated {
                store@.is_admin
            } else {
                None
            },
    {
        if self.is_authenticated(check, refresh_succeeded) {
            AuthStatus {
                is_authenticated: true,
                user_id: clone_option_text(&store.user_id),
                apps: clone_option_texts(&store.apps),
                is_admin: store.is_admin,
                server_url: Some(self.server_url.clone()),
            }
        } else {
            AuthStatus {
                is_authenticated: false,
                user_id: None,
                apps: None,
                is_admin: None,
                server_url: Some(self.server_url.clone()),
            }
        }
    }

    /// The tokens that are handed to the remote service for a refresh. Both
    /// must be there and decrypt: a refresh without either of them fails
    /// before the remote service is asked. The refresh token is looked at
    /// first.
    pub fn begin_refresh(&self, store: &CredentialStore, device_id: &str) -> (tokens: Result<
        TokenPair,
        SyncError,
    >)
        ensures
            match tokens {
                Ok(pair) => {
                    &&& stored_secret(store@.refresh_token, device_id@, Credential::RefreshToken)
                        == Ok::<Seq<char>, SyncError>(pair.refresh_token@)
                    &&& stored_secret(store@.access_token, device_id@, Credential::AccessToken)
                        == Ok::<Seq<char>, SyncError>(pair.access_token@)
                },
                Err(e) => match stored_secret(
                    store@.refresh_token,
                    device_id@,
                    Credential::RefreshToken,
                ) {
                    Err(first) => e == first,
                    Ok(_) => stored_secret(store@.access_token, device_id@, Credential::AccessToken)
                        == Err::<Seq<char>, SyncError>(e),
                },
            },
    {
        if store.refresh_token.is_none() {
            return Err(SyncError::CredentialMissing(Credential::RefreshToken));
        }
        let key = match derive_encryption_key(device_id) {
            Ok(key) => key,
            Err(e) => {
                return Err(SyncError::CryptoFailure(e));
            },
        };
        let refresh_token = match read_secret_with_key(
            &store.refresh_token,
            &key,
            Ghost(device_id@),
            Credential::RefreshToken,
        ) {
            Ok(token) => token,
            Err(e) => {
                return Err(e);
            },
        };
        let access_token = match read_secret_with_key(
            &store.access_token,
            &key,
            Ghost(device_id@),
            Credential::AccessToken,
        ) {
            Ok(token) => token,
            Err(e) => {
                return Err(e);
            },
        };
        Ok(TokenPair { access_token, refresh_token })
    }

    /// Keeps a new pair of tokens, encrypted. On a failure nothing is
    /// changed.
    pub fn update_tokens_raw(
        &self,
        store: &mut CredentialStore,
        device_id: &str,
        access_token: &str,
        refresh_token: &str,
    ) -> (done: Result<(), SyncError>)
        ensures
            match done {
                Ok(_) => {
                    &&& secrets_failure(device_id@, seq![access_token@, refresh_token@]).is_none()
                    &&& holds_secret(final(store)@.access_token, device_id@, access_token@)
                    &&& holds_secret(final(store)@.refresh_token, device_id@, refresh_token@)
                    &&& final(store)@ == (CredentialStoreView {
                        access_token: final(store)@.access_token,
                        refresh_token: final(store)@.refresh_token,
                        ..old(store)@
                    })
                },
                Err(e) => {
                    &&& final(store)@ == old(store)@
                    &&& secrets_failure(device_id@, seq![access_token@, refresh_token@]) matches Some(
                        f,
                    )
                    &&& e == SyncError::CryptoFailure(f)
                },
            },
    {
        let ghost secrets = seq![access_token@, refresh_token@];
        let key = match derive_encryption_key(device_id) {
            Ok(key) => key,
            Err(e) => {
                return Err(SyncError::CryptoFailure(e));
            },
        };
        let access = match encrypt_under_key(&key, access_token) {
            Ok(blob) => blob,
            Err(e) => {
                assert(!fits(secrets[0]));
                return Err(SyncError::CryptoFailure(e));
            },
        };
        let refresh = match encrypt_under_key(&key, refresh_token) {
            Ok(blob) => blob,
            Err(e) => {
                assert(!fits(secrets[1]));
                return Err(SyncError::CryptoFailure(e));
            },
        };
        store.access_token = Some(access);
        store.refresh_token = Some(refresh);
        Ok(())
    }

    /// Takes the outcome of the refresh that the remote service was asked
    /// for: the failure of the service, or the tokens that its client holds
    /// afterwards.
    ///
    /// The refresh succeeds where the service did, both tokens are there and
    /// can be encrypted. The store then holds the new tokens; in every other
    /// case it is unchanged, and the user has to sign in again.
    pub fn refresh_token(
        &self,
        store: &mut CredentialStore,
        device_id: &str,
        outcome: Result<(Option<String>, Option<String>), String>,
    ) -> (done: Result<(), SyncError>)
        ensures
            match outcome {
                Err(_) => done == Err::<(), SyncError>(SyncError::RefreshFailure) && final(store)@
                    == old(store)@,
                Ok((None, _)) => done == Err::<(), SyncError>(
                    SyncError::CredentialMissing(Credential::AccessToken),
                ) && final(store)@ == old(store)@,
                Ok((Some(_), None)) => done == Err::<(), SyncError>(
                    SyncError::CredentialMissing(Credential::RefreshToken),
                ) && final(store)@ == old(store)@,
                Ok((Some(access), Some(refresh))) => match done {
                    Ok(_) => {
                        &&& secrets_failure(device_id@, seq![access@, refresh@]).is_none()
                        &&& holds_secret(final(store)@.access_token, device_id@, access@)
                        &&& holds_secret(final(store)@.refresh_token, device_id@, refresh@)
                        &&& final(store)@ == (CredentialStoreView {
                            access_token: final(store)@.access_token,
                            refresh_token: final(store)@.refresh_token,
                            ..old(store)@
                        })
                    },
                    Err(e) => {
                        &&& final(store)@ == old(store)@
                        &&& secrets_failure(device_id@, seq![access@, refresh@]) matches Some(f)
                        &&& e == SyncError::CryptoFailure(f)
                    },
                },
            },
    {
        match outcome {
            Err(_) => Err(SyncError::RefreshFailure),
            Ok((None, _)) => Err(SyncError::CredentialMissing(Credential::AccessToken)),
            Ok((Some(_), None)) => Err(SyncError::CredentialMissing(Credential::RefreshToken)),
            Ok((Some(access), Some(refresh))) => self.update_tokens_raw(
                store,
                device_id,
                access.as_str(),
                refresh.as_str(),
            ),
        }
    }

    /// Keeps the settings of the synchronisation: the address of the remote
    /// service and the identifier of the application in the clear, the API
    /// key encrypted. A setting that is not given takes the value that this
    /// service was made with. On a failure nothing is changed.
    pub fn configure_sync(
        &self,
        store: &mut CredentialStore,
        device_id: &str,
        server_url: Option<String>,
        app_id: Option<String>,
        api_key: Option<String>,
    ) -> (done: Result<(), SyncError>)
        ensures
            match done {
                Ok(_) => {
                    &&& secrets_failure(
                        device_id@,
                        seq![text_or_default(option_text(api_key), self.default_api_key@)],
                    ).is_none()
                    &&& holds_secret(
                        final(store)@.api_key,
                        device_id@,
                        text_or_default(option_text(api_key), self.default_api_key@),
                    )
                    &&& final(store)@ == (CredentialStoreView {
                        server_url: Some(text_or_default(option_text(server_url), self.server_url@)),
                        app_id: Some(text_or_default(option_text(app_id), self.default_app_id@)),
                        api_key: final(store)@.api_key,
                        ..old(store)@
                    })
                },
                Err(e) => {
                    &&& final(store)@ == old(store)@
                    &&& secrets_failure(
                        device_id@,
                        seq![text_or_default(option_text(api_key), self.default_api_key@)],
                    ) matches Some(f)
                    &&& e == SyncError::CryptoFailure(f)
                },
            },
    {
        let new_server_url = match server_url {
            Some(url) => url,
            None => self.server_url.clone(),
        };
        let new_app_id = match app_id {
            Some(id) => id,
            None => self.default_app_id.clone(),
        };
        let new_api_key = match api_key {
            Some(key) => key,
            None => self.default_api_key.clone(),
        };
        let ghost secrets = seq![new_api_key@];
        let key = match derive_encryption_key(device_id) {
            Ok(key) => key,
            Err(e) => {
                return Err(SyncError::CryptoFailure(e));
            },
        };
        let sealed_key = match encrypt_under_key(&key, new_api_key.as_str()) {
            Ok(blob) => blob,
            Err(e) => {
                assert(!fits(secrets[0]));
                return Err(SyncError::CryptoFailure(e));
            },
        };
        store.server_url = Some(new_server_url);
        store.app_id = Some(new_app_id);
        store.api_key = Some(sealed_key);
        Ok(())
    }
}

/// A text, or a default where there is none.
pub open spec fn text_or_default(text: Option<Seq<char>>, default: Seq<char>) -> Seq<char> {
    match text {
        Some(t) => t,
        None => default,
    }
}

} // verus!
