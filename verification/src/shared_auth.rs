//! The status of the session as the browser bridge shows it.

use vstd::prelude::*;
use crate::auth::AuthStatus;
use crate::text::{clone_option_text, clone_option_texts, option_text, option_texts};

verus! {

/// The status of the session, with what is known of the user.
#[derive(Debug, PartialEq)]
pub struct SharedAuthStatus {
    pub is_authenticated: bool,
    pub user_id: Option<String>,
    pub username: Option<String>,
    pub email: Option<String>,
    pub apps: Option<Vec<String>>,
    pub is_admin: Option<bool>,
    pub server_url: Option<String>,
}

/// What a [`SharedAuthStatus`] holds.
pub struct SharedAuthStatusView {
    pub is_authenticated: bool,
    pub user_id: Option<Seq<char>>,
    pub username: Option<Seq<char>>,
    pub email: Option<Seq<char>>,
    pub apps: Option<Seq<Seq<char>>>,
    pub is_admin: Option<bool>,
    pub server_url: Option<Seq<char>>,
}

impl View for SharedAuthStatus {
    type V = SharedAuthStatusView;

    open spec fn view(&self) -> SharedAuthStatusView {
        SharedAuthStatusView {
            is_authenticated: self.is_authenticated,
            user_id: option_text(self.user_id),
            username: option_text(self.username),
            email: option_text(self.email),
            apps: option_texts(self.apps),
            is_admin: self.is_admin,
            server_url: option_text(self.server_url),
        }
    }
}

/// The status of nobody: not signed in, and nothing known.
pub open spec fn signed_out() -> SharedAuthStatusView {
    SharedAuthStatusView {
        is_authenticated: false,
        user_id: None,
        username: None,
        email: None,
        apps: None,
        is_admin: None,
        server_url: None,
    }
}

impl Clone for SharedAuthStatus {
    fn clone(&self) -> (copy: SharedAuthStatus)
        ensures
            copy@ == self@,
    {
        SharedAuthStatus {
            is_authenticated: self.is_authenticated,
            user_id: clone_option_text(&self.user_id),
            username: clone_option_text(&self.username),
            email: clone_option_text(&self.email),
            apps: clone_option_texts(&self.apps),
            is_admin: self.is_admin,
            server_url: clone_option_text(&self.server_url),
        }
    }
}

impl Default for SharedAuthStatus {
    fn default() -> (status: SharedAuthStatus)
        ensures
            status@ == signed_out(),
    {
        SharedAuthStatus {
            is_authenticated: false,
            user_id: None,
            username: None,
            email: None,
            apps: None,
            is_admin: None,
            server_url: None,
        }
    }
}

impl SharedAuthStatus {
    /// The status to show for a status of the session. The name of the user
    /// is not known; the address is where the user has just given it.
    pub fn from_status(status: &AuthStatus, email: Option<String>) -> (shared: SharedAuthStatus)
        ensures
            shared@ == (SharedAuthStatusView {
                is_authenticated: status.is_authenticated,
                user_id: option_text(status.user_id),
                username: None,
                email: option_text(email),
                apps: option_texts(status.apps),
                is_admin: status.is_admin,
                server_url: option_text(status.server_url),
            }),
    {
        SharedAuthStatus {
            is_authenticated: status.is_authenticated,
            user_id: clone_option_text(&status.user_id),
            username: None,
            email,
            apps: clone_option_texts(&status.apps),
            is_admin: status.is_admin,
            server_url: clone_option_text(&status.server_url),
        }
    }
}

/// Holds the status that was reported last.
#[derive(Debug, PartialEq)]
pub struct AuthStatusHolder {
    status: SharedAuthStatus,
}

impl View for AuthStatusHolder {
    type V = SharedAuthStatusView;

    closed spec fn view(&self) -> SharedAuthStatusView {
        self.status@
    }
}

impl AuthStatusHolder {
    /// A holder with the status of nobody.
    pub fn new() -> (holder: AuthStatusHolder)
        ensures
            holder@ == signed_out(),
    {
        AuthStatusHolder { status: SharedAuthStatus::default() }
    }

    /// The status that was reported last.
    pub fn get(&self) -> (status: SharedAuthStatus)
        ensures
            status@ == self@,
    {
        self.status.clone()
    }

    /// Reports a status.
    pub fn update(&mut self, status: SharedAuthStatus)
        ensures
            final(self)@ == status@,
    {
        self.status = status;
    }

    /// Goes back to the status of nobody.
    pub fn clear(&mut self)
        ensures
            final(self)@ == signed_out(),
    {
        self.status = SharedAuthStatus::default();
    }
}

impl Default for AuthStatusHolder {
    fn default() -> (holder: AuthStatusHolder)
        ensures
            holder@ == signed_out(),
    {
        AuthStatusHolder::new()
    }
}

/// A holder with the status of nobody.
pub fn create_auth_status_holder() -> (holder: AuthStatusHolder)
    ensures
        holder@ == signed_out(),
{
    AuthStatusHolder::new()
}

} // verus!
