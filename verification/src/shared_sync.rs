//! The status of the synchronisation as the browser bridge shows it.

use vstd::prelude::*;
use crate::sync::SyncStatus;
use crate::text::{clone_option_text, option_text};

verus! {

/// The status of the synchronisation.
#[derive(Debug, PartialEq)]
pub struct SharedSyncStatus {
    pub configured: bool,
    pub authenticated: bool,
    pub server_url: Option<String>,
    pub last_sync_at: Option<i64>,
    pub pending_changes: i32,
}

/// What a [`SharedSyncStatus`] holds.
pub struct SharedSyncStatusView {
    pub configured: bool,
    pub authenticated: bool,
    pub server_url: Option<Seq<char>>,
    pub last_sync_at: Option<i64>,
    pub pending_changes: i32,
}

impl View for SharedSyncStatus {
    type V = SharedSyncStatusView;

    open spec fn view(&self) -> SharedSyncStatusView {
        SharedSyncStatusView {
            configured: self.configured,
            authenticated: self.authenticated,
            server_url: option_text(self.server_url),
            last_sync_at: self.last_sync_at,
            pending_changes: self.pending_changes,
        }
    }
}

/// The status before anything is known: nothing configured, nobody signed
/// in, nothing pending.
pub open spec fn unconfigured() -> SharedSyncStatusView {
    SharedSyncStatusView {
        configured: false,
        authenticated: false,
        server_url: None,
        last_sync_at: None,
        pending_changes: 0,
    }
}

impl Clone for SharedSyncStatus {
    fn clone(&self) -> (copy: SharedSyncStatus)
        ensures
            copy@ == self@,
    {
        SharedSyncStatus {
            configured: self.configured,
            authenticated: self.authenticated,
            server_url: clone_option_text(&self.server_url),
            last_sync_at: self.last_sync_at,
            pending_changes: self.pending_changes,
        }
    }
}

impl Default for SharedSyncStatus {
    fn default() -> (status: SharedSyncStatus)
        ensures
            status@ == unconfigured(),
    {
        SharedSyncStatus {
            configured: false,
            authenticated: false,
            server_url: None,
            last_sync_at: None,
            pending_changes: 0,
        }
    }
}

impl SharedSyncStatus {
    /// The status to show for a status of the synchronisation. The number
    /// of pending changes is cut to thirty-two bits.
    pub fn from_status(status: &SyncStatus) -> (shared: SharedSyncStatus)
        ensures
            shared@ == (SharedSyncStatusView {
                configured: status.configured,
                authenticated: status.authenticated,
                server_url: option_text(status.server_url),
                last_sync_at: status.last_sync_at,
                pending_changes: status.pending_changes as i32,
            }),
    {
        SharedSyncStatus {
            configured: status.configured,
            authenticated: status.authenticated,
            server_url: clone_option_text(&status.server_url),
            last_sync_at: status.last_sync_at,
            pending_changes: #[verifier::truncate]
            (status.pending_changes as i32),
        }
    }
}

/// Holds the status that was reported last.
#[derive(Debug, PartialEq)]
pub struct SyncStatusHolder {
    status: SharedSyncStatus,
}

impl View for SyncStatusHolder {
    type V = SharedSyncStatusView;

    closed spec fn view(&self) -> SharedSyncStatusView {
        self.status@
    }
}

impl SyncStatusHolder {
    /// A holder with the status before anything is known.
    pub fn new() -> (holder: SyncStatusHolder)
        ensures
            holder@ == unconfigured(),
    {
        SyncStatusHolder { status: SharedSyncStatus::default() }
    }

    /// The status that was reported last.
    pub fn get(&self) -> (status: SharedSyncStatus)
        ensures
            status@ == self@,
    {
        self.status.clone()
    }

    /// Reports a status.
    pub fn update(&mut self, status: SharedSyncStatus)
        ensures
            final(self)@ == status@,
    {
        self.status = status;
    }
}

impl Default for SyncStatusHolder {
    fn default() -> (holder: SyncStatusHolder)
        ensures
            holder@ == unconfigured(),
    {
        SyncStatusHolder::new()
    }
}

/// A holder with the status before anything is known.
pub fn create_sync_status_holder() -> (holder: SyncStatusHolder)
    ensures
        holder@ == unconfigured(),
{
    SyncStatusHolder::new()
}

} // verus!
