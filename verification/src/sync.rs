//! The sync orchestrator: one cycle of the exchange with the remote store.
//!
//! A cycle collects the credentials and the local changes, hands both to the
//! application for the exchange, and takes the answer: the pulled records are
//! applied, the pushed rows are marked, and the new checkpoint is saved. It is
//! all or nothing: a cycle that fails leaves the local store as it was, so
//! that the next cycle finds the same rows to push.

use vstd::prelude::*;
use crate::applier::{plan_remote_changes, remote_plan};
use crate::auth::{read_secret_with_key, stored_secret, CredentialStore, CredentialStoreView};
use crate::checkpoint::{option_checkpoint, Checkpoint, CheckpointView};
use crate::acknowledge::{plan_pushed_records, pushed_plan};
use crate::collector::{collect_local_changes, local_changes};
use crate::crypto::derive_encryption_key;
use crate::error::{Credential, StorageFailure, SyncError, TokenError};
use crate::plan::{lemma_run_ops_concat, ops_view, run_ops, StoreOp, StoreOpView};
use crate::record::{records_view, ChangeRecord, ChangeRecordView};
use crate::store::{pending, LocalStore, LocalStoreView};
use crate::text::option_text;
use crate::token::{expired_at, is_token_expired_at};
use vstd::string::StringExecFns;

verus! {

/// Where a cycle stands.
#[derive(Clone, Copy, Debug, PartialEq, Eq, Structural)]
pub enum SyncState {
    Idle,
    CollectingCredentials,
    CollectingChanges,
    Exchanging,
    ApplyingPull,
    MarkingPushed,
}

/// What moves a cycle on.
#[derive(Clone, Copy, Debug, PartialEq, Eq, Structural)]
pub enum SyncEvent {
    Started,
    CredentialsCollected,
    ChangesCollected,
    Exchanged,
    PullApplied,
    PushMarked,
    /// A step failed, whichever it was.
    Failed,
}

/// The state after an event. A failure ends the cycle wherever it stands. An
/// event that does not belong to the state changes nothing.
pub open spec fn next_state(state: SyncState, event: SyncEvent) -> SyncState {
    match (state, event) {
        (_, SyncEvent::Failed) => SyncState::Idle,
        (SyncState::Idle, SyncEvent::Started) => SyncState::CollectingCredentials,
        (SyncState::CollectingCredentials, SyncEvent::CredentialsCollected) => SyncState::CollectingChanges,
        (SyncState::CollectingChanges, SyncEvent::ChangesCollected) => SyncState::Exchanging,
        (SyncState::Exchanging, SyncEvent::Exchanged) => SyncState::ApplyingPull,
        (SyncState::ApplyingPull, SyncEvent::PullApplied) => SyncState::MarkingPushed,
        (SyncState::MarkingPushed, SyncEvent::PushMarked) => SyncState::Idle,
        (s, _) => s,
    }
}

impl SyncState {
    /// The state after an event.
    pub fn step(self, event: SyncEvent) -> (next: SyncState)
        ensures
            next == next_state(self, event),
    {
        match (self, event) {
            (_, SyncEvent::Failed) => SyncState::Idle,
            (SyncState::Idle, SyncEvent::Started) => SyncState::CollectingCredentials,
            (SyncState::CollectingCredentials, SyncEvent::CredentialsCollected) => SyncState::CollectingChanges,
            (SyncState::CollectingChanges, SyncEvent::ChangesCollected) => SyncState::Exchanging,
            (SyncState::Exchanging, SyncEvent::Exchanged) => SyncState::ApplyingPull,
            (SyncState::ApplyingPull, SyncEvent::PullApplied) => SyncState::MarkingPushed,
            (SyncState::MarkingPushed, SyncEvent::PushMarked) => SyncState::Idle,
            (s, _) => s,
        }
    }
}

/// A cycle that goes well passes through every state in turn and ends where
/// it began; one that fails ends there at once.
pub proof fn lemma_cycle_returns_to_idle(state: SyncState)
    ensures
        next_state(state, SyncEvent::Failed) == SyncState::Idle,
        next_state(
            next_state(
                next_state(
                    next_state(
                        next_state(
                            next_state(SyncState::Idle, SyncEvent::Started),
                            SyncEvent::CredentialsCollected,
                        ),
                        SyncEvent::ChangesCollected,
                    ),
                    SyncEvent::Exchanged,
                ),
                SyncEvent::PullApplied,
            ),
            SyncEvent::PushMarked,
        ) == SyncState::Idle,
{
}

/// What the exchange with the remote service is made with.
#[derive(Clone, Debug, PartialEq)]
pub struct SyncCredentials {
    pub server_url: String,
    pub app_id: String,
    pub api_key: String,
    pub access_token: String,
    pub refresh_token: String,
}

/// What a [`SyncCredentials`] holds.
pub struct SyncCredentialsView {
    pub server_url: Seq<char>,
    pub app_id: Seq<char>,
    pub api_key: Seq<char>,
    pub access_token: Seq<char>,
    pub refresh_token: Seq<char>,
}

impl View for SyncCredentials {
    type V = SyncCredentialsView;

    open spec fn view(&self) -> SyncCredentialsView {
        SyncCredentialsView {
            server_url: self.server_url@,
            app_id: self.app_id@,
            api_key: self.api_key@,
            access_token: self.access_token@,
            refresh_token: self.refresh_token@,
        }
    }
}

/// The address of the remote service that is stored, where one is stored
/// and is not empty.
pub open spec fn configured_url(server_url: Option<Seq<char>>) -> Option<Seq<char>> {
    match server_url {
        Some(url) => if url.len() == 0 {
            None
        } else {
            Some(url)
        },
        None => None,
    }
}

/// The credentials of a cycle, or the first reason why they cannot be had:
/// the tokens are looked at first, then the address of the service, the
/// identifier of the application and the API key.
pub open spec fn sync_credentials(store: CredentialStoreView, device_id: Seq<char>) -> Result<
    SyncCredentialsView,
    SyncError,
> {
    match stored_secret(store.access_token, device_id, Credential::AccessToken) {
        Err(e) => Err(e),
        Ok(access_token) => match stored_secret(
            store.refresh_token,
            device_id,
            Credential::RefreshToken,
        ) {
            Err(e) => Err(e),
            Ok(refresh_token) => match configured_url(store.server_url) {
                None => Err(SyncError::CredentialMissing(Credential::ServerUrl)),
                Some(server_url) => match store.app_id {
                    None => Err(SyncError::CredentialMissing(Credential::AppId)),
                    Some(app_id) => match stored_secret(store.api_key, device_id, Credential::ApiKey) {
                        Err(e) => Err(e),
                        Ok(api_key) => Ok(
                            SyncCredentialsView {
                                server_url,
                                app_id,
                                api_key,
                                access_token,
                                refresh_token,
                            },
                        ),
                    },
                },
            },
        }
    }
}

/// The credentials that a cycle starts with at `now`, or the reason why it
/// cannot start. A cycle does not start on an access token that is past its
/// time: the token is to be refreshed first. A token that states no time is
/// left to the remote service to judge.
pub open spec fn cycle_credentials(store: CredentialStoreView, device_id: Seq<char>, now: i64) -> Result<
    SyncCredentialsView,
    SyncError,
> {
    match sync_credentials(store, device_id) {
        Err(e) => Err(e),
        Ok(credentials) => if expired_at(credentials.access_token, now) == Ok::<bool, TokenError>(
            true,
        ) {
            Err(SyncError::TokenExpired)
        } else {
            Ok(credentials)
        },
    }
}

/// What the remote store says of the changes that were pushed.
#[derive(Clone, Copy, Debug, PartialEq, Eq, Structural)]
pub struct PushAck {
    /// The number of changes that it took.
    pub synced: usize,
    /// The number of changes that it found in conflict. The engine counts
    /// them and settles none.
    pub conflicts: usize,
}

/// What the remote store hands out at a pull.
#[derive(Debug, PartialEq)]
pub struct PullPayload {
    pub records: Vec<ChangeRecord>,
    pub checkpoint: Checkpoint,
}

/// The answer of the remote store to an exchange.
#[derive(Debug, PartialEq)]
pub struct DeltaResponse {
    pub push: Option<PushAck>,
    pub pull: Option<PullPayload>,
}

/// What a [`DeltaResponse`] holds.
pub struct DeltaResponseView {
    pub push: Option<PushAck>,
    pub pull: Option<(Seq<ChangeRecordView>, CheckpointView)>,
}

impl View for DeltaResponse {
    type V = DeltaResponseView;

    open spec fn view(&self) -> DeltaResponseView {
        DeltaResponseView {
            push: self.push,
            pull: match self.pull {
                Some(p) => Some((records_view(p.records@), p.checkpoint@)),
                None => None,
            },
        }
    }
}

/// What a cycle hands to the application for the exchange.
#[derive(Debug, PartialEq)]
pub struct SyncRequest {
    pub credentials: SyncCredentials,
    pub local_changes: Vec<ChangeRecord>,
    pub checkpoint: Option<Checkpoint>,
    pub started_at: i64,
}

/// How a cycle ended.
#[derive(Clone, Debug, PartialEq)]
pub struct SyncResult {
    pub pushed: usize,
    pub pulled: usize,
    pub conflicts: usize,
    pub success: bool,
    pub error: Option<String>,
    pub synced_at: i64,
}

/// Where the synchronisation stands.
#[derive(Clone, Debug, PartialEq)]
pub struct SyncStatus {
    pub configured: bool,
    pub authenticated: bool,
    pub last_sync_at: Option<i64>,
    pub pending_changes: usize,
    pub server_url: Option<String>,
}

/// The changes that the answer to an exchange makes to the local store, in
/// the order in which they are made: the pulled records are applied, the
/// pushed rows are marked, and the new checkpoint is saved last.
pub open spec fn cycle_plan(
    pushed: Seq<ChangeRecordView>,
    response: DeltaResponseView,
    started_at: i64,
    now: i64,
) -> Result<Seq<StoreOpView>, StorageFailure> {
    let pulling = match response.pull {
        Some(pull) => remote_plan(pull.0, now),
        None => Seq::empty(),
    };
    let saving = match response.pull {
        Some(pull) => seq![StoreOpView::SaveCheckpoint(pull.1)],
        None => Seq::empty(),
    };
    let marking = match response.push {
        Some(_) => pushed_plan(pushed, started_at),
        None => Ok(Seq::empty()),
    };
    match marking {
        Err(e) => Err(e),
        Ok(ops) => Ok(pulling + ops + saving),
    }
}

/// The local store after a cycle, or the reason why the cycle fails.
pub open spec fn after_cycle(
    store: LocalStoreView,
    pushed: Seq<ChangeRecordView>,
    response: DeltaResponseView,
    started_at: i64,
    now: i64,
) -> Result<LocalStoreView, StorageFailure> {
    match cycle_plan(pushed, response, started_at, now) {
        Err(e) => Err(e),
        Ok(plan) => run_ops(store, plan),
    }
}

/// The changes that the answer to an exchange makes to the local store, in
/// the order in which they are to be made. Whoever holds the rows makes
/// either all of them or none.
pub fn plan_cycle(pushed: &Vec<ChangeRecord>, response: &DeltaResponse, started_at: i64, now: i64) -> (plan:
    Result<Vec<StoreOp>, StorageFailure>)
    ensures
        match plan {
            Ok(ops) => cycle_plan(records_view(pushed@), response@, started_at, now) == Ok::<
                Seq<StoreOpView>,
                StorageFailure,
            >(ops_view(ops@)),
            Err(e) => cycle_plan(records_view(pushed@), response@, started_at, now) == Err::<
                Seq<StoreOpView>,
                StorageFailure,
            >(e),
        },
{
    let mut plan: Vec<StoreOp> = match &response.pull {
        Some(pull) => plan_remote_changes(&pull.records, now),
        None => Vec::new(),
    };
    proof {
        if response.pull.is_none() {
            assert(ops_view(plan@) =~= Seq::<StoreOpView>::empty());
        }
    }
    let mut marking: Vec<StoreOp> = match response.push {
        Some(_) => match plan_pushed_records(pushed, started_at) {
            Ok(ops) => ops,
            Err(e) => {
                return Err(e);
            },
        },
        None => Vec::new(),
    };
    proof {
        if response.push.is_none() {
            assert(ops_view(marking@) =~= Seq::<StoreOpView>::empty());
        }
    }
    append_ops(&mut plan, &mut marking);
    match &response.pull {
        Some(pull) => {
            let ghost before = ops_view(plan@);
            plan.push(StoreOp::SaveCheckpoint(pull.checkpoint.clone()));
            assert(ops_view(plan@) =~= before + seq![StoreOpView::SaveCheckpoint(pull.checkpoint@)]);
        },
        None => {
            assert(ops_view(plan@) =~= ops_view(plan@) + Seq::<StoreOpView>::empty());
        },
    }
    Ok(plan)
}

/// The tokens, the address and the key that a cycle needs, read from the
/// credential store.
pub fn collect_credentials(store: &CredentialStore, device_id: &str) -> (credentials: Result<
    SyncCredentials,
    SyncError,
>)
    ensures
        match credentials {
            Ok(c) => sync_credentials(store@, device_id@) == Ok::<SyncCredentialsView, SyncError>(
                c@,
            ),
            Err(e) => sync_credentials(store@, device_id@) == Err::<SyncCredentialsView, SyncError>(
                e,
            ),
        },
{
    if store.access_token.is_none() {
        return Err(SyncError::CredentialMissing(Credential::AccessToken));
    }
    let key = match derive_encryption_key(device_id) {
        Ok(key) => key,
        Err(e) => {
            return Err(SyncError::CryptoFailure(e));
        },
    };
    let access_token = match read_secret_with_key(
        &store.access_token,
        &key,
        Ghost(device_id@),
        Credential::AccessToken,
    ) {
        Ok(token) => token,
        Err(e) => {
            return Err(e);
        },
    };
    let refresh_token = match read_secret_with_key(
        &store.refresh_token,
        &key,
        Ghost(device_id@),
        Credential::RefreshToken,
    ) {
        Ok(token) => token,
        Err(e) => {
            return Err(e);
        },
    };
    let server_url = match &store.server_url {
        None => {
            return Err(SyncError::CredentialMissing(Credential::ServerUrl));
        },
        Some(url) => {
            if url.as_str().is_empty() {
                return Err(SyncError::CredentialMissing(Credential::ServerUrl));
            }
            url.clone()
        },
    };
    let app_id = match &store.app_id {
        None => {
            return Err(SyncError::CredentialMissing(Credential::AppId));
        },
        Some(id) => id.clone(),
    };
    let api_key = match read_secret_with_key(
        &store.api_key,
        &key,
        Ghost(device_id@),
        Credential::ApiKey,
    ) {
        Ok(secret) => secret,
        Err(e) => {
            return Err(e);
        },
    };
    Ok(SyncCredentials { server_url, app_id, api_key, access_token, refresh_token })
}

/// The result of a cycle that failed.
pub open spec fn is_failure(result: SyncResult, reason: Seq<char>, at: i64) -> bool {
    &&& !result.success
    &&& result.pushed == 0
    &&& result.pulled == 0
    &&& result.conflicts == 0
    &&& option_text(result.error) == Some(reason)
    &&& result.synced_at == at
}

impl SyncResult {
    /// The result of a cycle that failed for a reason.
    pub fn failed(error: SyncError, at: i64) -> (result: SyncResult)
        ensures
            is_failure(result, error.message_text(), at),
    {
        SyncResult {
            pushed: 0,
            pulled: 0,
            conflicts: 0,
            success: false,
            error: Some(error.message().to_owned()),
            synced_at: at,
        }
    }

    /// The result of a cycle that failed for a reason that is given in
    /// words.
    pub fn failed_with(reason: &str, at: i64) -> (result: SyncResult)
        ensures
            is_failure(result, reason@, at),
    {
        SyncResult {
            pushed: 0,
            pulled: 0,
            conflicts: 0,
            success: false,
            error: Some(reason.to_owned()),
            synced_at: at,
        }
    }

    /// The result of a cycle whose exchange failed, with what the transport
    /// said of it.
    pub fn transport_failed(detail: &str, at: i64) -> (result: SyncResult)
        ensures
            is_failure(result, "Sync failed: "@ + detail@, at),
    {
        let reason = String::from_str("Sync failed: ").concat(detail);
        SyncResult {
            pushed: 0,
            pulled: 0,
            conflicts: 0,
            success: false,
            error: Some(reason),
            synced_at: at,
        }
    }
}

/// The orchestrator. It runs one cycle at a time.
#[derive(Debug, PartialEq)]
pub struct SyncService {
    state: SyncState,
}

impl View for SyncService {
    type V = SyncState;

    closed spec fn view(&self) -> SyncState {
        self.state
    }
}

impl SyncService {
    /// An orchestrator that is idle.
    pub fn new() -> (service: SyncService)
        ensures
            service@ == SyncState::Idle,
    {
        SyncService { state: SyncState::Idle }
    }

    /// Where the cycle stands.
    pub fn state(&self) -> (state: SyncState)
        ensures
            state == self@,
    {
        self.state
    }

    /// Starts a cycle: collects the credentials, the local changes and the
    /// checkpoint, and hands them out for the exchange.
    ///
    /// While a cycle is under way no other is started. A cycle whose
    /// credentials cannot be had, or whose access token is past its time at
    /// `now`, ends at once: the token is to be refreshed before the next
    /// attempt. Neither store is changed.
    pub fn begin(
        &mut self,
        credentials: &CredentialStore,
        device_id: &str,
        store: &LocalStore,
        now: i64,
    ) -> (request: Result<SyncRequest, SyncError>)
        ensures
            old(self)@ != SyncState::Idle ==> request == Err::<SyncRequest, SyncError>(
                SyncError::CycleInProgress,
            ) && final(self)@ == old(self)@,
            old(self)@ == SyncState::Idle ==> match request {
                Ok(r) => {
                    &&& final(self)@ == SyncState::Exchanging
                    &&& cycle_credentials(credentials@, device_id@, now) == Ok::<
                        SyncCredentialsView,
                        SyncError,
                    >(r.credentials@)
                    &&& records_view(r.local_changes@) == local_changes(store@.rows)
                    &&& option_checkpoint(r.checkpoint) == store@.checkpoint
                    &&& r.started_at == now
                },
                Err(e) => {
                    &&& final(self)@ == SyncState::Idle
                    &&& cycle_credentials(credentials@, device_id@, now) == Err::<
                        SyncCredentialsView,
                        SyncError,
                    >(e)
                },
            },
    {
        if self.state != SyncState::Idle {
            return Err(SyncError::CycleInProgress);
        }
        self.state = self.state.step(SyncEvent::Started);
        let collected = match collect_credentials(credentials, device_id) {
            Ok(c) => c,
            Err(e) => {
                self.state = self.state.step(SyncEvent::Failed);
                return Err(e);
            },
        };
        match is_token_expired_at(collected.access_token.as_str(), now) {
            Ok(true) => {
                self.state = self.state.step(SyncEvent::Failed);
                return Err(SyncError::TokenExpired);
            },
            _ => {},
        }
        self.state = self.state.step(SyncEvent::CredentialsCollected);
        let local_changes = collect_local_changes(store);
        let checkpoint = store.load_checkpoint();
        self.state = self.state.step(SyncEvent::ChangesCollected);
        Ok(SyncRequest { credentials: collected, local_changes, checkpoint, started_at: now })
    }

    /// Ends the cycle with the outcome of the exchange: the answer of the
    /// remote store, or what the transport said of its failure.
    ///
    /// On success the local store holds what the answer makes of it: the
    /// pulled records are applied, the rows that were pushed are marked, and
    /// the checkpoint of the pull is the one that is loaded from then on. On
    /// any failure the local store is left as it was. Either way the
    /// orchestrator is idle afterwards. Where no exchange was under way,
    /// nothing happens and the result says so.
    pub fn sync_now(
        &mut self,
        store: &mut LocalStore,
        request: &SyncRequest,
        outcome: Result<DeltaResponse, String>,
        now: i64,
    ) -> (result: SyncResult)
        requires
            old(store).wf(),
        ensures
            final(store).wf(),
            old(self)@ != SyncState::Exchanging ==> {
                &&& final(self)@ == old(self)@
                &&& final(store)@ == old(store)@
                &&& is_failure(result, SyncError::NotExchanging.message_text(), request.started_at)
            },
            old(self)@ == SyncState::Exchanging ==> final(self)@ == SyncState::Idle && match outcome {
                Err(detail) => final(store)@ == old(store)@ && is_failure(
                    result,
                    "Sync failed: "@ + detail@,
                    request.started_at,
                ),
                Ok(response) => match after_cycle(
                    old(store)@,
                    records_view(request.local_changes@),
                    response@,
                    request.started_at,
                    now,
                ) {
                    Ok(after) => {
                        &&& final(store)@ == after
                        &&& result.success
                        &&& result.error.is_none()
                        &&& result.synced_at == request.started_at
                        &&& result.pushed == match response.push {
                            Some(ack) => ack.synced,
                            None => 0,
                        }
                        &&& result.conflicts == match response.push {
                            Some(ack) => ack.conflicts,
                            None => 0,
                        }
                        &&& result.pulled == match response.pull {
                            Some(pull) => pull.records@.len(),
                            None => 0,
                        }
                    },
                    Err(e) => final(store)@ == old(store)@ && is_failure(
                        result,
                        SyncError::StorageFailure(e).message_text(),
                        request.started_at,
                    ),
                },
            },
    {
        if self.state != SyncState::Exchanging {
            return SyncResult::failed(SyncError::NotExchanging, request.started_at);
        }
        let response = match outcome {
            Ok(response) => response,
            Err(detail) => {
                self.state = self.state.step(SyncEvent::Failed);
                return SyncResult::transport_failed(detail.as_str(), request.started_at);
            },
        };
        self.state = self.state.step(SyncEvent::Exchanged);
        let plan = match plan_cycle(&request.local_changes, &response, request.started_at, now) {
            Ok(plan) => plan,
            Err(e) => {
                self.state = self.state.step(SyncEvent::Failed);
                return SyncResult::failed(SyncError::StorageFailure(e), request.started_at);
            },
        };
        self.state = self.state.step(SyncEvent::PullApplied);
        match store.apply_all(&plan) {
            Ok(_) => {},
            Err(e) => {
                self.state = self.state.step(SyncEvent::Failed);
                return SyncResult::failed(SyncError::StorageFailure(e), request.started_at);
            },
        }
        self.state = self.state.step(SyncEvent::PushMarked);
        let (pushed_count, conflicts) = match response.push {
            Some(ack) => (ack.synced, ack.conflicts),
            None => (0, 0),
        };
        let pulled = match &response.pull {
            Some(pull) => pull.records.len(),
            None => 0,
        };
        SyncResult {
            pushed: pushed_count,
            pulled,
            conflicts,
            success: true,
            error: None,
            synced_at: request.started_at,
        }
    }

    /// Where the synchronisation stands: whether a remote service is
    /// configured, whether the user is signed in, when the last pull came to
    /// its checkpoint, and how many rows wait to be pushed.
    pub fn get_sync_status(&self, credentials: &CredentialStore, store: &LocalStore, authenticated: bool) -> (status:
        SyncStatus)
        ensures
            status.authenticated == authenticated,
            option_text(status.server_url) == configured_url(credentials@.server_url),
            status.configured == configured_url(credentials@.server_url).is_some(),
            status.last_sync_at == match store@.checkpoint {
                Some(c) => Some(c.updated_at.secs),
                None => None,
            },
            status.pending_changes == pending(store@.rows),
    {
        let server_url = match &credentials.server_url {
            Some(url) => if url.as_str().is_empty() {
                None
            } else {
                Some(url.clone())
            },
            None => None,
        };
        let last_sync_at = match store.load_checkpoint() {
            Some(checkpoint) => Some(checkpoint.updated_at.secs),
            None => None,
        };
        SyncStatus {
            configured: server_url.is_some(),
            authenticated,
            last_sync_at,
            pending_changes: store.pending_count(),
            server_url,
        }
    }
}

/// Moves the steps of one list to the end of another.
fn append_ops(plan: &mut Vec<StoreOp>, more: &mut Vec<StoreOp>)
    ensures
        ops_view(final(plan)@) == ops_view(old(plan)@) + ops_view(old(more)@),
{
    let ghost first = ops_view(plan@);
    let ghost second = ops_view(more@);
    plan.append(more);
    assert(ops_view(plan@) =~= first + second);
}

/// After a cycle that pulled, the checkpoint that is loaded is the one that
/// the remote store handed out in that cycle, whatever was loaded before.
pub proof fn lemma_checkpoint_after_pull(
    store: LocalStoreView,
    pushed: Seq<ChangeRecordView>,
    response: DeltaResponseView,
    started_at: i64,
    now: i64,
)
    requires
        response.pull.is_some(),
        after_cycle(store, pushed, response, started_at, now).is_ok(),
    ensures
        after_cycle(store, pushed, response, started_at, now)->Ok_0.checkpoint == Some(
            response.pull->Some_0.1,
        ),
{
    let plan = cycle_plan(pushed, response, started_at, now)->Ok_0;
    let saving = seq![StoreOpView::SaveCheckpoint(response.pull->Some_0.1)];
    let marking = match response.push {
        Some(_) => pushed_plan(pushed, started_at)->Ok_0,
        None => Seq::empty(),
    };
    let earlier = remote_plan(response.pull->Some_0.0, now) + marking;
    assert(plan == earlier + saving);
    lemma_run_ops_concat(store, earlier, saving);
    let middle = run_ops(store, earlier)->Ok_0;
    assert(saving.drop_first() =~= Seq::<StoreOpView>::empty());
    assert(run_ops(middle, saving) == crate::plan::run_op(middle, saving[0])) by {
        let next = crate::plan::run_op(middle, saving[0])->Ok_0;
        assert(run_ops(next, Seq::<StoreOpView>::empty()) == Ok::<LocalStoreView, StorageFailure>(
            next,
        ));
    }
}

} // verus!
