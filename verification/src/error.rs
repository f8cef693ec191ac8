//! What can go wrong, by kind.

use vstd::prelude::*;

verus! {

/// A failure of the cipher, of the key derivation or of the encoding of an
/// encrypted value. None of them is ever replaced by a default value.
#[derive(Clone, Copy, Debug, PartialEq, Eq, Structural)]
pub enum CryptoFailure {
    /// The key could not be derived from the device identifier.
    KeyDerivation,
    /// The derived hash holds fewer bytes than a key needs.
    HashTooShort,
    /// The cipher refused the value, or the machine cannot hold what is
    /// stored for it.
    Encryption,
    /// The stored value is not base64.
    Encoding,
    /// The stored value is shorter than a nonce.
    TooShort,
    /// The stored value was changed, or was encrypted under another key.
    Authentication,
    /// What was decrypted is not text.
    NotText,
}

/// One of the values that the credential store keeps.
#[derive(Clone, Copy, Debug, PartialEq, Eq, Structural)]
pub enum Credential {
    AccessToken,
    RefreshToken,
    ApiKey,
    AppId,
    ServerUrl,
}

/// Why it cannot be told whether a token is past its time.
#[derive(Clone, Copy, Debug, PartialEq, Eq, Structural)]
pub enum TokenError {
    /// The token does not decode, or states no time of expiry.
    Malformed,
    /// The clock of the machine stands before 1970.
    Clock,
}

/// A failure of the local store.
#[derive(Clone, Copy, Debug, PartialEq, Eq, Structural)]
pub enum StorageFailure {
    /// The persisted time of the checkpoint is not a date and time.
    CheckpointTimestamp,
    /// A record that was pushed names a table that the store does not hold.
    UnknownTable,
    /// The version counter of a row cannot be raised any further.
    VersionOverflow,
}

/// Why an operation of the engine failed.
#[derive(Clone, Copy, Debug, PartialEq, Eq, Structural)]
pub enum SyncError {
    CryptoFailure(CryptoFailure),
    /// A value that the operation needs is not stored.
    CredentialMissing(Credential),
    /// The access token is past its time.
    TokenExpired,
    /// The remote service did not renew the tokens: the session has ended.
    RefreshFailure,
    /// The exchange with the remote service failed.
    TransportFailure,
    StorageFailure(StorageFailure),
    /// A cycle was asked for while another one is under way.
    CycleInProgress,
    /// The outcome of an exchange was handed in while no exchange is under
    /// way.
    NotExchanging,
}

impl CryptoFailure {
    /// The reason of the failure in words.
    pub open spec fn message_text(self) -> Seq<char> {
        match self {
            CryptoFailure::KeyDerivation => "Failed to hash password"@,
            CryptoFailure::HashTooShort => "Hash too short"@,
            CryptoFailure::Encryption => "Encryption failed"@,
            CryptoFailure::Encoding => "Failed to decode base64"@,
            CryptoFailure::TooShort => "Encrypted data too short"@,
            CryptoFailure::Authentication => "Decryption failed"@,
            CryptoFailure::NotText => "Failed to convert decrypted data to string"@,
        }
    }

    /// The reason of the failure in words.
    pub fn message(&self) -> (text: &'static str)
        ensures
            text@ == self.message_text(),
    {
        match self {
            CryptoFailure::KeyDerivation => "Failed to hash password",
            CryptoFailure::HashTooShort => "Hash too short",
            CryptoFailure::Encryption => "Encryption failed",
            CryptoFailure::Encoding => "Failed to decode base64",
            CryptoFailure::TooShort => "Encrypted data too short",
            CryptoFailure::Authentication => "Decryption failed",
            CryptoFailure::NotText => "Failed to convert decrypted data to string",
        }
    }
}

impl Credential {
    /// What is said where the value is missing.
    pub open spec fn missing_text(self) -> Seq<char> {
        match self {
            Credential::AccessToken => "No access token found"@,
            Credential::RefreshToken => "No refresh token found"@,
            Credential::ApiKey => "No API key found"@,
            Credential::AppId => "No app ID found"@,
            Credential::ServerUrl =>
                "Server URL not configured. Please configure it in Sync Settings."@,
        }
    }

    /// What is said where the value is missing.
    pub fn missing_message(&self) -> (text: &'static str)
        ensures
            text@ == self.missing_text(),
    {
        match self {
            Credential::AccessToken => "No access token found",
            Credential::RefreshToken => "No refresh token found",
            Credential::ApiKey => "No API key found",
            Credential::AppId => "No app ID found",
            Credential::ServerUrl => "Server URL not configured. Please configure it in Sync Settings.",
        }
    }
}

impl StorageFailure {
    /// The reason of the failure in words.
    pub open spec fn message_text(self) -> Seq<char> {
        match self {
            StorageFailure::CheckpointTimestamp => "Failed to parse checkpoint timestamp"@,
            StorageFailure::UnknownTable => "Unknown table"@,
            StorageFailure::VersionOverflow => "Version counter overflow"@,
        }
    }

    /// The reason of the failure in words.
    pub fn message(&self) -> (text: &'static str)
        ensures
            text@ == self.message_text(),
    {
        match self {
            StorageFailure::CheckpointTimestamp => "Failed to parse checkpoint timestamp",
            StorageFailure::UnknownTable => "Unknown table",
            StorageFailure::VersionOverflow => "Version counter overflow",
        }
    }
}

impl SyncError {
    /// The reason of the failure in words, for the user.
    pub open spec fn message_text(self) -> Seq<char> {
        match self {
            SyncError::CryptoFailure(failure) => failure.message_text(),
            SyncError::CredentialMissing(which) => which.missing_text(),
            SyncError::TokenExpired => "Access token expired"@,
            SyncError::RefreshFailure => "Token refresh failed"@,
            SyncError::TransportFailure => "Sync failed"@,
            SyncError::StorageFailure(failure) => failure.message_text(),
            SyncError::CycleInProgress => "A sync cycle is already in progress"@,
            SyncError::NotExchanging => "No exchange is under way"@,
        }
    }

    /// The reason of the failure in words, for the user.
    pub fn message(&self) -> (text: &'static str)
        ensures
            text@ == self.message_text(),
    {
        match self {
            SyncError::CryptoFailure(failure) => failure.message(),
            SyncError::CredentialMissing(which) => which.missing_message(),
            SyncError::TokenExpired => "Access token expired",
            SyncError::RefreshFailure => "Token refresh failed",
            SyncError::TransportFailure => "Sync failed",
            SyncError::StorageFailure(failure) => failure.message(),
            SyncError::CycleInProgress => "A sync cycle is already in progress",
            SyncError::NotExchanging => "No exchange is under way",
        }
    }
}

} // verus!
