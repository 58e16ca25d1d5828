//! The failures a session reports, and the five kinds they fall into.

use vstd::prelude::*;

verus! {

/// The kind of a failure.
#[derive(Clone, Copy, Debug, PartialEq, Eq, Structural)]
pub enum ErrorKind {
    /// Something that was asked for by name does not exist.
    NotFound,
    /// An argument is malformed.
    InvalidArgument,
    /// The session is not in a state that allows the operation.
    SessionState,
    /// The engine reported a failure.
    Engine,
    /// Stored bytes are not valid text.
    Encoding,
}

/// A failure of one session call.
#[derive(Debug, PartialEq, Eq)]
pub enum SessionError {
    /// The named column family is not in the session's catalog.
    FamilyNotFound,
    /// The name is not one of the compression algorithms.
    InvalidCompression,
    /// The write batch has not been started.
    BatchNotStarted,
    /// No transaction is active.
    TransactionNotStarted,
    /// The active transaction has no savepoint to roll back to.
    NoSavepoint,
    /// The active transaction cannot take another savepoint.
    SavepointLimit,
    /// The backup engine has not been initialized.
    BackupNotInitialized,
    /// The backup catalog lists no backup with the id asked for.
    BackupNotFound,
    /// No snapshot is held.
    SnapshotNotCreated,
    /// The engine failed; the text is the engine's own message.
    Engine(String),
    /// Bytes that had to be text are not valid UTF-8.
    Encoding,
}

impl SessionError {
    /// The kind this failure falls into.
    pub open spec fn spec_kind(self) -> ErrorKind {
        match self {
            SessionError::FamilyNotFound => ErrorKind::NotFound,
            SessionError::InvalidCompression => ErrorKind::InvalidArgument,
            SessionError::BatchNotStarted => ErrorKind::SessionState,
            SessionError::TransactionNotStarted => ErrorKind::SessionState,
            SessionError::NoSavepoint => ErrorKind::SessionState,
            SessionError::SavepointLimit => ErrorKind::SessionState,
            SessionError::BackupNotInitialized => ErrorKind::SessionState,
            SessionError::BackupNotFound => ErrorKind::NotFound,
            SessionError::SnapshotNotCreated => ErrorKind::SessionState,
            SessionError::Engine(_) => ErrorKind::Engine,
            SessionError::Encoding => ErrorKind::Encoding,
        }
    }

    /// The text shown to the caller for this failure.
    pub open spec fn spec_message(self) -> Seq<char> {
        match self {
            SessionError::FamilyNotFound => "Column family not found"@,
            SessionError::InvalidCompression => "Invalid compression type"@,
            SessionError::BatchNotStarted => "WriteBatch not initialized"@,
            SessionError::TransactionNotStarted => "No active transaction"@,
            SessionError::NoSavepoint => "No savepoint to roll back to"@,
            SessionError::SavepointLimit => "Too many savepoints"@,
            SessionError::BackupNotInitialized => "Backup engine is not initialized"@,
            SessionError::BackupNotFound => "Backup not found"@,
            SessionError::SnapshotNotCreated => "Snapshot not created"@,
            SessionError::Engine(message) => message@,
            SessionError::Encoding => "Stored bytes are not valid text"@,
        }
    }

    /// The kind this failure falls into.
    pub fn kind(&self) -> (kind: ErrorKind)
        ensures
            kind == self.spec_kind(),
    {
        match self {
            SessionError::FamilyNotFound => ErrorKind::NotFound,
            SessionError::InvalidCompression => ErrorKind::InvalidArgument,
            SessionError::BatchNotStarted => ErrorKind::SessionState,
            SessionError::TransactionNotStarted => ErrorKind::SessionState,
            SessionError::NoSavepoint => ErrorKind::SessionState,
            SessionError::SavepointLimit => ErrorKind::SessionState,
            SessionError::BackupNotInitialized => ErrorKind::SessionState,
            SessionError::BackupNotFound => ErrorKind::NotFound,
            SessionError::SnapshotNotCreated => ErrorKind::SessionState,
            SessionError::Engine(_) => ErrorKind::Engine,
            SessionError::Encoding => ErrorKind::Encoding,
        }
    }

    /// The text shown to the caller for this failure. An engine failure
    /// shows the engine's own message unchanged.
    pub fn message(&self) -> (text: String)
        ensures
            text@ == self.spec_message(),
    {
        match self {
            SessionError::FamilyNotFound => "Column family not found".to_owned(),
            SessionError::InvalidCompression => "Invalid compression type".to_owned(),
            SessionError::BatchNotStarted => "WriteBatch not initialized".to_owned(),
            SessionError::TransactionNotStarted => "No active transaction".to_owned(),
            SessionError::NoSavepoint => "No savepoint to roll back to".to_owned(),
            SessionError::SavepointLimit => "Too many savepoints".to_owned(),
            SessionError::BackupNotInitialized => "Backup engine is not initialized".to_owned(),
            SessionError::BackupNotFound => "Backup not found".to_owned(),
            SessionError::SnapshotNotCreated => "Snapshot not created".to_owned(),
            SessionError::Engine(message) => message.clone(),
            SessionError::Encoding => "Stored bytes are not valid text".to_owned(),
        }
    }
}

} // verus!
