//! Sync errors.

use vstd::prelude::*;

use crate::text;

verus! {

/// Errors raised by the sync subsystem.
#[derive(Debug)]
pub enum SyncError {
    /// There is no `[sync]` section.
    NotConfigured,
    Backend(SyncBackendError),
    /// The manifest could not be written, read or applied.
    Manifest(String),
    /// A push found conflicts; the vault-ids they are on.
    Conflict(Vec<String>),
    Decrypt(String),
    Encrypt(String),
}

/// Errors raised by a sync transport backend.
#[derive(Debug)]
pub enum SyncBackendError {
    Git { message: String, command: String },
    WebDav(String),
    RemoteNotFound,
    Io(String),
}

impl SyncError {
    /// The user-facing text.
    pub open spec fn text(&self) -> Seq<char> {
        match self {
            SyncError::NotConfigured => "sync not configured. Run `avpm config init` to set up sync"@,
            SyncError::Backend(e) => "backend error: "@ + e.text(),
            SyncError::Manifest(message) => "manifest serialization failed: "@ + message@,
            SyncError::Conflict(_) =>
                "sync push aborted: conflicts need resolution. Run `avpm sync pull` first"@,
            SyncError::Decrypt(_) => "decryption failed: wrong master password or corrupted data"@,
            SyncError::Encrypt(message) => "encryption failed: "@ + message@,
        }
    }

    /// The user-facing text.
    pub fn message(&self) -> (r: String)
        ensures
            r@ == self.text(),
    {
        match self {
            SyncError::NotConfigured =>
                "sync not configured. Run `avpm config init` to set up sync".to_owned(),
            SyncError::Backend(e) => {
                let inner = e.message();
                text::join2("backend error: ", inner.as_str())
            },
            SyncError::Manifest(message) => text::join2(
                "manifest serialization failed: ",
                message.as_str(),
            ),
            SyncError::Conflict(_) =>
                "sync push aborted: conflicts need resolution. Run `avpm sync pull` first".to_owned(),
            SyncError::Decrypt(_) =>
                "decryption failed: wrong master password or corrupted data".to_owned(),
            SyncError::Encrypt(message) => text::join2("encryption failed: ", message.as_str()),
        }
    }
}

impl SyncBackendError {
    /// The user-facing text.
    pub open spec fn text(&self) -> Seq<char> {
        match self {
            SyncBackendError::Git { message, command } => "git operation failed: "@ + message@
                + "\ncommand: "@ + command@,
            SyncBackendError::WebDav(message) => "webdav request failed: "@ + message@,
            SyncBackendError::RemoteNotFound =>
                "remote data not found. Run `avpm sync push` first"@,
            SyncBackendError::Io(message) => "io error during backend operation: "@ + message@,
        }
    }

    /// The user-facing text.
    pub fn message(&self) -> (r: String)
        ensures
            r@ == self.text(),
    {
        match self {
            SyncBackendError::Git { message, command } => {
                let mut out = text::join3(
                    "git operation failed: ",
                    message.as_str(),
                    "\ncommand: ",
                );
                out.append(command.as_str());
                out
            },
            SyncBackendError::WebDav(message) => text::join2(
                "webdav request failed: ",
                message.as_str(),
            ),
            SyncBackendError::RemoteNotFound =>
                "remote data not found. Run `avpm sync push` first".to_owned(),
            SyncBackendError::Io(message) => text::join2(
                "io error during backend operation: ",
                message.as_str(),
            ),
        }
    }
}

} // verus!
