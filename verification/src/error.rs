//! The error type shared by all operations, and the process exit codes.
//!
//! - `0` success
//! - `1` generic error
//! - `2` vault-id not found (the ansible client contract)
//! - `3` configuration error
//! - `4` decryption failure (sync or file store)
//! - `5` file store locked (run `avpm unlock`)
//! - `6` OS keyring locked in a non-interactive call (run `avpm unlock`)

use vstd::prelude::*;

use crate::config::ConfigError;
use crate::sync::error::SyncError;
use crate::text;
use crate::vault::error::VaultError;

verus! {

/// The error returned by all library operations.
#[derive(Debug)]
pub enum Error {
    Vault(VaultError),
    Sync(SyncError),
    Config(ConfigError),
    /// An input/output failure, by its description.
    Io(String),
    /// age could not decrypt; the description of the failure.
    Decrypt(String),
    /// age could not encrypt; the description of the failure.
    Encrypt(String),
    Other(String),
}

impl Error {
    /// The vault-id is absent.
    pub open spec fn is_not_found(&self) -> bool {
        self matches Error::Vault(VaultError::NotFound(_))
    }

    /// Whether the vault-id is absent.
    #[must_use]
    pub fn not_found(&self) -> (r: bool)
        ensures
            r == self.is_not_found(),
    {
        match self {
            Error::Vault(VaultError::NotFound(_)) => true,
            _ => false,
        }
    }

    /// The process exit code that an error maps to.
    pub open spec fn code(&self) -> u8 {
        match self {
            Error::Vault(VaultError::NotFound(_)) => 2,
            Error::Config(_) => 3,
            Error::Sync(SyncError::Decrypt(_)) => 4,
            Error::Decrypt(_) => 4,
            Error::Vault(VaultError::StoreDecrypt) => 4,
            Error::Vault(VaultError::Locked) => 5,
            Error::Vault(VaultError::KeyringLocked) => 6,
            _ => 1,
        }
    }

    /// Maps an error to the process exit code.
    #[must_use]
    pub fn exit_code(&self) -> (r: u8)
        ensures
            r == self.code(),
    {
        match self {
            Error::Vault(VaultError::NotFound(_)) => 2,
            Error::Config(_) => 3,
            Error::Sync(SyncError::Decrypt(_)) => 4,
            Error::Decrypt(_) => 4,
            Error::Vault(VaultError::StoreDecrypt) => 4,
            Error::Vault(VaultError::Locked) => 5,
            Error::Vault(VaultError::KeyringLocked) => 6,
            _ => 1,
        }
    }

    /// The user-facing text.
    pub open spec fn text(&self) -> Seq<char> {
        match self {
            Error::Vault(e) => e.text(),
            Error::Sync(e) => e.text(),
            Error::Config(e) => e.text(),
            Error::Io(message) => message@,
            Error::Decrypt(message) => "decryption failed: "@ + message@,
            Error::Encrypt(message) => "encryption failed: "@ + message@,
            Error::Other(message) => message@,
        }
    }

    /// The user-facing text.
    pub fn message(&self) -> (r: String)
        ensures
            r@ == self.text(),
    {
        match self {
            Error::Vault(e) => e.message(),
            Error::Sync(e) => e.message(),
            Error::Config(e) => e.message(),
            Error::Io(message) => message.clone(),
            Error::Decrypt(message) => text::join2("decryption failed: ", message.as_str()),
            Error::Encrypt(message) => text::join2("encryption failed: ", message.as_str()),
            Error::Other(message) => message.clone(),
        }
    }
}

/// Every failure exits with a non-zero code of at most six. "Not found",
/// "store locked" and "keyring locked" have a code of their own, so that a
/// non-interactive caller can tell each of them from every other failure.
pub proof fn exit_codes_are_distinct(e: Error)
    ensures
        1 <= e.code() <= 6,
        e.code() == 2 <==> e.is_not_found(),
        e.code() == 5 <==> e matches Error::Vault(VaultError::Locked),
        e.code() == 6 <==> e matches Error::Vault(VaultError::KeyringLocked),
        e.code() == 3 <==> e is Config,
        e.code() == 4 <==> {
            ||| e is Decrypt
            ||| e matches Error::Sync(SyncError::Decrypt(_))
            ||| e matches Error::Vault(VaultError::StoreDecrypt)
        },
{
}

/// The exit code of an absent vault-id is two, that of a bad configuration three, that
/// of a failed decryption four, that of a locked store five, that of a locked keyring
/// six, and that of anything else one.
pub proof fn exit_code_tells_the_failure(e: &Error, code: u8)
    requires
        call_ensures(Error::exit_code, (e,), code),
    ensures
        code == 2 <==> e matches Error::Vault(VaultError::NotFound(_)),
        code == 3 <==> e is Config,
        code == 4 <==> {
            ||| e is Decrypt
            ||| e matches Error::Sync(SyncError::Decrypt(_))
            ||| e matches Error::Vault(VaultError::StoreDecrypt)
        },
        code == 5 <==> e matches Error::Vault(VaultError::Locked),
        code == 6 <==> e matches Error::Vault(VaultError::KeyringLocked),
        1 <= code <= 6,
{
}

/// What the user reads tells the details: the vault-id that is absent, the path that
/// was looked at, the description of what went wrong.
pub proof fn message_tells_the_details(e: &Error, message: String)
    requires
        call_ensures(Error::message, (e,), message),
    ensures
        match e {
            Error::Vault(VaultError::NotFound(id)) => text::occurs_in(message@, id@),
            Error::Vault(VaultError::KeyringUnavailable { message: cause, .. }) => text::occurs_in(
                message@,
                cause@,
            ),
            Error::Vault(VaultError::KeyringFailed(cause)) => text::ends(message@, cause@),
            Error::Vault(VaultError::SessionCache(cause)) => text::ends(message@, cause@),
            Error::Vault(VaultError::FileStore { path, message: cause }) => text::occurs_in(
                message@,
                path@,
            ) && text::ends(message@, cause@),
            Error::Vault(VaultError::Index { path, message: cause }) => text::occurs_in(
                message@,
                path@,
            ) && text::ends(message@, cause@),
            Error::Vault(VaultError::IndexCorrupted { path, message: cause }) => text::occurs_in(
                message@,
                path@,
            ) && text::ends(message@, cause@),
            Error::Sync(SyncError::Manifest(cause)) => text::ends(message@, cause@),
            Error::Sync(SyncError::Encrypt(cause)) => text::ends(message@, cause@),
            Error::Sync(SyncError::Backend(crate::sync::error::SyncBackendError::Git { message: cause, command })) =>
                text::occurs_in(message@, cause@) && text::ends(message@, command@),
            Error::Sync(SyncError::Backend(crate::sync::error::SyncBackendError::WebDav(cause))) => text::ends(
                message@,
                cause@,
            ),
            Error::Sync(SyncError::Backend(crate::sync::error::SyncBackendError::Io(cause))) => text::ends(
                message@,
                cause@,
            ),
            Error::Config(ConfigError::Load { path, message: cause }) => text::occurs_in(
                message@,
                path@,
            ) && text::ends(message@, cause@),
            Error::Config(ConfigError::Invalid(cause)) => text::ends(message@, cause@),
            Error::Decrypt(cause) => text::ends(message@, cause@),
            Error::Encrypt(cause) => text::ends(message@, cause@),
            Error::Io(cause) => message@ == cause@,
            Error::Other(cause) => message@ == cause@,
            _ => true,
        },
{
    let m = message@;
    match e {
        Error::Vault(VaultError::NotFound(id)) => {
            text::part_occurs("vault '"@, id@, "' not found"@);
        },
        Error::Vault(VaultError::KeyringUnavailable { message: cause, .. }) => {
            let tail = "\n\n"@ + crate::vault::error::KEYRING_HINT@;
            assert(m =~= "keyring unavailable: "@ + cause@ + tail);
            text::part_occurs("keyring unavailable: "@, cause@, tail);
        },
        Error::Vault(VaultError::FileStore { path, message: cause }) => {
            lemma_located("file store error at "@, path@, ": "@, cause@);
        },
        Error::Vault(VaultError::Index { path, message: cause }) => {
            lemma_located("index error at "@, path@, ": "@, cause@);
        },
        Error::Vault(VaultError::IndexCorrupted { path, message: cause }) => {
            lemma_located("index file at "@, path@, " is corrupted: "@, cause@);
        },
        Error::Config(ConfigError::Load { path, message: cause }) => {
            lemma_located("failed to load config from "@, path@, ": "@, cause@);
        },
        Error::Sync(SyncError::Backend(crate::sync::error::SyncBackendError::Git { message: cause, command })) => {
            let head = "backend error: "@ + "git operation failed: "@;
            assert(m =~= head + cause@ + "\ncommand: "@ + command@);
            lemma_located(head, cause@, "\ncommand: "@, command@);
        },
        Error::Sync(SyncError::Backend(crate::sync::error::SyncBackendError::WebDav(cause))) => {
            assert(m =~= ("backend error: "@ + "webdav request failed: "@) + cause@);
            text::ends_split_the_text(m, cause@);
        },
        Error::Sync(SyncError::Backend(crate::sync::error::SyncBackendError::Io(cause))) => {
            assert(m =~= ("backend error: "@ + "io error during backend operation: "@) + cause@);
            text::ends_split_the_text(m, cause@);
        },
        Error::Vault(VaultError::KeyringFailed(cause)) => {
            assert(m == "keyring operation failed: "@ + cause@);
            text::ends_split_the_text(m, cause@);
        },
        Error::Vault(VaultError::SessionCache(cause)) => {
            assert(m == "session cache unavailable: "@ + cause@);
            text::ends_split_the_text(m, cause@);
        },
        Error::Sync(SyncError::Manifest(cause)) => {
            assert(m == "manifest serialization failed: "@ + cause@);
            text::ends_split_the_text(m, cause@);
        },
        Error::Sync(SyncError::Encrypt(cause)) => {
            assert(m == "encryption failed: "@ + cause@);
            text::ends_split_the_text(m, cause@);
        },
        Error::Config(ConfigError::Invalid(cause)) => {
            assert(m == "invalid config: "@ + cause@);
            text::ends_split_the_text(m, cause@);
        },
        Error::Decrypt(cause) => {
            assert(m == "decryption failed: "@ + cause@);
            text::ends_split_the_text(m, cause@);
        },
        Error::Encrypt(cause) => {
            assert(m == "encryption failed: "@ + cause@);
            text::ends_split_the_text(m, cause@);
        },
        _ => {},
    }
}

proof fn lemma_located(head: Seq<char>, at: Seq<char>, between: Seq<char>, cause: Seq<char>)
    ensures
        text::occurs_in(head + at + between + cause, at),
        text::ends(head + at + between + cause, cause),
{
    let m = head + at + between + cause;
    assert(m =~= head + at + (between + cause));
    text::part_occurs(head, at, between + cause);
    assert(m == (head + at + between) + cause);
    text::ends_split_the_text(m, cause);
}

} // verus!
