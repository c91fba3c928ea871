//! Vault errors.

use vstd::prelude::*;

use crate::text;

verus! {

/// Errors from vault secret storage and index operations.
#[derive(Debug)]
pub enum VaultError {
    /// The named vault-id does not exist (exit code 2, the ansible contract).
    NotFound(String),
    /// The keyring backend is unavailable (no D-Bus session, no daemon, ...).
    /// `source` describes the failure underneath.
    KeyringUnavailable { message: String, source: String },
    /// A keyring operation failed.
    KeyringFailed(String),
    /// The keyring is locked and the caller cannot be prompted (exit code 6).
    KeyringLocked,
    /// The session cache for the master passphrase is unavailable.
    SessionCache(String),
    /// The encrypted store file could not be read, written or understood.
    FileStore { path: String, message: String },
    /// The master passphrase is not cached (exit code 5).
    Locked,
    /// The store could not be decrypted (exit code 4).
    StoreDecrypt,
    /// The index file could not be read or written.
    Index { path: String, message: String },
    /// The index file does not hold an index.
    IndexCorrupted { path: String, message: String },
}

/// User-facing hint for resolving Secret Service unavailability.
pub const KEYRING_HINT: &'static str =
    "The OS keyring (Secret Service) is unavailable on this system.\n\n\
     Common causes and fixes:\n\n\
     1. Secret Service daemon not installed (error: \"The name\n\
        org.freedesktop.secrets was not provided by any .service files\"):\n\n\
        sudo apt-get install -y gnome-keyring dbus-x11 libsecret-tools\n\
        (then restart your session / WSL so systemd + D-Bus pick it up)\n\n\
     2. WSL2 without systemd:\n\n\
        Ensure /etc/wsl.conf contains:\n\
          [boot]\n\
          systemd=true\n\
        Then run `wsl --shutdown` from Windows and reopen.\n\n\
     3. Daemon present but login collection locked (needs a GUI):\n\n\
        Install seahorse and unlock once via the GUI, or use the headless\n\
        session-collection workaround described in docs/troubleshooting.md.\n\n\
     See docs/troubleshooting.md for full diagnostics and step-by-step setup.";

/// User-facing hint for resolving Secret Service unavailability.
#[must_use]
pub fn keyring_hint() -> (r: &'static str)
    ensures
        r@ == KEYRING_HINT@,
{
    KEYRING_HINT
}

impl VaultError {
    /// The user-facing text.
    pub open spec fn text(&self) -> Seq<char> {
        match self {
            VaultError::NotFound(id) => "vault '"@ + id@ + "' not found"@,
            VaultError::KeyringUnavailable { message, .. } => "keyring unavailable: "@ + message@
                + "\n\n"@ + KEYRING_HINT@,
            VaultError::KeyringFailed(message) => "keyring operation failed: "@ + message@,
            VaultError::KeyringLocked =>
                "the OS keyring is locked.\n  Hint: run `avpm unlock` from an interactive terminal"@,
            VaultError::SessionCache(message) => "session cache unavailable: "@ + message@,
            VaultError::FileStore { path, message } => "file store error at "@ + path@ + ": "@
                + message@,
            VaultError::Locked =>
                "master passphrase not cached.\n  Hint: run `avpm unlock` to decrypt the file store\n  (OS keyring unavailable on this system; using encrypted file store)"@,
            VaultError::StoreDecrypt =>
                "store decryption failed (wrong master passphrase or corrupted store)"@,
            VaultError::Index { path, message } => "index error at "@ + path@ + ": "@ + message@,
            VaultError::IndexCorrupted { path, message } => "index file at "@ + path@
                + " is corrupted: "@ + message@,
        }
    }

    /// The user-facing text.
    pub fn message(&self) -> (r: String)
        ensures
            r@ == self.text(),
    {
        match self {
            VaultError::NotFound(id) => text::join3("vault '", id.as_str(), "' not found"),
            VaultError::KeyringUnavailable { message, .. } => {
                let mut out = text::join3("keyring unavailable: ", message.as_str(), "\n\n");
                out.append(KEYRING_HINT);
                out
            },
            VaultError::KeyringFailed(message) => text::join2(
                "keyring operation failed: ",
                message.as_str(),
            ),
            VaultError::KeyringLocked =>
                "the OS keyring is locked.\n  Hint: run `avpm unlock` from an interactive terminal".to_owned(),
            VaultError::SessionCache(message) => text::join2(
                "session cache unavailable: ",
                message.as_str(),
            ),
            VaultError::FileStore { path, message } => {
                let mut out = text::join3("file store error at ", path.as_str(), ": ");
                out.append(message.as_str());
                out
            },
            VaultError::Locked =>
                "master passphrase not cached.\n  Hint: run `avpm unlock` to decrypt the file store\n  (OS keyring unavailable on this system; using encrypted file store)".to_owned(),
            VaultError::StoreDecrypt =>
                "store decryption failed (wrong master passphrase or corrupted store)".to_owned(),
            VaultError::Index { path, message } => {
                let mut out = text::join3("index error at ", path.as_str(), ": ");
                out.append(message.as_str());
                out
            },
            VaultError::IndexCorrupted { path, message } => {
                let mut out = text::join3("index file at ", path.as_str(), " is corrupted: ");
                out.append(message.as_str());
                out
            },
        }
    }
}

} // verus!
