//! `avpm unlock` - make the active backend usable without prompting.
//!
//! - **Keyring backend**: ensure the default collection exists and is unlocked.
//!   It never creates the file store, so a user who runs `avpm unlock` on a
//!   keyring-capable system is not pulled onto the file backend.
//! - **File backend**: verify (existing store) or set (first run) the master
//!   passphrase and cache it, so subsequent non-interactive calls can decrypt
//!   without prompting. It does **not** create an empty store; the file is born
//!   on the first real `set`.

use vstd::prelude::*;

use crate::commands::ResolvedBackend;
use crate::error::Error;
use crate::text;
use crate::vault::error::VaultError;
use crate::vault::file::FileStore;
use crate::vault::secret::VaultSecret;
use crate::vault::store::VaultStore;

verus! {

/// What `unlock` does for a backend.
#[derive(Debug, Clone, Copy, PartialEq, Eq, Structural)]
pub enum UnlockPlan {
    /// Make the default collection ready.
    Keyring,
    /// Ask for the master passphrase of the existing store, and verify it.
    VerifyPassphrase,
    /// Ask for a new master passphrase, twice.
    SetPassphrase,
}

/// What is told once the keyring backend is ready.
pub const KEYRING_READY: &'static str =
    "keyring backend ready (default collection exists and is unlocked).\n  \
     passwords are stored in the OS keyring and are available \
     without a separate per-command unlock step.";

/// What is told once the master passphrase is cached.
pub const UNLOCKED: &'static str = "unlocked (master passphrase cached for this session)";

/// What is told where the file store was not the user's own choice.
pub const FILE_BACKEND_NUDGE: &'static str =
    "note: the file backend is in use because the default keyring collection cannot be \
     created here (no GUI to answer a prompt, no gnome-keyring control socket).\n  \
     with either of them, `avpm unlock` sets up the keyring backend.";

/// The vault-id that a passphrase is tried on.
pub const PROBE_ID: &'static str = "_avpm_unlock_probe_";

/// What `unlock` does for a backend, given whether the store file exists.
#[must_use]
pub fn plan(backend: ResolvedBackend, store_exists: bool) -> (r: UnlockPlan)
    ensures
        r == if backend == ResolvedBackend::Keyring {
            UnlockPlan::Keyring
        } else if store_exists {
            UnlockPlan::VerifyPassphrase
        } else {
            UnlockPlan::SetPassphrase
        },
{
    match backend {
        ResolvedBackend::Keyring => UnlockPlan::Keyring,
        _ => {
            if store_exists {
                UnlockPlan::VerifyPassphrase
            } else {
                UnlockPlan::SetPassphrase
            }
        },
    }
}

/// Whether the user is told that the keyring backend is within reach: only where
/// the file store was not their own choice.
#[must_use]
pub fn nudges(backend: ResolvedBackend) -> (r: bool)
    ensures
        r == (backend == ResolvedBackend::AutoFileNoGui),
{
    backend == ResolvedBackend::AutoFileNoGui
}

/// Verify the passphrase of a store by reading an entry: whether or not the entry
/// exists, an answer proves that the store opened. A store that does not open is
/// an error.
pub fn verify(store: &FileStore) -> (r: Result<(), Error>)
    ensures
        match r {
            Ok(()) => store.opens(),
            Err(e) => store.load_failure(e),
        },
        store.holds_no_text() ==> r is Ok,
        store.image is Unreadable ==> r is Err,
{
    verdict(store.get(PROBE_ID))
}

/// What the outcome of reading an entry says of the passphrase: an entry that is
/// absent is as good as one that is there.
pub fn verdict(read: Result<VaultSecret, Error>) -> (r: Result<(), Error>)
    ensures
        match read {
            Ok(_) => r is Ok,
            Err(Error::Vault(VaultError::NotFound(_))) => r is Ok,
            Err(e) => r == Err::<(), Error>(e),
        },
{
    match read {
        Ok(_) => Ok(()),
        Err(e) => match e {
            Error::Vault(VaultError::NotFound(_)) => Ok(()),
            other => Err(other),
        },
    }
}

/// The keyring never asks for a master passphrase; the file store asks for a new one
/// exactly where it does not exist yet. Only a file store that the user did not choose
/// comes with a hint.
pub proof fn plan_goes_by_the_backend(
    backend: ResolvedBackend,
    store_exists: bool,
    planned: UnlockPlan,
    nudged: bool,
)
    requires
        call_ensures(plan, (backend, store_exists), planned),
        call_ensures(nudges, (backend,), nudged),
    ensures
        planned == UnlockPlan::Keyring <==> backend == ResolvedBackend::Keyring,
        planned == UnlockPlan::SetPassphrase <==> backend != ResolvedBackend::Keyring
            && !store_exists,
        planned == UnlockPlan::VerifyPassphrase <==> backend != ResolvedBackend::Keyring
            && store_exists,
        nudged ==> backend != ResolvedBackend::File && planned != UnlockPlan::Keyring,
        backend == ResolvedBackend::AutoFileNoGui ==> nudged,
{
}

/// A passphrase is right where the store opens: an answered read says so whether or not the
/// entry is there, and every other failure says that it is not.
pub proof fn opened_store_proves_the_passphrase(
    store: &FileStore,
    verified: Result<(), Error>,
    read: Result<VaultSecret, Error>,
    judged: Result<(), Error>,
)
    requires
        call_ensures(verify, (store,), verified),
        call_ensures(verdict, (read,), judged),
    ensures
        verified is Ok ==> store.opens(),
        judged is Ok <==> read is Ok || (read matches Err(e) && e.is_not_found()),
        read matches Err(e) ==> (!e.is_not_found() ==> judged == Err::<(), Error>(e)),
{
}

/// What is told where the passphrase could not be cached.
pub fn uncached(e: &Error) -> (r: String)
    ensures
        r@ == "warning: passphrase verified but could not be cached ("@ + e.text()
            + ");\n  it will need to be re-entered in each new process"@,
{
    let cause = e.message();
    text::join3(
        "warning: passphrase verified but could not be cached (",
        cause.as_str(),
        ");\n  it will need to be re-entered in each new process",
    )
}

} // verus!
