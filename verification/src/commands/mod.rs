//! Command decisions.
//!
//! What the commands decide and do to the store and the index, between the
//! prompts and the output of the program: resolving the default action
//! (`avpm <id>` is `get`) and the `--vault-id` ansible-client form, choosing the
//! storage backend, and obtaining the master passphrase.

use vstd::prelude::*;

use crate::cli::{Cli, Command};
use crate::config::{Config, StorageBackend};
use crate::error::Error;
use crate::index::VaultIndex;
use crate::paths;
use crate::sync::error::SyncError;
use crate::text;
use crate::vault::error::VaultError;
use crate::vault::master::{self, MasterCache};
use crate::vault::ss::{self, DefaultCollectionStatus};

pub mod config_cmd;
pub mod get;
pub mod list;
pub mod remove;
pub mod rename;
pub mod set;
pub mod sync_cmd;
pub mod unlock;

verus! {

/// Resolve the effective command, accounting for the default-action form and the
/// ansible client form.
pub fn resolve_command(cli: Cli) -> (r: Result<Command, Error>)
    ensures
        match (cli.command, cli.vault_id) {
            (Some(command), _) => r == Ok::<Command, Error>(command),
            (None, Some(id)) => r == Ok::<Command, Error>(Command::Get { vault_id: id }),
            (None, None) => if cli.positional@.len() > 0 {
                r matches Ok(Command::Get { vault_id }) && vault_id@ == cli.positional@[0]@
            } else {
                r matches Err(Error::Other(message)) && message@
                    == "no command given. Run `avpm --help` for usage."@
            },
        },
{
    if let Some(command) = cli.command {
        return Ok(command);
    }
    if let Some(id) = cli.vault_id {
        return Ok(Command::Get { vault_id: id });
    }
    if cli.positional.len() > 0 {
        return Ok(Command::Get { vault_id: cli.positional[0].clone() });
    }
    Err(Error::Other("no command given. Run `avpm --help` for usage.".to_owned()))
}

/// Whether a command touches the vault store. Those that do not are run before a
/// backend is resolved, which may prompt or fail. `sync` reports that it is not
/// configured before touching the store.
pub fn needs_store(command: &Command, sync_configured: bool) -> (r: Result<bool, Error>)
    ensures
        match command {
            Command::Unlock | Command::List | Command::Config { .. } => r == Ok::<bool, Error>(
                false,
            ),
            Command::Sync { .. } => if sync_configured {
                r == Ok::<bool, Error>(true)
            } else {
                r == Err::<bool, Error>(Error::Sync(SyncError::NotConfigured))
            },
            _ => r == Ok::<bool, Error>(true),
        },
{
    match command {
        Command::Unlock | Command::List | Command::Config { .. } => Ok(false),
        Command::Sync { .. } => {
            if sync_configured {
                Ok(true)
            } else {
                Err(Error::Sync(SyncError::NotConfigured))
            }
        },
        _ => Ok(true),
    }
}

/// A command is run as it is given; without one, the `--vault-id` or else the first bare
/// argument is a vault-id to get.
pub proof fn bare_vault_id_is_a_get(cli: Cli, r: Result<Command, Error>)
    requires
        call_ensures(resolve_command, (cli,), r),
    ensures
        cli.command matches Some(command) ==> r == Ok::<Command, Error>(command),
        cli.command is None && cli.vault_id is Some ==> (r matches Ok(Command::Get { vault_id })
            && vault_id@ == cli.vault_id->0@),
        cli.command is None && cli.vault_id is None && cli.positional@.len() > 0 ==> (r matches Ok(
            Command::Get { vault_id },
        ) && vault_id@ == cli.positional@[0]@),
        r is Err <==> cli.command is None && cli.vault_id is None && cli.positional@.len() == 0,
{
}

/// The store is opened for the commands that touch it and for no others.
pub proof fn store_is_opened_where_it_is_touched(
    command: &Command,
    sync_configured: bool,
    r: Result<bool, Error>,
)
    requires
        call_ensures(needs_store, (command, sync_configured), r),
    ensures
        r == Ok::<bool, Error>(false) <==> command is Unlock || command is List
            || command is Config,
        r is Err <==> command is Sync && !sync_configured,
        r matches Err(e) ==> e == Error::Sync(SyncError::NotConfigured),
{
}

// ---------------------------------------------------------------------------
// Backend
// ---------------------------------------------------------------------------
/// The backend a command should use.
#[derive(Debug, Clone, Copy, PartialEq, Eq, Structural)]
pub enum ResolvedBackend {
    /// OS keyring - explicit `Keyring`, or `Auto` that preferred the keyring.
    Keyring,
    /// Encrypted file store, explicitly chosen.
    File,
    /// Encrypted file store chosen by `Auto` because the daemon is up but the
    /// absent default collection cannot be created here. It works, but the user
    /// could upgrade to the keyring backend.
    AutoFileNoGui,
}

/// The `Auto` decision:
/// - keyring preferred (collection ready/locked, or absent + something can create
///   it): [`AutoDecision::Keyring`]
/// - daemon up but collection absent + no bootstrap option:
///   [`AutoDecision::AutoFileNoGui`]
/// - daemon unreachable: [`AutoDecision::NeedsGuidance`] (a hard stop, not a
///   silent file fallback: without the daemon the master passphrase can't be
///   session-cached, so non-interactive calls would fail)
#[derive(Debug, Clone, Copy, PartialEq, Eq, Structural)]
pub enum AutoDecision {
    Keyring,
    AutoFileNoGui,
    NeedsGuidance,
}

/// The `Auto` decision for a probe.
pub open spec fn decision_for(
    status: Option<DefaultCollectionStatus>,
    gui: bool,
    headless_bootstrap: bool,
) -> AutoDecision {
    match status {
        None => AutoDecision::NeedsGuidance,
        Some(DefaultCollectionStatus::Absent) => if gui || headless_bootstrap {
            AutoDecision::Keyring
        } else {
            AutoDecision::AutoFileNoGui
        },
        Some(_) => AutoDecision::Keyring,
    }
}

/// The `Auto` decision for a probe.
#[must_use]
pub fn auto_decide(
    status: Option<DefaultCollectionStatus>,
    gui: bool,
    headless_bootstrap: bool,
) -> (r: AutoDecision)
    ensures
        r == decision_for(status, gui, headless_bootstrap),
{
    if ss::auto_prefers_keyring(status, gui, headless_bootstrap) {
        AutoDecision::Keyring
    } else if status.is_none() {
        AutoDecision::NeedsGuidance
    } else {
        AutoDecision::AutoFileNoGui
    }
}

/// A collection that exists is never left for the file store, locked or not:
/// that would split the data between the two.
pub proof fn existing_collection_means_keyring(
    status: DefaultCollectionStatus,
    gui: bool,
    headless_bootstrap: bool,
)
    requires
        status != DefaultCollectionStatus::Absent,
    ensures
        decision_for(Some(status), gui, headless_bootstrap) == AutoDecision::Keyring,
{
}

/// Without a daemon the file store is never chosen silently.
pub proof fn unreachable_daemon_is_never_silent(gui: bool, headless_bootstrap: bool)
    ensures
        decision_for(None, gui, headless_bootstrap) == AutoDecision::NeedsGuidance,
{
}

/// `Auto` goes by what was found: a collection that exists, or that something here can
/// create, means the keyring; one that is absent with nothing to create it means the
/// file store; a daemon that cannot be asked is an error.
pub proof fn auto_goes_by_what_was_found(
    status: Result<DefaultCollectionStatus, Error>,
    gui: bool,
    headless_bootstrap: bool,
    r: Result<ResolvedBackend, Error>,
)
    requires
        call_ensures(resolve_auto_backend, (status, gui, headless_bootstrap), r),
    ensures
        r is Err <==> status is Err,
        r == Ok::<ResolvedBackend, Error>(ResolvedBackend::AutoFileNoGui) <==> status == Ok::<
            DefaultCollectionStatus,
            Error,
        >(DefaultCollectionStatus::Absent) && !gui && !headless_bootstrap,
        r == Ok::<ResolvedBackend, Error>(ResolvedBackend::Keyring) <==> (status matches Ok(found)
            && (found != DefaultCollectionStatus::Absent || gui || headless_bootstrap)),
{
}

/// The two ways to decide agree: the keyring is preferred exactly where `Auto` decides
/// for it.
pub proof fn preference_and_decision_agree(
    status: Option<DefaultCollectionStatus>,
    gui: bool,
    headless_bootstrap: bool,
    preferred: bool,
    decided: AutoDecision,
)
    requires
        call_ensures(ss::auto_prefers_keyring, (status, gui, headless_bootstrap), preferred),
        call_ensures(auto_decide, (status, gui, headless_bootstrap), decided),
    ensures
        preferred <==> decided == AutoDecision::Keyring,
        decided == AutoDecision::NeedsGuidance <==> status is None,
        decided == AutoDecision::AutoFileNoGui <==> status == Some(DefaultCollectionStatus::Absent)
            && !gui && !headless_bootstrap,
{
}

/// The backend that a configuration settles by itself; `None` for `Auto`, which
/// needs a probe.
pub fn resolve_effective_backend(cfg: &Config) -> (r: Option<ResolvedBackend>)
    ensures
        r == match cfg.storage.backend {
            StorageBackend::Keyring => Some(ResolvedBackend::Keyring),
            StorageBackend::File => Some(ResolvedBackend::File),
            StorageBackend::Auto => None,
        },
{
    match cfg.storage_config().backend {
        StorageBackend::Keyring => Some(ResolvedBackend::Keyring),
        StorageBackend::File => Some(ResolvedBackend::File),
        StorageBackend::Auto => None,
    }
}

/// What a failed probe says of the default collection.
pub open spec fn probed(status: Result<DefaultCollectionStatus, Error>) -> Option<
    DefaultCollectionStatus,
> {
    match status {
        Ok(found) => Some(found),
        Err(_) => None,
    }
}

/// `Auto` resolution against a probe. Daemon-down is an error with guidance, not
/// a silent file fallback.
pub fn resolve_auto_backend(
    status: Result<DefaultCollectionStatus, Error>,
    gui: bool,
    headless_bootstrap: bool,
) -> (r: Result<ResolvedBackend, Error>)
    ensures
        match decision_for(probed(status), gui, headless_bootstrap) {
            AutoDecision::Keyring => r == Ok::<ResolvedBackend, Error>(ResolvedBackend::Keyring),
            AutoDecision::AutoFileNoGui => r == Ok::<ResolvedBackend, Error>(
                ResolvedBackend::AutoFileNoGui,
            ),
            AutoDecision::NeedsGuidance => r matches Err(e) && guides(status->Err_0, e),
        },
{
    match status {
        Ok(found) => match auto_decide(Some(found), gui, headless_bootstrap) {
            AutoDecision::Keyring => Ok(ResolvedBackend::Keyring),
            _ => Ok(ResolvedBackend::AutoFileNoGui),
        },
        Err(e) => Err(daemon_unreachable_error(e)),
    }
}

/// The guidance where the Secret Service daemon is unreachable.
pub const DAEMON_UNREACHABLE: &'static str =
    "Secret Service daemon is unreachable, so the OS keyring can't be used. \
     Without the daemon the master passphrase also can't be session-cached, \
     which means non-interactive (ansible) calls would fail. Either enable \
     the keyring (steps below) or explicitly opt into the file backend by \
     setting [storage] backend = \"file\" in the config (and provide the \
     master passphrase via AVPM_MASTER_PASSPHRASE for automation).";

/// The error with guidance for a failed probe: its message is rewritten, its
/// source kept. A failure of another kind stands as it is.
pub open spec fn guides(failure: Error, e: Error) -> bool {
    match failure {
        Error::Vault(VaultError::KeyringUnavailable { source: cause, .. }) => e matches Error::Vault(
            VaultError::KeyringUnavailable { message, source },
        ) && message@ == DAEMON_UNREACHABLE@ && source == cause,
        other => e == other,
    }
}

/// Build the daemon-unreachable guidance error from the failed probe.
pub fn daemon_unreachable_error(failure: Error) -> (e: Error)
    ensures
        guides(failure, e),
{
    match failure {
        Error::Vault(VaultError::KeyringUnavailable { source, .. }) => Error::Vault(
            VaultError::KeyringUnavailable { message: DAEMON_UNREACHABLE.to_owned(), source },
        ),
        other => other,
    }
}

/// Whether the keyring backend can be used in this call: a **locked** collection
/// in a *non-interactive* call is [`VaultError::KeyringLocked`] rather than a
/// prompt that would block. The lock state never causes a fallback to file.
pub fn keyring_access(
    status: &Result<DefaultCollectionStatus, Error>,
    interactive: bool,
) -> (r: Result<(), Error>)
    ensures
        match r {
            Ok(()) => interactive || probed(*status) != Some(DefaultCollectionStatus::ExistsLocked),
            Err(e) => !interactive && probed(*status) == Some(
                DefaultCollectionStatus::ExistsLocked,
            ) && e == Error::Vault(VaultError::KeyringLocked),
        },
{
    match status {
        Ok(DefaultCollectionStatus::ExistsLocked) => {
            if interactive {
                Ok(())
            } else {
                Err(Error::Vault(VaultError::KeyringLocked))
            }
        },
        _ => Ok(()),
    }
}

/// A script is never blocked on a locked keyring, and nobody else is stopped by one.
pub proof fn only_scripts_are_stopped_by_a_lock(
    status: &Result<DefaultCollectionStatus, Error>,
    interactive: bool,
    r: Result<(), Error>,
)
    requires
        call_ensures(keyring_access, (status, interactive), r),
    ensures
        r is Err <==> !interactive && *status == Ok::<DefaultCollectionStatus, Error>(
            DefaultCollectionStatus::ExistsLocked,
        ),
        r matches Err(e) ==> e == Error::Vault(VaultError::KeyringLocked),
{
}

/// The default index handle.
pub fn index_handle() -> (r: VaultIndex)
    ensures
        exists|base: Option<String>| #[trigger]
            paths::is_user_data_dir(base) && r.path@ == paths::joined(
                paths::app_dir(paths::base_view(base)),
                "index.json"@,
            ),
        r.ids() == Set::<Seq<char>>::empty(),
        r.readable() && !r.changed,
{
    VaultIndex::new(paths::index_path())
}

// ---------------------------------------------------------------------------
// Master passphrase
// ---------------------------------------------------------------------------
/// Environment-variable escape hatch for the file-backend master passphrase, for
/// non-interactive use.
pub const MASTER_PASSPHRASE_ENV: &'static str = "AVPM_MASTER_PASSPHRASE";

/// What is told before a master passphrase is set.
pub const FIRST_RUN_NOTICE: &'static str =
    "This master passphrase encrypts your sync backup end-to-end (and your\n\
     vault file on the file backend). It is separate from your OS keyring\n\
     password, if any. Use the same one on every device you sync.";

/// The master passphrase is "not yet established" iff no local encrypted artifact
/// exists that it would have to decrypt - the file store or the sync snapshot.
/// Before either exists the user is establishing it; afterward they provide the
/// existing one. The keyring backend never has a file store, but has the snapshot
/// after the first sync.
#[must_use]
pub fn first_run_passphrase(store_exists: bool, sync_base_exists: bool) -> (r: bool)
    ensures
        r == (!store_exists && !sync_base_exists),
{
    !store_exists && !sync_base_exists
}

/// How a master passphrase is obtained.
pub enum PassphraseStep {
    /// Here it is.
    Have(String),
    /// Prompt for a new one, twice.
    SetNew,
    /// Prompt for the existing one.
    Enter,
}

/// Where there is neither a passphrase from this process, from the environment
/// nor from the cache: prompt where there is a terminal, else refuse.
pub fn prompt_step(interactive: bool, store_exists: bool, sync_base_exists: bool) -> (r: Result<
    PassphraseStep,
    Error,
>)
    ensures
        if !interactive {
            r == Err::<PassphraseStep, Error>(Error::Vault(VaultError::Locked))
        } else if !store_exists && !sync_base_exists {
            r == Ok::<PassphraseStep, Error>(PassphraseStep::SetNew)
        } else {
            r == Ok::<PassphraseStep, Error>(PassphraseStep::Enter)
        },
{
    if interactive {
        if first_run_passphrase(store_exists, sync_base_exists) {
            Ok(PassphraseStep::SetNew)
        } else {
            Ok(PassphraseStep::Enter)
        }
    } else {
        Err(Error::Vault(VaultError::Locked))
    }
}

/// Obtain a master passphrase, per the unlock contract:
///
/// 0. If one was already acquired interactively in this same process (`memo`),
///    reuse it - at most one prompt per command.
/// 1. If [`MASTER_PASSPHRASE_ENV`] is set (`env`) and non-empty, use it directly.
/// 2. Else if a cached passphrase exists, use it.
/// 3. Else if interactive, prompt: twice where it is being established, once
///    otherwise.
/// 4. Otherwise return `Locked` - never block on stdin.
pub fn require_master_passphrase<C: MasterCache>(
    memo: Option<String>,
    env: Option<String>,
    carrier: &C,
    interactive: bool,
    store_exists: bool,
    sync_base_exists: bool,
) -> (r: Result<PassphraseStep, Error>)
    ensures
        match (memo, env) {
            (Some(passphrase), _) => r == Ok::<PassphraseStep, Error>(
                PassphraseStep::Have(passphrase),
            ),
            (None, Some(passphrase)) if passphrase@.len() > 0 => r == Ok::<PassphraseStep, Error>(
                PassphraseStep::Have(passphrase),
            ),
            _ => exists|read: Result<Option<String>, Error>, cached: Result<Option<String>, Error>|
                #[trigger] call_ensures(C::read, (carrier,), read)
                    && #[trigger] master::read_counts_as(read, cached) && match cached {
                    Err(e) => r == Err::<PassphraseStep, Error>(e),
                    Ok(Some(passphrase)) => r == Ok::<PassphraseStep, Error>(
                        PassphraseStep::Have(passphrase),
                    ),
                    Ok(None) => if !interactive {
                        r == Err::<PassphraseStep, Error>(Error::Vault(VaultError::Locked))
                    } else if !store_exists && !sync_base_exists {
                        r == Ok::<PassphraseStep, Error>(PassphraseStep::SetNew)
                    } else {
                        r == Ok::<PassphraseStep, Error>(PassphraseStep::Enter)
                    },
                },
        },
        memo is None && (env is None || env->0@.len() == 0) ==> {
            &&& r matches Ok(PassphraseStep::Have(found)) ==> carrier.cached() == Some(found@)
            &&& carrier.reachable() ==> match carrier.cached() {
                Some(passphrase) => r matches Ok(PassphraseStep::Have(found)) && found@
                    == passphrase,
                None => !(r matches Ok(PassphraseStep::Have(_))) && (r is Err ==> !interactive),
            }
        },
{
    if let Some(passphrase) = memo {
        return Ok(PassphraseStep::Have(passphrase));
    }
    if let Some(passphrase) = env {
        if !passphrase.as_str().is_empty() {
            return Ok(PassphraseStep::Have(passphrase));
        }
    }
    let cached = master::read_cached(carrier);
    match cached {
        Err(e) => Err(e),
        Ok(Some(passphrase)) => Ok(PassphraseStep::Have(passphrase)),
        Ok(None) => prompt_step(interactive, store_exists, sync_base_exists),
    }
}

/// A passphrase that is at hand is used as it is: the one of this process before that
/// of the environment, and that before the cached one. Nobody is prompted without a
/// terminal, nor where a passphrase is at hand; a new one is only set where nothing is
/// there that an old one would have to open.
pub proof fn nobody_is_prompted_in_vain<C: MasterCache>(
    memo: Option<String>,
    env: Option<String>,
    carrier: &C,
    interactive: bool,
    store_exists: bool,
    sync_base_exists: bool,
    r: Result<PassphraseStep, Error>,
)
    requires
        call_ensures(
            require_master_passphrase::<C>,
            (memo, env, carrier, interactive, store_exists, sync_base_exists),
            r,
        ),
    ensures
        memo matches Some(known) ==> (r matches Ok(PassphraseStep::Have(p)) && p@ == known@),
        memo is None && (env matches Some(given) && given@.len() > 0) ==> (r matches Ok(
            PassphraseStep::Have(p),
        ) && p@ == env->0@),
        memo is None && (env is None || env->0@.len() == 0) ==> (r matches Ok(
            PassphraseStep::Have(p),
        ) ==> carrier.cached() == Some(p@)),
        (r matches Ok(PassphraseStep::SetNew)) || (r matches Ok(PassphraseStep::Enter)) ==> {
            &&& interactive && memo is None
            &&& env is None || env->0@.len() == 0
            &&& carrier.reachable() ==> carrier.cached() is None
        },
        (r matches Ok(PassphraseStep::SetNew)) ==> !store_exists && !sync_base_exists,
        (r matches Ok(PassphraseStep::Enter)) ==> store_exists || sync_base_exists,
{
}

/// The warning where a passphrase could not be cached.
pub fn cache_warning(e: &Error) -> (r: String)
    ensures
        r@ == "warning: could not cache master passphrase ("@ + e.text()
            + "); you may need to re-enter it later"@,
{
    let cause = e.message();
    text::join3(
        "warning: could not cache master passphrase (",
        cause.as_str(),
        "); you may need to re-enter it later",
    )
}

} // verus!
