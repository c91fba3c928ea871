//! `KeyringStore` - the store backed by the OS keyring.
//!
//! An entry of the keyring is addressed by the service name of the store and
//! the vault-id as its user name.

use vstd::prelude::*;

use crate::error::Error;
use crate::vault::error::VaultError;

verus! {

/// Addresses the entries of the OS keyring under a service name.
#[derive(Debug)]
pub struct KeyringStore {
    pub service: String,
}

impl KeyringStore {
    /// Create a store that targets keyring entries under `service`.
    #[must_use]
    pub fn new(service: String) -> (r: Self)
        ensures
            r.service == service,
    {
        KeyringStore { service }
    }

    /// The keyring service name this store targets.
    #[must_use]
    pub fn service(&self) -> (r: &str)
        ensures
            r@ == self.service@,
    {
        self.service.as_str()
    }
}

/// How a keyring operation failed, with the description of the failure.
#[derive(Debug)]
pub enum KeyringFailure {
    /// There is no such entry.
    NoEntry,
    /// The storage could not be accessed.
    NoStorageAccess(String),
    /// The platform's storage failed.
    PlatformFailure(String),
    /// Anything else.
    Other(String),
}

/// The error that a failure on `vault_id` maps to.
pub open spec fn keyring_error(vault_id: Seq<char>, failure: KeyringFailure, e: Error) -> bool {
    match failure {
        KeyringFailure::NoEntry => e matches Error::Vault(VaultError::NotFound(id)) && id@
            == vault_id,
        KeyringFailure::NoStorageAccess(cause) | KeyringFailure::PlatformFailure(cause) =>
            e matches Error::Vault(VaultError::KeyringUnavailable { message, source }) && message@
                == cause@ && source@ == cause@,
        KeyringFailure::Other(cause) => e matches Error::Vault(VaultError::KeyringFailed(message))
            && message@ == cause@,
    }
}

/// Map a failure of the keyring on `vault_id` onto an [`Error`]: an absent entry
/// is "not found", a storage that cannot be reached is "unavailable".
pub fn map_keyring_error(vault_id: &str, failure: KeyringFailure) -> (e: Error)
    ensures
        keyring_error(vault_id@, failure, e),
{
    match failure {
        KeyringFailure::NoEntry => Error::Vault(VaultError::NotFound(vault_id.to_owned())),
        KeyringFailure::NoStorageAccess(cause) => Error::Vault(
            VaultError::KeyringUnavailable { message: cause.clone(), source: cause },
        ),
        KeyringFailure::PlatformFailure(cause) => Error::Vault(
            VaultError::KeyringUnavailable { message: cause.clone(), source: cause },
        ),
        KeyringFailure::Other(cause) => Error::Vault(VaultError::KeyringFailed(cause)),
    }
}

/// An absent entry is "not found" under its own vault-id; a storage that cannot be
/// reached is "unavailable", and anything else a failed operation, each with the
/// description that the keyring gave.
pub proof fn keyring_failures_keep_their_cause(
    vault_id: &str,
    failure: KeyringFailure,
    e: Error,
)
    requires
        call_ensures(map_keyring_error, (vault_id, failure), e),
    ensures
        failure is NoEntry <==> (e matches Error::Vault(VaultError::NotFound(id))),
        e matches Error::Vault(VaultError::NotFound(id)) ==> id@ == vault_id@,
        failure matches KeyringFailure::NoStorageAccess(cause) ==> (e matches Error::Vault(
            VaultError::KeyringUnavailable { message, source },
        ) && message@ == cause@ && source@ == cause@),
        failure matches KeyringFailure::PlatformFailure(cause) ==> (e matches Error::Vault(
            VaultError::KeyringUnavailable { message, source },
        ) && message@ == cause@ && source@ == cause@),
        failure matches KeyringFailure::Other(cause) ==> (e matches Error::Vault(
            VaultError::KeyringFailed(message),
        ) && message@ == cause@),
{
}

/// Only an absent entry is reported as "not found".
pub proof fn only_absence_is_not_found(vault_id: Seq<char>, failure: KeyringFailure, e: Error)
    requires
        keyring_error(vault_id, failure, e),
    ensures
        e.is_not_found() <==> failure is NoEntry,
{
}

} // verus!
