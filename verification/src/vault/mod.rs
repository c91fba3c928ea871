//! Vault secret storage.
//!
//! `VaultStore` is the port (static dispatch); `KeyringStore` addresses the OS
//! keyring; `FileStore` is the encrypted-file fallback used when the keyring is
//! unavailable; `MockStore` keeps everything in memory. Listing lives in the
//! separate index (a keyring has no reliable enumeration).

use vstd::prelude::*;

pub mod error;
pub mod file;
pub mod gkr;
pub mod keyring;
pub mod master;
pub mod mock;
pub mod secret;
pub mod ss;
pub mod store;

pub use error::VaultError;
pub use file::FileStore;
pub use keyring::KeyringStore;
pub use secret::VaultSecret;
pub use store::{AnyStore, VaultStore};

verus! {

/// Build the production `KeyringStore` for the given keyring `service` name.
pub fn store_for_service(service: &str) -> (r: KeyringStore)
    ensures
        r.service@ == service@,
{
    KeyringStore::new(service.to_owned())
}

} // verus!
