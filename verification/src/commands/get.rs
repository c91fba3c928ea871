//! `avpm get` - print a single password to stdout.
//!
//! stdout purity is mandatory: only the password is written.

use vstd::prelude::*;

use crate::error::Error;
use crate::vault::secret::VaultSecret;
use crate::vault::store::VaultStore;

verus! {

/// The password to print. A missing vault-id is "not found".
pub fn execute<S: VaultStore>(store: &S, vault_id: &str) -> (r: Result<VaultSecret, Error>)
    ensures
        crate::vault::store::get_outcome(store.contents(), vault_id@, r),
        call_ensures(S::get, (store, vault_id), r),
{
    store.get(vault_id)
}

} // verus!
