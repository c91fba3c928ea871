//! `MockStore` - an in-memory `VaultStore`.

use vstd::prelude::*;

use crate::error::Error;
use crate::strmap::StringMap;
use crate::text;
use crate::vault::error::VaultError;
use crate::vault::secret::VaultSecret;
use crate::vault::store::VaultStore;

verus! {

/// In-memory store, for tests and dry runs.
pub struct MockStore {
    inner: StringMap<VaultSecret>,
}

/// The passwords of a map of secrets.
pub open spec fn passwords(secrets: Map<Seq<char>, VaultSecret>) -> Map<Seq<char>, Seq<char>> {
    secrets.map_values(|s: VaultSecret| s@)
}

impl MockStore {
    /// An empty store.
    #[must_use]
    pub fn new() -> (r: Self)
        ensures
            r.contents() == Map::<Seq<char>, Seq<char>>::empty(),
    {
        let r = MockStore { inner: StringMap::new() };
        assert(r.contents() =~= Map::<Seq<char>, Seq<char>>::empty());
        r
    }

    /// Insert a secret directly.
    pub fn seed(&mut self, vault_id: &str, secret: &str)
        ensures
            final(self).contents() == old(self).contents().insert(vault_id@, secret@),
    {
        self.inner.insert(vault_id.to_owned(), VaultSecret::new(secret.to_owned()));
        assert(self.contents() =~= old(self).contents().insert(vault_id@, secret@));
    }

    /// Number of stored secrets.
    #[must_use]
    pub fn len(&self) -> (n: usize)
        ensures
            n == self.contents().dom().len(),
    {
        assert(self.contents().dom() =~= self.inner@.dom());
        self.inner.len()
    }

    /// Whether nothing is stored.
    #[must_use]
    pub fn is_empty(&self) -> (r: bool)
        ensures
            r == (self.contents() == Map::<Seq<char>, Seq<char>>::empty()),
    {
        proof {
            if self.inner@ == Map::<Seq<char>, VaultSecret>::empty() {
                assert(self.contents() =~= Map::<Seq<char>, Seq<char>>::empty());
            }
            if self.contents() == Map::<Seq<char>, Seq<char>>::empty() {
                assert(self.inner@.dom() =~= self.contents().dom());
                assert(self.inner@ =~= Map::<Seq<char>, VaultSecret>::empty());
            }
        }
        self.inner.is_empty()
    }

    /// All stored vault-ids, in ascending order.
    #[must_use]
    pub fn vault_ids(&self) -> (r: Vec<String>)
        ensures
            text::strictly_sorted(text::views(r@)),
            forall|k: Seq<char>|
                text::views(r@).contains(k) <==> self.contents().contains_key(k),
    {
        self.inner.keys()
    }
}

impl VaultStore for MockStore {
    closed spec fn contents(&self) -> Map<Seq<char>, Seq<char>> {
        passwords(self.inner@)
    }

    /// The map is all there is.
    open spec fn reliable(&self) -> bool {
        true
    }

    open spec fn fails_with(&self, e: Error) -> bool {
        false
    }

    fn get(&self, vault_id: &str) -> (r: Result<VaultSecret, Error>) {
        match self.inner.get(vault_id) {
            Some(secret) => Ok(secret.clone()),
            None => Err(Error::Vault(VaultError::NotFound(vault_id.to_owned()))),
        }
    }

    fn set(&mut self, vault_id: &str, secret: &VaultSecret) -> (r: Result<(), Error>) {
        self.inner.insert(vault_id.to_owned(), secret.clone());
        assert(self.contents() =~= old(self).contents().insert(vault_id@, secret@));
        assert(old(self).contents().remove(vault_id@) =~= self.contents().remove(vault_id@));
        Ok(())
    }

    fn delete(&mut self, vault_id: &str) -> (r: Result<(), Error>) {
        if self.inner.remove(vault_id) {
            assert(self.contents() =~= old(self).contents().remove(vault_id@));
            assert(old(self).contents().remove(vault_id@) =~= self.contents().remove(vault_id@));
            Ok(())
        } else {
            assert(self.contents() =~= old(self).contents());
            Err(Error::Vault(VaultError::NotFound(vault_id.to_owned())))
        }
    }
}

impl Default for MockStore {
    fn default() -> (r: Self)
        ensures
            r.contents() == Map::<Seq<char>, Seq<char>>::empty(),
    {
        MockStore::new()
    }
}

} // verus!
