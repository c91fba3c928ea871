//! The `VaultStore` port.

use vstd::prelude::*;

use crate::error::Error;
use crate::vault::error::VaultError;
use crate::vault::file::FileStore;
use crate::vault::keyring::KeyringStore;
use crate::vault::secret::VaultSecret;

verus! {

/// The error for an absent vault-id names that vault-id.
pub open spec fn names_absent(e: Error, vault_id: Seq<char>) -> bool {
    e matches Error::Vault(VaultError::NotFound(id)) ==> id@ == vault_id
}

/// What a store with these contents may answer to a read of `vault_id`: the
/// stored password, "not found" only for an absent id, or another failure.
pub open spec fn get_outcome(
    contents: Map<Seq<char>, Seq<char>>,
    vault_id: Seq<char>,
    r: Result<VaultSecret, Error>,
) -> bool {
    match r {
        Ok(secret) => contents.contains_key(vault_id) && secret@ == contents[vault_id],
        Err(e) => names_absent(e, vault_id) && (e.is_not_found() ==> !contents.contains_key(
            vault_id,
        )),
    }
}

/// Every entry but that of `vault_id` is the same before and after.
pub open spec fn kept_elsewhere(
    before: Map<Seq<char>, Seq<char>>,
    after: Map<Seq<char>, Seq<char>>,
    vault_id: Seq<char>,
) -> bool {
    before.remove(vault_id) == after.remove(vault_id)
}

/// What a write of `password` under `vault_id` may do: on success the entry is
/// created or overwritten; whatever happens, no other entry changes.
pub open spec fn set_outcome(
    before: Map<Seq<char>, Seq<char>>,
    after: Map<Seq<char>, Seq<char>>,
    vault_id: Seq<char>,
    password: Seq<char>,
    r: Result<(), Error>,
) -> bool {
    &&& kept_elsewhere(before, after, vault_id)
    &&& r is Ok ==> after == before.insert(vault_id, password)
}

/// What a deletion of `vault_id` may do: on success the entry was there and is
/// gone; "not found" comes only for an absent id; no other entry changes.
pub open spec fn delete_outcome(
    before: Map<Seq<char>, Seq<char>>,
    after: Map<Seq<char>, Seq<char>>,
    vault_id: Seq<char>,
    r: Result<(), Error>,
) -> bool {
    &&& kept_elsewhere(before, after, vault_id)
    &&& match r {
        Ok(()) => before.contains_key(vault_id) && after == before.remove(vault_id),
        Err(e) => names_absent(e, vault_id) && (e.is_not_found() ==> !before.contains_key(
            vault_id,
        ) && after == before),
    }
}

/// Port for single-vault create, read, update and delete against a store.
/// Listing is not part of it: see the vault index.
pub trait VaultStore {
    /// The passwords by vault-id. An implementation says what it holds. The body
    /// here, some function of the store of which nothing is known, lets an
    /// implementation that Verus does not read leave it out.
    closed spec fn contents(&self) -> Map<Seq<char>, Seq<char>> {
        let held: spec_fn(&Self) -> Map<Seq<char>, Seq<char>> = arbitrary();
        held(self)
    }

    /// Nothing outside can make an operation fail: every one succeeds, but for a
    /// "not found" where the id is absent.
    closed spec fn reliable(&self) -> bool {
        false
    }

    /// An operation on the store as it is now may fail with `e`.
    closed spec fn fails_with(&self, e: Error) -> bool {
        true
    }

    /// Fetch the password for `vault_id`. `NotFound` if absent.
    fn get(&self, vault_id: &str) -> (r: Result<VaultSecret, Error>)
        ensures
            get_outcome(self.contents(), vault_id@, r),
            r matches Err(e) ==> e.is_not_found() || self.fails_with(e),
            self.reliable() ==> (r is Ok <==> self.contents().contains_key(vault_id@)) && (
            r matches Err(e) ==> e.is_not_found()),
    ;

    /// Store (creating or overwriting) the password for `vault_id`.
    fn set(&mut self, vault_id: &str, secret: &VaultSecret) -> (r: Result<(), Error>)
        ensures
            set_outcome(old(self).contents(), final(self).contents(), vault_id@, secret@, r),
            r matches Err(e) ==> old(self).fails_with(e),
            old(self).reliable() ==> r is Ok && final(self).reliable(),
    ;

    /// Delete the password for `vault_id`. `NotFound` if absent.
    fn delete(&mut self, vault_id: &str) -> (r: Result<(), Error>)
        ensures
            delete_outcome(old(self).contents(), final(self).contents(), vault_id@, r),
            r matches Err(e) ==> e.is_not_found() || old(self).fails_with(e),
            old(self).reliable() ==> (r is Ok <==> old(self).contents().contains_key(vault_id@))
                && (r matches Err(e) ==> e.is_not_found()) && final(self).reliable(),
    ;
}

/// Runtime-selected store backend, chosen from config.
pub enum AnyStore {
    /// OS keyring (macOS Keychain / Linux Secret Service).
    Keyring(KeyringStore),
    /// Encrypted file fallback.
    File(FileStore),
}

// ---------------------------------------------------------------------------
// Laws of every store
// ---------------------------------------------------------------------------
/// A read after a successful write gives back the password that was written:
/// it never says "not found", and what it returns is that password.
pub proof fn read_returns_what_was_written(
    before: Map<Seq<char>, Seq<char>>,
    after: Map<Seq<char>, Seq<char>>,
    vault_id: Seq<char>,
    password: Seq<char>,
    written: Result<(), Error>,
    read: Result<VaultSecret, Error>,
)
    requires
        written is Ok,
        set_outcome(before, after, vault_id, password, written),
        get_outcome(after, vault_id, read),
    ensures
        match read {
            Ok(secret) => secret@ == password,
            Err(e) => !e.is_not_found(),
        },
{
}

/// A write overwrites: of two successful writes under one id the second alone
/// is left.
pub proof fn second_write_wins(
    before: Map<Seq<char>, Seq<char>>,
    between: Map<Seq<char>, Seq<char>>,
    after: Map<Seq<char>, Seq<char>>,
    vault_id: Seq<char>,
    first: Seq<char>,
    second: Seq<char>,
    written: Result<(), Error>,
)
    requires
        written is Ok,
        set_outcome(before, between, vault_id, first, written),
        set_outcome(between, after, vault_id, second, written),
    ensures
        after == before.insert(vault_id, second),
{
    assert(after =~= before.insert(vault_id, second));
}

/// After a successful deletion a read never returns a password, and a second
/// deletion does not succeed.
pub proof fn deletion_is_final(
    before: Map<Seq<char>, Seq<char>>,
    after: Map<Seq<char>, Seq<char>>,
    last: Map<Seq<char>, Seq<char>>,
    vault_id: Seq<char>,
    deleted: Result<(), Error>,
    again: Result<(), Error>,
    read: Result<VaultSecret, Error>,
)
    requires
        deleted is Ok,
        delete_outcome(before, after, vault_id, deleted),
        delete_outcome(after, last, vault_id, again),
        get_outcome(after, vault_id, read),
    ensures
        read is Err,
        again is Err,
{
}

/// A read tells what is stored: what it returns is the stored password, it says "not
/// found" of an absent id alone, and names that id.
pub proof fn read_tells_what_is_stored(
    contents: Map<Seq<char>, Seq<char>>,
    vault_id: Seq<char>,
    read: Result<VaultSecret, Error>,
)
    requires
        get_outcome(contents, vault_id, read),
    ensures
        read matches Ok(secret) ==> contents.contains_key(vault_id) && secret@
            == contents[vault_id],
        !contents.contains_key(vault_id) ==> read is Err,
        read matches Err(Error::Vault(VaultError::NotFound(id))) ==> id@ == vault_id
            && !contents.contains_key(vault_id),
{
}

/// A write creates or overwrites the entry of its id, and a deletion takes it away;
/// neither touches any other, and one that fails touches none but that entry.
pub proof fn writes_and_deletions_touch_one_entry(
    before: Map<Seq<char>, Seq<char>>,
    written: Map<Seq<char>, Seq<char>>,
    deleted: Map<Seq<char>, Seq<char>>,
    vault_id: Seq<char>,
    password: Seq<char>,
    set: Result<(), Error>,
    gone: Result<(), Error>,
    k: Seq<char>,
)
    requires
        set_outcome(before, written, vault_id, password, set),
        delete_outcome(before, deleted, vault_id, gone),
    ensures
        k != vault_id ==> {
            &&& written.contains_key(k) == before.contains_key(k)
            &&& deleted.contains_key(k) == before.contains_key(k)
            &&& before.contains_key(k) ==> written[k] == before[k] && deleted[k] == before[k]
        },
        set is Ok ==> written.contains_key(vault_id) && written[vault_id] == password,
        gone is Ok ==> before.contains_key(vault_id) && !deleted.contains_key(vault_id),
        gone matches Err(Error::Vault(VaultError::NotFound(id))) ==> id@ == vault_id
            && !before.contains_key(vault_id) && deleted == before,
{
    if k != vault_id {
        other_ids_are_untouched(before, written, vault_id, k);
        other_ids_are_untouched(before, deleted, vault_id, k);
    }
}

/// Operations on one id leave what is stored under another as it was.
pub proof fn other_ids_are_untouched(
    before: Map<Seq<char>, Seq<char>>,
    after: Map<Seq<char>, Seq<char>>,
    vault_id: Seq<char>,
    other: Seq<char>,
)
    requires
        kept_elsewhere(before, after, vault_id),
        other != vault_id,
    ensures
        before.contains_key(other) == after.contains_key(other),
        before.contains_key(other) ==> before[other] == after[other],
{
    assert(before.remove(vault_id).contains_key(other) == after.remove(vault_id).contains_key(
        other,
    ));
    if before.contains_key(other) {
        assert(before.remove(vault_id)[other] == after.remove(vault_id)[other]);
    }
}

} // verus!
