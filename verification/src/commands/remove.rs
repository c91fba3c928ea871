//! `avpm rm` - remove one or more vault-ids.

use vstd::prelude::*;

use crate::error::Error;
use crate::index::VaultIndex;
use crate::text;
use crate::vault::store::VaultStore;

verus! {

/// Refuses an empty list of vault-ids.
pub fn check_ids(vault_ids: &Vec<String>) -> (r: Result<(), Error>)
    ensures
        match r {
            Ok(()) => vault_ids@.len() > 0,
            Err(e) => vault_ids@.len() == 0 && (e matches Error::Other(message) && message@
                == "rm requires at least one vault-id"@),
        },
{
    if vault_ids.len() == 0 {
        return Err(Error::Other("rm requires at least one vault-id".to_owned()));
    }
    Ok(())
}

/// The question to ask before a removal; `None` where it is forced.
pub fn question(vault_id: &str, force: bool) -> (r: Option<String>)
    ensures
        match r {
            Some(text) => !force && text@ == "Delete '"@ + vault_id@ + "'?"@,
            None => force,
        },
{
    if force {
        None
    } else {
        Some(text::join3("Delete '", vault_id, "'?"))
    }
}

/// What is told of a removal that was declined.
pub fn skipped(vault_id: &str) -> (r: String)
    ensures
        r@ == "skipped '"@ + vault_id@ + "'"@,
{
    text::join3("skipped '", vault_id, "'")
}

/// What removing `id` does, by its outcome.
pub open spec fn removed<S: VaultStore>(
    store0: S,
    store1: S,
    index0: VaultIndex,
    index1: VaultIndex,
    id: Seq<char>,
    r: Result<String, Error>,
) -> bool {
    match r {
        Ok(notice) => {
            &&& store1.contents() == store0.contents().remove(id)
            &&& index0.without_id(id, index1)
            &&& notice@ == if store0.contents().contains_key(id) {
                "removed '"@ + id + "'"@
            } else {
                "warning: '"@ + id + "' not found, skipping"@
            }
        },
        Err(e) => {
            &&& index1 == index0
            &&& !e.is_not_found()
            &&& store0.fails_with(e) || (index0.failure(e) && store1.contents()
                == store0.contents().remove(id))
        },
    }
}

/// What was removed is gone: no read gives a password, the index does not list the
/// vault-id, what is told names it and says whether it was there, and every other id is as
/// before.
pub proof fn what_was_removed_is_gone<S: VaultStore>(
    store0: S,
    store1: S,
    index0: VaultIndex,
    index1: VaultIndex,
    id: Seq<char>,
    notice: String,
    read: Result<crate::vault::secret::VaultSecret, Error>,
    other: Seq<char>,
)
    requires
        removed(store0, store1, index0, index1, id, Ok(notice)),
        crate::vault::store::get_outcome(store1.contents(), id, read),
        other != id,
    ensures
        read is Err,
        !index1.ids().contains(id),
        index1.ids().contains(other) == index0.ids().contains(other),
        store1.contents().contains_key(other) == store0.contents().contains_key(other),
        store0.contents().contains_key(other) ==> store1.contents()[other]
            == store0.contents()[other],
        text::occurs_in(notice@, id),
        text::starts(notice@, "removed"@) <==> store0.contents().contains_key(id),
{
    text::part_occurs("removed '"@, id, "'"@);
    text::part_occurs("warning: '"@, id, "' not found, skipping"@);
    reveal_strlit("removed");
    reveal_strlit("removed '");
    reveal_strlit("warning: '");
    if store0.contents().contains_key(id) {
        assert(notice@.subrange(0, 7) =~= "removed"@);
    } else if text::starts(notice@, "removed"@) {
        assert(notice@.subrange(0, 7)[0] == "removed"@[0]);
    }
}

/// Remove a vault-id from the store and the index. One that the store does not
/// have is dropped from the index too, so that the listing stays consistent with
/// the store. Returns what to tell the user.
pub fn execute<S: VaultStore>(store: &mut S, index: &mut VaultIndex, vault_id: &str) -> (r: Result<
    String,
    Error,
>)
    ensures
        crate::vault::store::kept_elsewhere(
            old(store).contents(),
            final(store).contents(),
            vault_id@,
        ),
        removed(*old(store), *final(store), *old(index), *final(index), vault_id@, r),
        r is Ok ==> !final(store).contents().contains_key(vault_id@) && !final(index).ids().contains(
            vault_id@,
        ),
        old(store).reliable() ==> final(store).reliable(),
        old(store).reliable() && old(index).readable() ==> r is Ok,
{
    let deleted = store.delete(vault_id);
    let notice = match deleted {
        Ok(()) => text::join3("removed '", vault_id, "'"),
        Err(e) => {
            if e.not_found() {
                assert(store.contents() =~= old(store).contents().remove(vault_id@));
                text::join3("warning: '", vault_id, "' not found, skipping")
            } else {
                return Err(e);
            }
        },
    };
    match index.remove(vault_id) {
        Ok(()) => Ok(notice),
        Err(e) => Err(e),
    }
}

} // verus!
