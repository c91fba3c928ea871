//! `avpm rename` - rename a vault-id.

use vstd::prelude::*;

use crate::error::Error;
use crate::index::VaultIndex;
use crate::text;
use crate::vault::secret::VaultSecret;
use crate::vault::store::VaultStore;

verus! {

/// The password of the vault-id to rename, which must exist.
pub fn source<S: VaultStore>(store: &S, from: &str) -> (r: Result<VaultSecret, Error>)
    ensures
        crate::vault::store::get_outcome(store.contents(), from@, r),
        call_ensures(S::get, (store, from), r),
        store.reliable() ==> (r is Ok <==> store.contents().contains_key(from@)),
{
    store.get(from)
}

/// The question to ask before a rename, where there is something to overwrite.
pub fn overwrite_question<S: VaultStore>(store: &S, to: &str) -> (r: Option<String>)
    ensures
        match r {
            Some(question) => store.contents().contains_key(to@) && question@
                == "Destination '"@ + to@ + "' exists. Overwrite?"@,
            None => (exists|read: Result<VaultSecret, Error>|
                read is Err && #[trigger] call_ensures(S::get, (store, to), read)) && (
            store.reliable() ==> !store.contents().contains_key(to@)),
        },
{
    match store.get(to) {
        Ok(_) => Some(text::join3("Destination '", to, "' exists. Overwrite?")),
        Err(_) => None,
    }
}

/// The states in which a rename may fail, one per step: the password is written
/// under the new id, the new id indexed, the old id deleted. Each step that
/// succeeded stays; `mid` is the store before the deletion. Dropping the old id
/// from the index comes last, and cannot fail on an index that took the new one.
pub open spec fn renamed_as_far_as<S: VaultStore>(
    store0: S,
    mid: S,
    store1: S,
    index0: VaultIndex,
    index1: VaultIndex,
    from: Seq<char>,
    to: Seq<char>,
    password: Seq<char>,
    e: Error,
) -> bool {
    let written = store0.contents().insert(to, password);
    // The write under the new id.
    ||| {
        &&& store0.fails_with(e)
        &&& crate::vault::store::kept_elsewhere(store0.contents(), store1.contents(), to)
        &&& index1 == index0
    }
    // The indexing of the new id.
    ||| index0.failure(e) && store1.contents() == written && index1 == index0
    // The deletion of the old id.
    ||| {
        &&& mid.contents() == written
        &&& mid.fails_with(e) || (e.is_not_found() && !written.contains_key(from))
        &&& crate::vault::store::kept_elsewhere(written, store1.contents(), from)
        &&& index0.with_id(to, index1)
    }
}

/// A rename that fails on its way loses no password: it is still stored under the old
/// id, or already under the new one, and every third id is as before.
pub proof fn failed_rename_loses_nothing<S: VaultStore>(
    store0: S,
    mid: S,
    store1: S,
    index0: VaultIndex,
    index1: VaultIndex,
    from: Seq<char>,
    to: Seq<char>,
    password: Seq<char>,
    e: Error,
    other: Seq<char>,
)
    requires
        renamed_as_far_as(store0, mid, store1, index0, index1, from, to, password, e),
        store0.contents().contains_key(from),
        store0.contents()[from] == password,
        from != to,
        other != from,
        other != to,
    ensures
        (store1.contents().contains_key(from) && store1.contents()[from] == password) || (
        store1.contents().contains_key(to) && store1.contents()[to] == password),
        store1.contents().contains_key(other) == store0.contents().contains_key(other),
        store0.contents().contains_key(other) ==> store1.contents()[other]
            == store0.contents()[other],
{
    let written = store0.contents().insert(to, password);
    if crate::vault::store::kept_elsewhere(store0.contents(), store1.contents(), to) {
        crate::vault::store::other_ids_are_untouched(
            store0.contents(),
            store1.contents(),
            to,
            from,
        );
        crate::vault::store::other_ids_are_untouched(
            store0.contents(),
            store1.contents(),
            to,
            other,
        );
    }
    if crate::vault::store::kept_elsewhere(written, store1.contents(), from) {
        crate::vault::store::other_ids_are_untouched(written, store1.contents(), from, to);
        crate::vault::store::other_ids_are_untouched(written, store1.contents(), from, other);
    }
}

/// A rename that went well.
pub open spec fn renamed<S: VaultStore>(
    store0: S,
    store1: S,
    index0: VaultIndex,
    index1: VaultIndex,
    from: Seq<char>,
    to: Seq<char>,
    password: Seq<char>,
    notice: Seq<char>,
) -> bool {
    &&& store1.contents() == store0.contents().insert(to, password).remove(from)
    &&& store0.contents().contains_key(from) || from == to
    &&& index0.with_moved(from, to, index1)
    &&& notice == "renamed '"@ + from + "' -> '"@ + to + "'"@
}

/// A rename moves the password: where the new id differs from the old one, a read of it gives
/// the password, the old id is gone from the store and the index, the new one is indexed,
/// and every third id is as before. What is told names both.
pub proof fn renamed_password_is_got_under_the_new_id<S: VaultStore>(
    store0: S,
    store1: S,
    index0: VaultIndex,
    index1: VaultIndex,
    from: Seq<char>,
    to: Seq<char>,
    password: Seq<char>,
    notice: Seq<char>,
    read: Result<VaultSecret, Error>,
    stale: Result<VaultSecret, Error>,
    other: Seq<char>,
)
    requires
        renamed(store0, store1, index0, index1, from, to, password, notice),
        from != to,
        crate::vault::store::get_outcome(store1.contents(), to, read),
        crate::vault::store::get_outcome(store1.contents(), from, stale),
        other != from,
        other != to,
    ensures
        read matches Ok(secret) ==> secret@ == password,
        read matches Err(e) ==> !e.is_not_found(),
        stale is Err,
        index1.ids().contains(to) && !index1.ids().contains(from),
        index1.ids().contains(other) == index0.ids().contains(other),
        store1.contents().contains_key(other) == store0.contents().contains_key(other),
        store0.contents().contains_key(other) ==> store1.contents()[other]
            == store0.contents()[other],
        text::occurs_in(notice, from) && text::occurs_in(notice, to),
{
    let tail = "' -> '"@ + to + "'"@;
    assert(notice =~= "renamed '"@ + from + tail);
    text::part_occurs("renamed '"@, from, tail);
    text::part_occurs("renamed '"@ + from + "' -> '"@, to, "'"@);
}

/// Move a password from one vault-id to another: store, then index, first for the
/// new id, then for the old one. Returns what to tell the user.
pub fn execute<S: VaultStore>(
    store: &mut S,
    index: &mut VaultIndex,
    from: &str,
    to: &str,
    secret: &VaultSecret,
) -> (r: Result<String, Error>)
    ensures
        match r {
            Ok(notice) => {
                &&& renamed(
                    *old(store),
                    *final(store),
                    *old(index),
                    *final(index),
                    from@,
                    to@,
                    secret@,
                    notice@,
                )
                &&& from@ != to@ ==> {
                    &&& final(store).contents().contains_key(to@)
                    &&& final(store).contents()[to@] == secret@
                    &&& final(index).ids().contains(to@)
                }
                &&& !final(store).contents().contains_key(from@)
                &&& !final(index).ids().contains(from@)
            },
            Err(e) => exists|mid: S| #[trigger]
                renamed_as_far_as(
                    *old(store),
                    mid,
                    *final(store),
                    *old(index),
                    *final(index),
                    from@,
                    to@,
                    secret@,
                    e,
                ),
        },
        old(store).reliable() ==> final(store).reliable(),
        old(store).reliable() && old(index).readable() && old(store).contents().contains_key(from@)
            ==> r is Ok,
{
    match store.set(to, secret) {
        Ok(()) => {},
        Err(e) => {
            assert(renamed_as_far_as(
                *old(store),
                *store,
                *store,
                *old(index),
                *index,
                from@,
                to@,
                secret@,
                e,
            ));
            return Err(e);
        },
    }
    let ghost mid = *store;
    match index.add(to) {
        Ok(()) => {},
        Err(e) => {
            assert(renamed_as_far_as(
                *old(store),
                mid,
                *store,
                *old(index),
                *index,
                from@,
                to@,
                secret@,
                e,
            ));
            return Err(e);
        },
    }
    match store.delete(from) {
        Ok(()) => {},
        Err(e) => {
            assert(renamed_as_far_as(
                *old(store),
                mid,
                *store,
                *old(index),
                *index,
                from@,
                to@,
                secret@,
                e,
            ));
            return Err(e);
        },
    }
    match index.remove(from) {
        Ok(()) => {},
        Err(e) => {
            return Err(e);
        },
    }
    Ok(text::join5("renamed '", from, "' -> '", to, "'"))
}

} // verus!
