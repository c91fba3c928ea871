//! `avpm set` - create/overwrite a vault secret.

use vstd::prelude::*;

use crate::error::Error;
use crate::index::VaultIndex;
use crate::password;
use crate::text;
use crate::vault::secret::VaultSecret;
use crate::vault::store::VaultStore;

verus! {

/// The question to ask before a write, where there is something to overwrite.
pub fn overwrite_question<S: VaultStore>(store: &S, vault_id: &str) -> (r: Option<String>)
    ensures
        match r {
            Some(question) => store.contents().contains_key(vault_id@) && question@
                == "Overwrite '"@ + vault_id@ + "'?"@,
            None => (exists|read: Result<VaultSecret, Error>|
                read is Err && #[trigger] call_ensures(S::get, (store, vault_id), read)) && (
            store.reliable() ==> !store.contents().contains_key(vault_id@)),
        },
{
    match store.get(vault_id) {
        Ok(_) => Some(text::join3("Overwrite '", vault_id, "'?")),
        Err(_) => None,
    }
}

/// The generated password, where one is to be generated; `None` where it is to be
/// typed.
pub fn generated(generate: bool, length: Option<usize>, no_symbols: bool) -> (r: Result<
    Option<VaultSecret>,
    Error,
>)
    ensures
        ({
            let n = match length {
                Some(given) => given,
                None => password::DEFAULT_LENGTH,
            };
            match r {
                Ok(Some(secret)) => generate && n > 0 && secret@.len() == n && password::made_of(
                    secret@,
                    password::alphabet(!no_symbols),
                ) && password::randomly_drawn(secret@, !no_symbols),
                Ok(None) => !generate,
                Err(e) => generate && n == 0 && (e matches Error::Other(message) && message@
                    == "password length must be > 0"@),
            }
        }),
{
    if !generate {
        return Ok(None);
    }
    let n: usize = match length {
        Some(given) => given,
        None => password::DEFAULT_LENGTH,
    };
    match password::generate(n, !no_symbols) {
        Ok(secret) => Ok(Some(secret)),
        Err(e) => Err(e),
    }
}

/// A password is generated where that is asked for: as long as asked for, else thirty-two
/// characters, with symbols unless they are unwanted.
pub proof fn generation_follows_the_flags(
    generate: bool,
    length: Option<usize>,
    no_symbols: bool,
    r: Result<Option<VaultSecret>, Error>,
)
    requires
        call_ensures(generated, (generate, length, no_symbols), r),
    ensures
        r == Ok::<Option<VaultSecret>, Error>(None) <==> !generate,
        r is Err <==> generate && length == Some(0usize),
        r matches Ok(Some(secret)) ==> {
            &&& secret@.len() == match length {
                Some(given) => given as nat,
                None => 32,
            }
            &&& password::randomly_drawn(secret@, !no_symbols)
        },
{
}

/// What setting `password` under `id` does, by its outcome.
pub open spec fn set_done<S: VaultStore>(
    store0: S,
    store1: S,
    index0: VaultIndex,
    index1: VaultIndex,
    id: Seq<char>,
    password: Seq<char>,
    r: Result<String, Error>,
) -> bool {
    match r {
        Ok(notice) => {
            &&& store1.contents() == store0.contents().insert(id, password)
            &&& index0.with_id(id, index1)
            &&& notice@ == "set '"@ + id + "'"@
        },
        Err(e) => {
            &&& store0.fails_with(e) || (index0.failure(e) && store1.contents()
                == store0.contents().insert(id, password))
            &&& index1 == index0
            &&& crate::vault::store::kept_elsewhere(store0.contents(), store1.contents(), id)
        },
    }
}

/// What was set is what is got: a read gives the password as it was set, the index lists the
/// vault-id, what is told names it, and every other id is as before, whatever the outcome.
pub proof fn what_was_set_is_got<S: VaultStore>(
    store0: S,
    store1: S,
    index0: VaultIndex,
    index1: VaultIndex,
    id: Seq<char>,
    password: Seq<char>,
    r: Result<String, Error>,
    read: Result<VaultSecret, Error>,
    other: Seq<char>,
)
    requires
        set_done(store0, store1, index0, index1, id, password, r),
        crate::vault::store::get_outcome(store1.contents(), id, read),
        other != id,
    ensures
        r matches Ok(notice) ==> {
            &&& read matches Ok(secret) ==> secret@ == password
            &&& read matches Err(e) ==> !e.is_not_found()
            &&& index1.ids().contains(id)
            &&& text::occurs_in(notice@, id)
        },
        index1.ids().contains(other) == index0.ids().contains(other),
        store1.contents().contains_key(other) == store0.contents().contains_key(other),
        store0.contents().contains_key(other) ==> store1.contents()[other]
            == store0.contents()[other],
{
    text::part_occurs("set '"@, id, "'"@);
    if r is Err {
        crate::vault::store::other_ids_are_untouched(
            store0.contents(),
            store1.contents(),
            id,
            other,
        );
    }
}

/// Store a password and index its vault-id: store first, then index. Returns what
/// to tell the user.
pub fn execute<S: VaultStore>(
    store: &mut S,
    index: &mut VaultIndex,
    vault_id: &str,
    secret: &VaultSecret,
) -> (r: Result<String, Error>)
    ensures
        set_done(
            *old(store),
            *final(store),
            *old(index),
            *final(index),
            vault_id@,
            secret@,
            r,
        ),
        r is Ok ==> final(store).contents().contains_key(vault_id@)
            && final(store).contents()[vault_id@] == secret@ && final(index).ids().contains(
            vault_id@,
        ),
        old(store).reliable() ==> final(store).reliable(),
        old(store).reliable() && old(index).readable() ==> r is Ok,
{
    match store.set(vault_id, secret) {
        Ok(()) => {},
        Err(e) => {
            return Err(e);
        },
    }
    match index.add(vault_id) {
        Ok(()) => {},
        Err(e) => {
            return Err(e);
        },
    }
    Ok(text::join3("set '", vault_id, "'"))
}

} // verus!
