//! Master-passphrase cache for the file store.
//!
//! The file store encrypts its file with a master passphrase. To keep
//! non-interactive calls working (they cannot prompt), `avpm unlock` caches the
//! passphrase so subsequent processes can read it back without prompting.
//!
//! All operations are best-effort: if the cache is unavailable, `read_cached`
//! returns `Ok(None)` (no cache) rather than an error, since a missing cache is
//! a recoverable state (prompt the user) but a hard error would block the
//! command entirely.

use vstd::prelude::*;

use crate::error::Error;
use crate::text;
use crate::vault::error::VaultError;
use crate::vault::file::utf8_text;
use crate::vault::secret::VaultSecret;
use crate::vault::store::VaultStore;

verus! {

/// Service name under which the master passphrase is cached.
pub const MASTER_SERVICE: &'static str = "avpm-master";

/// Username (entry label) for the cached master passphrase.
pub const MASTER_USERNAME: &'static str = "master";

/// Well-known path of the session collection.
pub const SESSION_PATH: &'static str = "/org/freedesktop/secrets/collection/session";

/// The text in an optional string.
pub open spec fn text_of(s: Option<String>) -> Option<Seq<char>> {
    match s {
        Some(s) => Some(s@),
        None => None,
    }
}

/// What a cache that holds `cached` may answer to a read: exactly that where it
/// is reachable. Elsewhere it may have lost it, but gives no other passphrase.
pub open spec fn read_outcome(
    reachable: bool,
    cached: Option<Seq<char>>,
    r: Result<Option<String>, Error>,
) -> bool {
    &&& r matches Ok(Some(passphrase)) ==> cached == Some(passphrase@)
    &&& reachable ==> (r matches Ok(found) && text_of(found) == cached)
}

/// What caching `passphrase` may do: on success, which a reachable cache owes,
/// the cache holds it, in place of what it held before.
pub open spec fn cache_outcome(
    reachable: bool,
    after: Option<Seq<char>>,
    passphrase: Seq<char>,
    r: Result<(), Error>,
) -> bool {
    &&& r is Ok ==> after == Some(passphrase)
    &&& reachable ==> r is Ok
}

/// What clearing may do: on success, which a reachable cache owes whether or not
/// it holds anything, the cache is empty.
pub open spec fn clear_outcome(
    reachable: bool,
    after: Option<Seq<char>>,
    r: Result<(), Error>,
) -> bool {
    &&& r is Ok ==> after is None
    &&& reachable ==> r is Ok
}

/// Port for the master-passphrase cache carrier.
///
/// The carrier decides *where* the cache lives - the Secret Service session
/// collection on Secret Service platforms, the OS keyring default collection
/// elsewhere.
pub trait MasterCache {
    /// The cached passphrase. An implementation says what it holds. The body
    /// here, some function of the cache of which nothing is known, lets an
    /// implementation that Verus does not read leave it out.
    closed spec fn cached(&self) -> Option<Seq<char>> {
        let held: spec_fn(&Self) -> Option<Seq<char>> = arbitrary();
        held(self)
    }

    /// Nothing outside can make an operation fail or the cache forget.
    closed spec fn reachable(&self) -> bool {
        false
    }

    /// An operation on the cache as it is now may fail with `e`.
    closed spec fn fails_with(&self, e: Error) -> bool {
        true
    }

    /// Read the cached passphrase, if any.
    fn read(&self) -> (r: Result<Option<String>, Error>)
        ensures
            read_outcome(self.reachable(), self.cached(), r),
            r matches Err(e) ==> self.fails_with(e),
    ;

    /// Cache `passphrase`.
    fn cache(&mut self, passphrase: &str) -> (r: Result<(), Error>)
        ensures
            cache_outcome(old(self).reachable(), final(self).cached(), passphrase@, r),
            r matches Err(e) ==> old(self).fails_with(e),
            old(self).reachable() ==> final(self).reachable(),
    ;

    /// Remove any cached passphrase.
    fn clear(&mut self) -> (r: Result<(), Error>)
        ensures
            clear_outcome(old(self).reachable(), final(self).cached(), r),
            r matches Err(e) ==> old(self).fails_with(e),
            old(self).reachable() ==> final(self).reachable(),
    ;
}

/// What the outcome of a read counts as: an unavailable cache is a miss, every
/// other outcome stands.
pub open spec fn read_counts_as(
    read: Result<Option<String>, Error>,
    r: Result<Option<String>, Error>,
) -> bool {
    if read matches Err(Error::Vault(VaultError::SessionCache(_))) {
        r == Ok::<Option<String>, Error>(None)
    } else {
        r == read
    }
}

/// What the outcome of a read counts as.
pub fn settle_read(read: Result<Option<String>, Error>) -> (r: Result<Option<String>, Error>)
    ensures
        read_counts_as(read, r),
{
    match read {
        Err(Error::Vault(VaultError::SessionCache(_))) => Ok(None),
        other => other,
    }
}

/// Read the cached master passphrase from a carrier. The cache is an
/// optimization, not a hard dependency: unavailability is a cache miss, not an
/// error.
pub fn read_cached_with<C: MasterCache>(carrier: &C) -> (r: Result<Option<String>, Error>)
    ensures
        read_outcome(carrier.reachable(), carrier.cached(), r),
        r matches Err(e) ==> carrier.fails_with(e),
        exists|read: Result<Option<String>, Error>| #[trigger]
            call_ensures(C::read, (carrier,), read) && read_counts_as(read, r),
{
    settle_read(carrier.read())
}

/// Read the cached master passphrase, if any.
///
/// Returns `Ok(None)` when there is no cached passphrase (first run, cache
/// evicted, or cache unavailable). Returns `Ok(Some)` only on a confirmed cache
/// hit.
pub fn read_cached<C: MasterCache>(carrier: &C) -> (r: Result<Option<String>, Error>)
    ensures
        read_outcome(carrier.reachable(), carrier.cached(), r),
        r matches Err(e) ==> carrier.fails_with(e),
        exists|read: Result<Option<String>, Error>| #[trigger]
            call_ensures(C::read, (carrier,), read) && read_counts_as(read, r),
{
    read_cached_with(carrier)
}

/// Cache `passphrase` for subsequent processes to read. A failure is passed on:
/// the user should know that the unlock will not last.
pub fn cache<C: MasterCache>(carrier: &mut C, passphrase: &str) -> (r: Result<(), Error>)
    ensures
        cache_outcome(old(carrier).reachable(), final(carrier).cached(), passphrase@, r),
        r matches Err(e) ==> old(carrier).fails_with(e),
        old(carrier).reachable() ==> final(carrier).reachable(),
{
    carrier.cache(passphrase)
}

/// Remove any cached master passphrase.
pub fn clear<C: MasterCache>(carrier: &mut C) -> (r: Result<(), Error>)
    ensures
        clear_outcome(old(carrier).reachable(), final(carrier).cached(), r),
        r matches Err(e) ==> old(carrier).fails_with(e),
        old(carrier).reachable() ==> final(carrier).reachable(),
{
    carrier.clear()
}

/// Where a cached passphrase is kept: the entry of `username` under `service`.
#[derive(Debug)]
pub struct Cache {
    pub service: String,
    pub username: String,
}

impl Cache {
    /// The entry of `username` under `service`.
    #[must_use]
    pub fn new(service: &str, username: &str) -> (r: Self)
        ensures
            r.service@ == service@,
            r.username@ == username@,
    {
        Cache { service: service.to_owned(), username: username.to_owned() }
    }

    /// The entry of the master passphrase.
    #[must_use]
    pub fn master() -> (r: Self)
        ensures
            r.service@ == MASTER_SERVICE@,
            r.username@ == MASTER_USERNAME@,
    {
        Cache::new(MASTER_SERVICE, MASTER_USERNAME)
    }

    /// The search attributes of the entry.
    #[must_use]
    pub fn attributes(&self) -> (r: Vec<(&str, &str)>)
        ensures
            r@.len() == 2,
            r@[0].0@ == "service"@ && r@[0].1@ == self.service@,
            r@[1].0@ == "username"@ && r@[1].1@ == self.username@,
    {
        let mut attributes: Vec<(&str, &str)> = Vec::new();
        attributes.push(("service", self.service.as_str()));
        attributes.push(("username", self.username.as_str()));
        attributes
    }
}

/// The error of an unavailable session cache.
pub fn session_failure(cause: String) -> (e: Error)
    ensures
        e == Error::Vault(VaultError::SessionCache(cause)),
{
    Error::Vault(VaultError::SessionCache(cause))
}

/// The passphrase in the bytes of a session-collection item, if there is an
/// item.
pub fn session_passphrase(item: Option<Vec<u8>>) -> (r: Result<Option<String>, Error>)
    ensures
        match item {
            None => r == Ok::<Option<String>, Error>(None),
            Some(bytes) => match r {
                Ok(Some(passphrase)) => vstd::utf8::valid_utf8(bytes@) && passphrase@
                    == vstd::utf8::decode_utf8(bytes@),
                Ok(None) => false,
                Err(e) => !vstd::utf8::valid_utf8(bytes@) && (e matches Error::Vault(
                    VaultError::SessionCache(message),
                ) && text::starts(message@, "cache entry is not valid UTF-8: "@) && exists|
                    detail: String,
                | #[trigger]
                    crate::vault::file::utf8_refused(bytes, detail) && message@
                        == "cache entry is not valid UTF-8: "@ + detail@),
            },
        },
{
    let bytes = match item {
        Some(bytes) => bytes,
        None => {
            return Ok(None);
        },
    };
    match utf8_text(bytes) {
        Ok(passphrase) => Ok(Some(passphrase)),
        Err(detail) => {
            let message = text::join2("cache entry is not valid UTF-8: ", detail.as_str());
            proof {
                let cause = "cache entry is not valid UTF-8: "@;
                crate::vault::file::refused_by_utf8(bytes, detail);
                assert(message@.subrange(0, cause.len() as int) =~= cause);
            }
            Err(session_failure(message))
        },
    }
}

/// What a default-collection entry says of the cache: an absent entry and an
/// unavailable keyring are misses, any other failure stands.
pub open spec fn entry_counts_as(
    read: Result<VaultSecret, Error>,
    r: Result<Option<String>, Error>,
) -> bool {
    match read {
        Ok(secret) => r matches Ok(Some(passphrase)) && passphrase@ == secret@,
        Err(e) => match e {
            Error::Vault(VaultError::NotFound(_))
            | Error::Vault(VaultError::KeyringUnavailable { .. }) => r == Ok::<
                Option<String>,
                Error,
            >(None),
            _ => r == Err::<Option<String>, Error>(e),
        },
    }
}

/// The passphrase in a default-collection entry.
pub fn stored_passphrase(read: Result<VaultSecret, Error>) -> (r: Result<Option<String>, Error>)
    ensures
        entry_counts_as(read, r),
{
    match read {
        Ok(secret) => Ok(Some(secret.as_str().to_owned())),
        Err(Error::Vault(VaultError::NotFound(_))) => Ok(None),
        Err(Error::Vault(VaultError::KeyringUnavailable { .. })) => Ok(None),
        Err(e) => Err(e),
    }
}

/// The outcome of clearing a default-collection entry: one that is already
/// absent is cleared.
pub fn cleared(deleted: Result<(), Error>) -> (r: Result<(), Error>)
    ensures
        match deleted {
            Err(Error::Vault(VaultError::NotFound(_))) => r is Ok,
            other => r == other,
        },
{
    match deleted {
        Err(Error::Vault(VaultError::NotFound(_))) => Ok(()),
        other => other,
    }
}

/// The default-collection carrier: the passphrase is an entry of a store.
pub struct StoreCache<S: VaultStore> {
    pub store: S,
    pub username: String,
}

impl<S: VaultStore> StoreCache<S> {
    /// The entry of `username` in `store`.
    #[must_use]
    pub fn new(store: S, username: &str) -> (r: Self)
        ensures
            r.store == store,
            r.username@ == username@,
    {
        StoreCache { store, username: username.to_owned() }
    }
}

impl<S: VaultStore> MasterCache for StoreCache<S> {
    open spec fn cached(&self) -> Option<Seq<char>> {
        if self.store.contents().contains_key(self.username@) {
            Some(self.store.contents()[self.username@])
        } else {
            None
        }
    }

    open spec fn reachable(&self) -> bool {
        self.store.reliable()
    }

    open spec fn fails_with(&self, e: Error) -> bool {
        self.store.fails_with(e)
    }

    fn read(&self) -> (r: Result<Option<String>, Error>)
        ensures
            exists|id: &str, read: Result<VaultSecret, Error>|
                id@ == self.username@ && #[trigger] call_ensures(S::get, (&self.store, id), read)
                    && entry_counts_as(read, r),
    {
        stored_passphrase(self.store.get(self.username.as_str()))
    }

    fn cache(&mut self, passphrase: &str) -> (r: Result<(), Error>)
        ensures
            final(self).username == old(self).username,
            crate::vault::store::set_outcome(
                old(self).store.contents(),
                final(self).store.contents(),
                old(self).username@,
                passphrase@,
                r,
            ),
    {
        let secret = VaultSecret::new(passphrase.to_owned());
        self.store.set(self.username.as_str(), &secret)
    }

    fn clear(&mut self) -> (r: Result<(), Error>)
        ensures
            final(self).username == old(self).username,
            crate::vault::store::kept_elsewhere(
                old(self).store.contents(),
                final(self).store.contents(),
                old(self).username@,
            ),
    {
        cleared(self.store.delete(self.username.as_str()))
    }
}

// ---------------------------------------------------------------------------
// Laws of every cache
// ---------------------------------------------------------------------------
/// What was cached last is what is read, settled or not: of two passphrases that
/// were cached one after the other a reachable cache gives the second, and no
/// cache gives any other.
pub proof fn last_cached_passphrase_is_read(
    reachable: bool,
    between: Option<Seq<char>>,
    after: Option<Seq<char>>,
    first: Seq<char>,
    second: Seq<char>,
    cached: Result<(), Error>,
    read: Result<Option<String>, Error>,
    settled: Result<Option<String>, Error>,
)
    requires
        cached is Ok,
        cache_outcome(reachable, between, first, cached),
        cache_outcome(reachable, after, second, cached),
        read_outcome(reachable, after, read),
        read_counts_as(read, settled),
    ensures
        reachable ==> (settled matches Ok(Some(found)) && found@ == second),
        settled matches Ok(Some(found)) ==> found@ == second,
        read matches Ok(Some(found)) ==> found@ == second,
{
}

/// A cleared cache reads as empty, settled or not, and can be cleared again: a
/// reachable one says so, and no cache gives a passphrase.
pub proof fn cleared_cache_gives_nothing(
    reachable: bool,
    after: Option<Seq<char>>,
    last: Option<Seq<char>>,
    done: Result<(), Error>,
    again: Result<(), Error>,
    read: Result<Option<String>, Error>,
    settled: Result<Option<String>, Error>,
)
    requires
        done is Ok,
        clear_outcome(reachable, after, done),
        read_outcome(reachable, after, read),
        read_counts_as(read, settled),
        clear_outcome(reachable, last, again),
    ensures
        reachable ==> settled == Ok::<Option<String>, Error>(None),
        reachable ==> again is Ok && last is None,
        !(settled matches Ok(Some(_))),
        !(read matches Ok(Some(_))),
{
}

/// Only unavailability counts as a miss: what was read stands, and so does any other
/// failure.
pub proof fn only_unavailability_is_a_miss(
    read: Result<Option<String>, Error>,
    settled: Result<Option<String>, Error>,
)
    requires
        call_ensures(settle_read, (read,), settled),
    ensures
        read is Ok ==> settled == read,
        read matches Err(e) ==> if e matches Error::Vault(VaultError::SessionCache(_)) {
            settled == Ok::<Option<String>, Error>(None)
        } else {
            settled == Err::<Option<String>, Error>(e)
        },
{
}

/// An entry of the keyring gives the passphrase as it is stored; one that is absent, or a
/// keyring that cannot be reached, is a miss, and any other failure stands. Clearing an
/// absent entry succeeds.
pub proof fn stored_entry_gives_the_passphrase(
    read: Result<VaultSecret, Error>,
    found: Result<Option<String>, Error>,
    deleted: Result<(), Error>,
    done: Result<(), Error>,
)
    requires
        call_ensures(stored_passphrase, (read,), found),
        call_ensures(cleared, (deleted,), done),
    ensures
        read matches Ok(secret) ==> (found matches Ok(Some(p)) && p@ == secret@),
        found == Ok::<Option<String>, Error>(None) <==> (read matches Err(e) && (
        e.is_not_found() || e matches Error::Vault(VaultError::KeyringUnavailable { .. }))),
        found matches Err(e) ==> read == Err::<VaultSecret, Error>(e),
        done is Ok <==> deleted is Ok || (deleted matches Err(e) && e.is_not_found()),
        done matches Err(e) ==> deleted == Err::<(), Error>(e),
{
}

/// The bytes of a passphrase, as an item of the session collection, give that passphrase;
/// bytes that are no text are an unavailable cache, and no item is a miss.
pub proof fn session_item_gives_the_passphrase(
    passphrase: Seq<char>,
    item: Option<Vec<u8>>,
    r: Result<Option<String>, Error>,
)
    requires
        call_ensures(session_passphrase, (item,), r),
    ensures
        item is None ==> r == Ok::<Option<String>, Error>(None),
        item matches Some(bytes) ==> (bytes@ == vstd::utf8::encode_utf8(passphrase) ==> (
        r matches Ok(Some(p)) && p@ == passphrase)),
        r matches Err(e) ==> (e matches Error::Vault(VaultError::SessionCache(_))),
        r is Err <==> (item matches Some(bytes) && !vstd::utf8::valid_utf8(bytes@)),
{
    vstd::utf8::encode_utf8_valid_utf8(passphrase);
    vstd::utf8::encode_utf8_decode_utf8(passphrase);
}

/// An unavailable cache never blocks a command: its failure counts as a miss,
/// and settling a settled outcome changes nothing.
pub proof fn unavailable_cache_is_a_miss(
    read: Result<Option<String>, Error>,
    settled: Result<Option<String>, Error>,
    again: Result<Option<String>, Error>,
)
    requires
        read_counts_as(read, settled),
        read_counts_as(settled, again),
    ensures
        !(settled matches Err(Error::Vault(VaultError::SessionCache(_)))),
        again == settled,
{
}

} // verus!
