//! Sync `Manifest` data structures.

use vstd::prelude::*;

use crate::error::Error;
use crate::index::VaultIndex;
use crate::strmap::StringMap;
use crate::sync::error::SyncError;
use crate::text;
use crate::vault::secret::VaultSecret;
use crate::vault::store::VaultStore;

verus! {

/// Manifest format version.
pub const MANIFEST_VERSION: u32 = 1;

/// `jiff::Timestamp`: an instant in time. It is carried along and shown, never
/// compared.
#[verifier::external_type_specification]
#[verifier::external_body]
pub struct ExTimestamp(jiff::Timestamp);

/// `jiff::Timestamp::now`: the current instant of the system clock, of which
/// nothing is claimed.
#[verifier::external_body]
fn current_instant() -> jiff::Timestamp {
    jiff::Timestamp::now()
}

/// The clock said `t`.
pub closed spec fn told_by_clock(t: jiff::Timestamp) -> bool {
    call_ensures(current_instant, (), t)
}

/// A single vault secret entry within a manifest.
#[derive(Debug, PartialEq)]
pub struct VaultEntry {
    pub password: String,
    /// When the entry was written.
    pub updated_at: jiff::Timestamp,
}

impl VaultEntry {
    /// Build an entry from a secret, stamped *now*.
    #[must_use]
    pub fn from_secret(secret: &VaultSecret) -> (r: Self)
        ensures
            r.password@ == secret@,
            told_by_clock(r.updated_at),
    {
        VaultEntry { password: secret.as_str().to_owned(), updated_at: current_instant() }
    }

    /// Build an entry with an explicit timestamp.
    #[must_use]
    pub fn new(password: String, updated_at: jiff::Timestamp) -> (r: Self)
        ensures
            r.password == password,
            r.updated_at == updated_at,
    {
        VaultEntry { password, updated_at }
    }
}

impl Clone for VaultEntry {
    fn clone(&self) -> (r: Self)
        ensures
            r == *self,
    {
        VaultEntry { password: self.password.clone(), updated_at: self.updated_at }
    }
}

/// The passwords of a map of entries.
pub open spec fn entry_passwords(entries: Map<Seq<char>, VaultEntry>) -> Map<Seq<char>, Seq<char>> {
    entries.map_values(|e: VaultEntry| e.password@)
}

/// The encrypted manifest payload: a versioned map of vault-id to entry.
pub struct Manifest {
    pub version: u32,
    pub vaults: StringMap<VaultEntry>,
}

impl Manifest {
    /// The passwords by vault-id.
    pub open spec fn passwords(&self) -> Map<Seq<char>, Seq<char>> {
        entry_passwords(self.vaults@)
    }

    /// A manifest without entries.
    #[must_use]
    pub fn new() -> (r: Self)
        ensures
            r.version == MANIFEST_VERSION,
            r.vaults@ == Map::<Seq<char>, VaultEntry>::empty(),
    {
        Manifest { version: MANIFEST_VERSION, vaults: StringMap::new() }
    }

    /// Build a manifest from the local store and index: the passwords of the
    /// indexed ids that the store holds. An id that the index lists and the
    /// store lacks is skipped.
    pub fn from_local<S: VaultStore>(store: &S, index: &VaultIndex) -> (r: Result<Self, Error>)
        ensures
            match r {
                Ok(manifest) => {
                    &&& index.readable()
                    &&& manifest.version == MANIFEST_VERSION
                    &&& manifest.passwords() == store.contents().restrict(index.ids())
                    &&& forall|id: Seq<char>| #[trigger]
                        manifest.vaults@.contains_key(id) ==> told_by_clock(
                            manifest.vaults@[id].updated_at,
                        )
                },
                Err(e) => {
                    ||| !index.readable() && index.failure(e)
                    ||| index.readable() && !store.reliable() && !e.is_not_found() && (exists|id: &str|
                        index.ids().contains(id@) && #[trigger] call_ensures(
                            S::get,
                            (store, id),
                            Err(e),
                        ))
                },
            },
    {
        let ids = match index.list() {
            Ok(ids) => ids,
            Err(e) => {
                return Err(e);
            },
        };
        let mut vaults: StringMap<VaultEntry> = StringMap::new();
        assert(entry_passwords(vaults@) =~= store.contents().restrict(
            text::views(ids@.take(0)).to_set(),
        ));
        for i in 0..ids.len()
            invariant
                index.readable(),
                forall|k: Seq<char>| text::views(ids@).contains(k) <==> index.ids().contains(k),
                entry_passwords(vaults@) == store.contents().restrict(
                    text::views(ids@.take(i as int)).to_set(),
                ),
                forall|k: Seq<char>| #[trigger]
                    vaults@.contains_key(k) ==> told_by_clock(vaults@[k].updated_at),
        {
            let id = &ids[i];
            let ghost seen = ids@.take(i as int);
            let ghost before = entry_passwords(vaults@);
            proof {
                assert(ids@.take(i + 1) =~= seen.push(*id));
                text::lemma_views_push(seen, *id);
                crate::index::lemma_push_to_set(text::views(seen), id@);
                assert(text::views(ids@)[i as int] == id@);
            }
            match store.get(id.as_str()) {
                Ok(secret) => {
                    vaults.insert(id.clone(), VaultEntry::from_secret(&secret));
                    assert(entry_passwords(vaults@) =~= before.insert(id@, secret@));
                    assert(entry_passwords(vaults@) =~= store.contents().restrict(
                        text::views(ids@.take(i + 1)).to_set(),
                    ));
                },
                Err(e) => {
                    if e.not_found() {
                        assert(entry_passwords(vaults@) =~= store.contents().restrict(
                            text::views(ids@.take(i + 1)).to_set(),
                        ));
                    } else {
                        return Err(e);
                    }
                },
            }
        }
        assert(ids@.take(ids@.len() as int) =~= ids@);
        assert(text::views(ids@).to_set() =~= index.ids());
        Ok(Manifest { version: MANIFEST_VERSION, vaults })
    }

    /// Accepts a manifest that was just read.
    ///
    /// Rejects one whose `version` is not [`MANIFEST_VERSION`], so that an
    /// incompatible format surfaces as a clear error rather than a silent
    /// misreading.
    pub fn accept(self) -> (r: Result<Self, Error>)
        ensures
            match r {
                Ok(manifest) => self.version == MANIFEST_VERSION && manifest == self,
                Err(e) => self.version != MANIFEST_VERSION && (e matches Error::Sync(
                    SyncError::Manifest(message),
                ) && message@ == version_mismatch(self.version)),
            },
    {
        if self.version != MANIFEST_VERSION {
            let found = text::decimal_text(self.version as u64);
            let known = text::decimal_text(MANIFEST_VERSION as u64);
            let mut message = text::join3(
                "manifest version mismatch: file has ",
                found.as_str(),
                ", avpm supports ",
            );
            message.append(known.as_str());
            Err(Error::Sync(SyncError::Manifest(message)))
        } else {
            Ok(self)
        }
    }

    /// Number of entries.
    #[must_use]
    pub fn len(&self) -> (n: usize)
        ensures
            n == self.vaults@.dom().len(),
    {
        self.vaults.len()
    }

    /// Whether there is no entry.
    #[must_use]
    pub fn is_empty(&self) -> (r: bool)
        ensures
            r == (self.vaults@ == Map::<Seq<char>, VaultEntry>::empty()),
    {
        self.vaults.is_empty()
    }

    /// The vault-id and entry pairs, in ascending order of vault-id.
    #[must_use]
    pub fn entries(&self) -> (r: Vec<(&String, &VaultEntry)>)
        ensures
            r@.len() == self.vaults.key_seq().len(),
            text::strictly_sorted(self.vaults.key_seq()),
            forall|k: Seq<char>|
                self.vaults.key_seq().contains(k) <==> self.vaults@.contains_key(k),
            forall|i: int|
                0 <= i < r@.len() ==> {
                    &&& (#[trigger] r@[i]).0@ == self.vaults.key_seq()[i]
                    &&& self.vaults@.contains_key(r@[i].0@)
                    &&& *r@[i].1 == self.vaults@[r@[i].0@]
                },
    {
        let mut pairs: Vec<(&String, &VaultEntry)> = Vec::new();
        let n: usize = self.vaults.len();
        for i in 0..n
            invariant
                n == self.vaults.key_seq().len(),
                pairs@.len() == i,
                forall|j: int|
                    0 <= j < i ==> {
                        &&& (#[trigger] pairs@[j]).0@ == self.vaults.key_seq()[j]
                        &&& self.vaults@.contains_key(pairs@[j].0@)
                        &&& *pairs@[j].1 == self.vaults@[pairs@[j].0@]
                    },
        {
            pairs.push((self.vaults.key_at(i), self.vaults.value_at(i)));
        }
        pairs
    }
}

/// A local manifest has, of each vault-id, what the index lists and the store holds:
/// neither an id that is not indexed nor one that is not stored.
pub proof fn local_manifest_is_what_is_stored<S: VaultStore>(
    store: &S,
    index: &VaultIndex,
    r: Result<Manifest, Error>,
    id: Seq<char>,
)
    requires
        call_ensures(Manifest::from_local::<S>, (store, index), r),
    ensures
        store.reliable() ==> (r is Ok <==> index.readable()),
        r matches Ok(manifest) ==> {
            &&& manifest.vaults@.contains_key(id) <==> index.ids().contains(id)
                && store.contents().contains_key(id)
            &&& manifest.vaults@.contains_key(id) ==> manifest.vaults@[id].password@
                == store.contents()[id]
        },
{
    if let Ok(manifest) = r {
        let passwords = entry_passwords(manifest.vaults@);
        let held = store.contents().restrict(index.ids());
        assert(passwords.contains_key(id) == held.contains_key(id));
        if passwords.contains_key(id) {
            assert(passwords[id] == held[id]);
        }
    }
}

/// A manifest is accepted as it is where its version is the first one, and refused
/// where it is any other; the refusal names both.
pub proof fn only_the_first_version_is_accepted(manifest: Manifest, r: Result<Manifest, Error>)
    requires
        call_ensures(Manifest::accept, (manifest,), r),
    ensures
        r is Ok <==> manifest.version == 1,
        r matches Ok(same) ==> same == manifest,
        r matches Err(e) ==> (e matches Error::Sync(SyncError::Manifest(message))
            && text::occurs_in(message@, text::decimal(manifest.version as nat)) && text::ends(
            message@,
            text::decimal(1),
        )),
{
    if r is Err {
        let found = text::decimal(manifest.version as nat);
        let known = text::decimal(1);
        let head = "manifest version mismatch: file has "@;
        let whole = version_mismatch(manifest.version);
        assert(whole =~= head + found + (", avpm supports "@ + known));
        text::part_occurs(head, found, ", avpm supports "@ + known);
        assert(whole =~= (head + found + ", avpm supports "@) + known);
        text::ends_split_the_text(whole, known);
    }
}

/// The text of the refusal of a manifest of another version.
pub open spec fn version_mismatch(version: u32) -> Seq<char> {
    "manifest version mismatch: file has "@ + text::decimal(version as nat)
        + ", avpm supports "@ + text::decimal(MANIFEST_VERSION as nat)
}

impl Default for Manifest {
    fn default() -> (r: Self)
        ensures
            r.version == MANIFEST_VERSION,
            r.vaults@ == Map::<Seq<char>, VaultEntry>::empty(),
    {
        Manifest::new()
    }
}

} // verus!
