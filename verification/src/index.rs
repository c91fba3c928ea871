//! `VaultIndex` - the local vault-id index.
//!
//! The index is a *cache*, not the source of truth: the store holds the
//! secrets. `list` reads it; `add` and `remove` keep it in step. Losing it does
//! not destroy passwords.
//!
//! A handle works on the contents of the index file as they were read. When an
//! operation changes them it raises `changed`, and whoever owns the file then
//! writes the contents back.

use vstd::prelude::*;

use crate::error::Error;
use crate::strmap::StringMap;
use crate::text;
use crate::vault::error::VaultError;

verus! {

/// Version written into a fresh index file.
pub const INDEX_VERSION: u32 = 1;

/// The set of known vault-ids, with the format version of the file.
pub struct IndexFile {
    pub version: u32,
    pub vault_ids: StringMap<()>,
}

impl IndexFile {
    /// The vault-ids in the file.
    pub open spec fn ids(&self) -> Set<Seq<char>> {
        self.vault_ids@.dom()
    }

    /// An index file that lists `vault_ids`, in any order and with repetitions.
    pub fn from_ids(version: u32, vault_ids: &Vec<String>) -> (r: Self)
        ensures
            r.version == version,
            r.ids() == text::views(vault_ids@).to_set(),
    {
        let mut set: StringMap<()> = StringMap::new();
        assert(set@.dom() =~= text::views(vault_ids@.take(0)).to_set());
        for i in 0..vault_ids.len()
            invariant
                set@.dom() == text::views(vault_ids@.take(i as int)).to_set(),
        {
            let ghost before = vault_ids@.take(i as int);
            assert(vault_ids@.take(i + 1) =~= before.push(vault_ids@[i as int]));
            proof {
                text::lemma_views_push(before, vault_ids@[i as int]);
                lemma_push_to_set(text::views(before), vault_ids@[i as int]@);
            }
            set.insert(vault_ids[i].clone(), ());
        }
        assert(vault_ids@.take(vault_ids@.len() as int) =~= vault_ids@);
        IndexFile { version, vault_ids: set }
    }
}

/// The members of a sequence with one more element.
pub proof fn lemma_push_to_set(s: Seq<Seq<char>>, x: Seq<char>)
    ensures
        s.push(x).to_set() == s.to_set().insert(x),
{
    assert forall|k: Seq<char>| #[trigger]
        s.push(x).to_set().contains(k) <==> s.to_set().insert(x).contains(k) by {
        if s.contains(k) {
            let i = s.index_of(k);
            assert(s.push(x)[i] == k);
        }
        assert(s.push(x)[s.len() as int] == x);
        if s.push(x).contains(k) && k != x {
            let i = s.push(x).index_of(k);
            assert(s[i] == k);
        }
    }
    assert(s.push(x).to_set() =~= s.to_set().insert(x));
}

/// What was found at the path of the index.
pub enum IndexContents {
    /// There is no file.
    Absent,
    /// The file could not be read.
    Unreadable(String),
    /// The file does not hold an index.
    Corrupted(String),
    /// The index.
    Present(IndexFile),
}

/// Local vault-id index backed by `index.json`.
pub struct VaultIndex {
    pub path: String,
    pub contents: IndexContents,
    /// Whether the contents differ from what was read.
    pub changed: bool,
}

impl VaultIndex {
    /// The index can be worked with: its file is absent or holds an index.
    pub open spec fn readable(&self) -> bool {
        self.contents is Absent || self.contents is Present
    }

    /// The known vault-ids.
    pub open spec fn ids(&self) -> Set<Seq<char>> {
        match self.contents {
            IndexContents::Present(file) => file.ids(),
            _ => Set::empty(),
        }
    }

    /// The format version of the file.
    pub open spec fn version(&self) -> u32 {
        match self.contents {
            IndexContents::Present(file) => file.version,
            _ => INDEX_VERSION,
        }
    }

    /// The error that an unusable file gives.
    pub open spec fn failure(&self, e: Error) -> bool {
        match self.contents {
            IndexContents::Unreadable(found) => e matches Error::Vault(
                VaultError::Index { path, message },
            ) && path@ == self.path@ && message@ == found@,
            IndexContents::Corrupted(found) => e matches Error::Vault(
                VaultError::IndexCorrupted { path, message },
            ) && path@ == self.path@ && message@ == found@,
            _ => false,
        }
    }

    /// This index with `id` added: the flag is raised where that changes it, and
    /// path and version stay.
    pub open spec fn with_id(&self, id: Seq<char>, after: VaultIndex) -> bool {
        &&& self.readable() && after.readable()
        &&& after.path == self.path && after.version() == self.version()
        &&& after.ids() == self.ids().insert(id)
        &&& after.changed == (self.changed || !self.ids().contains(id))
    }

    /// This index with `id` removed: the flag is raised where that changes it, and
    /// path and version stay.
    pub open spec fn without_id(&self, id: Seq<char>, after: VaultIndex) -> bool {
        &&& self.readable() && after.readable()
        &&& after.path == self.path && after.version() == self.version()
        &&& after.ids() == self.ids().remove(id)
        &&& after.changed == (self.changed || self.ids().contains(id))
    }

    /// This index with `to` added and then `from` removed.
    pub open spec fn with_moved(
        &self,
        from: Seq<char>,
        to: Seq<char>,
        after: VaultIndex,
    ) -> bool {
        &&& self.readable() && after.readable()
        &&& after.path == self.path && after.version() == self.version()
        &&& after.ids() == self.ids().insert(to).remove(from)
        &&& after.changed == (self.changed || !self.ids().contains(to) || self.ids().insert(
            to,
        ).contains(from))
    }

    /// An index targeting `path`, where there is no file yet.
    #[must_use]
    pub fn new(path: String) -> (r: Self)
        ensures
            r.path == path,
            r.readable(),
            r.ids() == Set::<Seq<char>>::empty(),
            r.version() == INDEX_VERSION,
            !r.changed,
    {
        VaultIndex { path, contents: IndexContents::Absent, changed: false }
    }

    /// An index targeting `path`, with what was found there.
    #[must_use]
    pub fn with_contents(path: String, contents: IndexContents) -> (r: Self)
        ensures
            r.path == path,
            r.contents == contents,
            !r.changed,
    {
        VaultIndex { path, contents, changed: false }
    }

    /// The backing file path.
    #[must_use]
    pub fn path(&self) -> (r: &str)
        ensures
            r@ == self.path@,
    {
        self.path.as_str()
    }

    /// Rejects a file that could not be read or does not hold an index.
    fn usable(&self) -> (r: Result<(), Error>)
        ensures
            match r {
                Ok(()) => self.readable(),
                Err(e) => !self.readable() && self.failure(e),
            },
    {
        match &self.contents {
            IndexContents::Unreadable(message) => Err(
                Error::Vault(
                    VaultError::Index { path: self.path.clone(), message: message.clone() },
                ),
            ),
            IndexContents::Corrupted(message) => Err(
                Error::Vault(
                    VaultError::IndexCorrupted {
                        path: self.path.clone(),
                        message: message.clone(),
                    },
                ),
            ),
            _ => Ok(()),
        }
    }

    /// List known vault-ids in ascending order. An absent file yields an empty
    /// list; a corrupted file yields an `IndexCorrupted` error.
    pub fn list(&self) -> (r: Result<Vec<String>, Error>)
        ensures
            match r {
                Ok(ids) => self.readable() && text::strictly_sorted(text::views(ids@)) && (forall|
                    k: Seq<char>,
                |
                    text::views(ids@).contains(k) <==> self.ids().contains(k)),
                Err(e) => !self.readable() && self.failure(e),
            },
    {
        match self.usable() {
            Err(e) => Err(e),
            Ok(()) => {
                match &self.contents {
                    IndexContents::Present(file) => Ok(file.vault_ids.keys()),
                    _ => Ok(Vec::new()),
                }
            },
        }
    }

    /// Add `vault_id` to the index. Adding a known id changes nothing.
    pub fn add(&mut self, vault_id: &str) -> (r: Result<(), Error>)
        ensures
            match r {
                Ok(()) => {
                    &&& old(self).with_id(vault_id@, *final(self))
                    &&& old(self).ids().contains(vault_id@) ==> *final(self) == *old(self)
                },
                Err(e) => !old(self).readable() && old(self).failure(e) && *final(self) == *old(
                    self,
                ),
            },
    {
        if let Err(e) = self.usable() {
            return Err(e);
        }
        match &mut self.contents {
            IndexContents::Present(file) => {
                if file.vault_ids.contains_key(vault_id) {
                    assert(old(self).ids().insert(vault_id@) =~= old(self).ids());
                } else {
                    file.vault_ids.insert(vault_id.to_owned(), ());
                    self.changed = true;
                    assert(self.ids() =~= old(self).ids().insert(vault_id@));
                }
            },
            _ => {
                let mut vault_ids: StringMap<()> = StringMap::new();
                vault_ids.insert(vault_id.to_owned(), ());
                self.contents = IndexContents::Present(
                    IndexFile { version: INDEX_VERSION, vault_ids },
                );
                self.changed = true;
                assert(self.ids() =~= old(self).ids().insert(vault_id@));
            },
        }
        Ok(())
    }

    /// Remove `vault_id` from the index. Removing an unknown id changes nothing
    /// and is no error.
    pub fn remove(&mut self, vault_id: &str) -> (r: Result<(), Error>)
        ensures
            match r {
                Ok(()) => {
                    &&& old(self).without_id(vault_id@, *final(self))
                    &&& !old(self).ids().contains(vault_id@) ==> *final(self) == *old(self)
                },
                Err(e) => !old(self).readable() && old(self).failure(e) && *final(self) == *old(
                    self,
                ),
            },
    {
        if let Err(e) = self.usable() {
            return Err(e);
        }
        match &mut self.contents {
            IndexContents::Present(file) => {
                if file.vault_ids.contains_key(vault_id) {
                    file.vault_ids.remove(vault_id);
                    self.changed = true;
                    assert(self.ids() =~= old(self).ids().remove(vault_id@));
                } else {
                    assert(old(self).ids().remove(vault_id@) =~= old(self).ids());
                }
            },
            _ => {
                assert(old(self).ids().remove(vault_id@) =~= old(self).ids());
            },
        }
        Ok(())
    }
}

/// After an id was added the index lists it and what it listed before, and nothing
/// else; it is to be written back where that differs from what was read.
pub proof fn added_id_is_listed(before: VaultIndex, after: VaultIndex, id: Seq<char>, k: Seq<char>)
    requires
        before.with_id(id, after),
    ensures
        after.readable(),
        after.ids().contains(k) <==> k == id || before.ids().contains(k),
        after.changed <==> before.changed || after.ids() != before.ids(),
        after.path == before.path && after.version() == before.version(),
{
    if before.ids().contains(id) {
        assert(after.ids() =~= before.ids());
    } else {
        assert(after.ids().contains(id));
    }
}

/// After an id was removed the index lists everything else that it listed before,
/// and nothing more; it is to be written back where that differs from what was read.
pub proof fn removed_id_is_not_listed(
    before: VaultIndex,
    after: VaultIndex,
    id: Seq<char>,
    k: Seq<char>,
)
    requires
        before.without_id(id, after),
    ensures
        after.readable(),
        after.ids().contains(k) <==> k != id && before.ids().contains(k),
        after.changed <==> before.changed || after.ids() != before.ids(),
        after.path == before.path && after.version() == before.version(),
{
    if before.ids().contains(id) {
        assert(!after.ids().contains(id));
    } else {
        assert(after.ids() =~= before.ids());
    }
}

/// After a rename to another id the index lists the new id, not the old one, and
/// everything else that it listed before. A rename is an addition and a removal.
pub proof fn moved_id_is_listed_anew(
    before: VaultIndex,
    between: VaultIndex,
    after: VaultIndex,
    from: Seq<char>,
    to: Seq<char>,
    k: Seq<char>,
)
    requires
        before.with_id(to, between),
        between.without_id(from, after),
    ensures
        before.with_moved(from, to, after),
        after.ids().contains(k) <==> k != from && (k == to || before.ids().contains(k)),
{
}

/// An id that was added and removed again leaves the index as it was, as far as it
/// was not listed before.
pub proof fn removal_undoes_addition(
    before: VaultIndex,
    between: VaultIndex,
    after: VaultIndex,
    id: Seq<char>,
)
    requires
        !before.ids().contains(id),
        before.with_id(id, between),
        between.without_id(id, after),
    ensures
        after.ids() == before.ids(),
{
    assert(after.ids() =~= before.ids());
}

/// The listing of an index has exactly its vault-ids, in ascending order, and an index
/// that cannot be read lists nothing but says why.
pub proof fn listing_tells_the_ids(index: &VaultIndex, r: Result<Vec<String>, Error>, k: Seq<char>)
    requires
        call_ensures(VaultIndex::list, (index,), r),
    ensures
        match r {
            Ok(ids) => {
                &&& text::strictly_sorted(text::views(ids@))
                &&& text::views(ids@).contains(k) <==> index.ids().contains(k)
            },
            Err(e) => match index.contents {
                IndexContents::Unreadable(found) => e matches Error::Vault(
                    VaultError::Index { path, message },
                ) && path@ == index.path@ && message@ == found@,
                IndexContents::Corrupted(found) => e matches Error::Vault(
                    VaultError::IndexCorrupted { path, message },
                ) && path@ == index.path@ && message@ == found@,
                _ => false,
            },
        },
        r is Err <==> index.contents is Unreadable || index.contents is Corrupted,
{
}

/// The listing of an index depends on nothing but the set of its vault-ids:
/// two sorted listings of the same set are the same sequence, whatever the
/// order in which the ids were added.
pub proof fn listing_is_determined(ids: Set<Seq<char>>, a: Seq<Seq<char>>, b: Seq<Seq<char>>)
    requires
        text::strictly_sorted(a),
        text::strictly_sorted(b),
        forall|k: Seq<char>| a.contains(k) <==> ids.contains(k),
        forall|k: Seq<char>| b.contains(k) <==> ids.contains(k),
    ensures
        a == b,
{
    text::strictly_sorted_unique(a, b);
}

} // verus!
