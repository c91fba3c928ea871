//! A map keyed by text that keeps its keys in order.

use vstd::prelude::*;

use crate::text;

verus! {

broadcast use vstd::seq_lib::group_seq_properties;

/// A map from text keys to values, held in key order without duplicates.
pub struct StringMap<V> {
    entries: Vec<(String, V)>,
}

/// The keys of a list of pairs, in order.
pub open spec fn pair_keys<V>(pairs: Seq<(String, V)>) -> Seq<Seq<char>> {
    Seq::new(pairs.len(), |i: int| pairs[i].0@)
}

/// The map that a list of pairs with distinct keys describes.
pub open spec fn pair_map<V>(pairs: Seq<(String, V)>) -> Map<Seq<char>, V> {
    Map::new(
        |k: Seq<char>| pair_keys(pairs).contains(k),
        |k: Seq<char>| pairs[pair_keys(pairs).index_of(k)].1,
    )
}

proof fn lemma_sorted_no_duplicates(keys: Seq<Seq<char>>)
    requires
        text::strictly_sorted(keys),
    ensures
        keys.no_duplicates(),
{
    assert forall|i: int, j: int| 0 <= i < keys.len() && 0 <= j < keys.len() && i != j implies keys[i]
        != keys[j] by {
        if i < j {
            text::text_less_asymmetric(keys[i], keys[j]);
        } else {
            text::text_less_asymmetric(keys[j], keys[i]);
        }
    }
}

/// With distinct keys, the value at a position is the value of its key.
pub proof fn lemma_pair_at<V>(pairs: Seq<(String, V)>, i: int)
    requires
        pair_keys(pairs).no_duplicates(),
        0 <= i < pairs.len(),
    ensures
        pair_map(pairs).contains_key(pairs[i].0@),
        pair_map(pairs)[pairs[i].0@] == pairs[i].1,
{
    let keys = pair_keys(pairs);
    assert(keys[i] == pairs[i].0@);
    assert(keys.contains(keys[i]));
    let at = keys.index_of(keys[i]);
    assert(0 <= at < keys.len() && keys[at] == keys[i]);
    assert(at == i);
}

impl<V> StringMap<V> {
    #[verifier::type_invariant]
    spec fn sorted(self) -> bool {
        text::strictly_sorted(pair_keys(self.entries@))
    }

    /// The contents.
    pub closed spec fn view(&self) -> Map<Seq<char>, V> {
        pair_map(self.entries@)
    }

    /// The keys in ascending order.
    pub closed spec fn key_seq(&self) -> Seq<Seq<char>> {
        pair_keys(self.entries@)
    }

    /// An empty map.
    pub fn new() -> (r: Self)
        ensures
            r@ == Map::<Seq<char>, V>::empty(),
            r.key_seq() == Seq::<Seq<char>>::empty(),
    {
        let r = StringMap { entries: Vec::new() };
        assert(r.key_seq() =~= Seq::<Seq<char>>::empty());
        assert(r@ =~= Map::<Seq<char>, V>::empty());
        r
    }

    /// The keys are in strict order and are those of the contents.
    proof fn lemma_keys(&self)
        requires
            self.sorted(),
        ensures
            text::strictly_sorted(self.key_seq()),
            forall|k: Seq<char>| self.key_seq().contains(k) <==> self@.contains_key(k),
            self@.dom().finite(),
            self@.dom().len() == self.key_seq().len(),
    {
        lemma_sorted_no_duplicates(self.key_seq());
        assert(self@.dom() =~= self.key_seq().to_set());
        self.key_seq().unique_seq_to_set();
    }

    /// Number of entries.
    pub fn len(&self) -> (n: usize)
        ensures
            n == self@.dom().len(),
            n == self.key_seq().len(),
            self@.dom().finite(),
            text::strictly_sorted(self.key_seq()),
            forall|k: Seq<char>| self.key_seq().contains(k) <==> self@.contains_key(k),
    {
        proof {
            use_type_invariant(self);
            self.lemma_keys();
        }
        self.entries.len()
    }

    /// Whether there is no entry.
    pub fn is_empty(&self) -> (r: bool)
        ensures
            r == (self@ == Map::<Seq<char>, V>::empty()),
            r == (self.key_seq().len() == 0),
    {
        proof {
            use_type_invariant(self);
            self.lemma_keys();
            if self.key_seq().len() == 0 {
                assert(self@ =~= Map::<Seq<char>, V>::empty());
            } else {
                assert(self.key_seq().contains(self.key_seq()[0]));
            }
        }
        self.entries.len() == 0
    }

    /// The key at position `i` of the ascending order.
    pub fn key_at(&self, i: usize) -> (k: &String)
        requires
            i < self.key_seq().len(),
        ensures
            k@ == self.key_seq()[i as int],
            self@.contains_key(k@),
    {
        proof {
            use_type_invariant(self);
            self.lemma_keys();
            assert(self.key_seq().contains(self.key_seq()[i as int]));
        }
        &self.entries[i].0
    }

    /// The value at position `i` of the ascending order.
    pub fn value_at(&self, i: usize) -> (v: &V)
        requires
            i < self.key_seq().len(),
        ensures
            self@.contains_key(self.key_seq()[i as int]),
            *v == self@[self.key_seq()[i as int]],
    {
        proof {
            use_type_invariant(self);
            lemma_sorted_no_duplicates(self.key_seq());
            lemma_pair_at(self.entries@, i as int);
        }
        &self.entries[i].1
    }

    fn position(&self, key: &str) -> (at: usize)
        ensures
            at <= self.entries.len(),
            forall|j: int| 0 <= j < at ==> text::text_less(#[trigger] self.entries[j].0@, key@),
            forall|j: int|
                at <= j < self.entries.len() ==> !text::text_less(#[trigger] self.entries[j].0@, key@),
    {
        let mut at: usize = 0;
        proof {
            use_type_invariant(self);
        }
        while at < self.entries.len() && text::less(self.entries[at].0.as_str(), key)
            invariant
                at <= self.entries.len(),
                forall|j: int|
                    0 <= j < at ==> text::text_less(#[trigger] self.entries[j].0@, key@),
            decreases self.entries.len() - at,
        {
            at += 1;
        }
        assert forall|j: int| at <= j < self.entries.len() implies !text::text_less(
            #[trigger] self.entries[j].0@,
            key@,
        ) by {
            if j > at && text::text_less(self.entries[j].0@, key@) {
                let ks = pair_keys(self.entries@);
                assert(text::text_less(ks[at as int], ks[j]));
                text::text_less_transitive(ks[at as int], ks[j], key@);
            }
        }
        at
    }

    /// The value stored under `key`.
    pub fn get(&self, key: &str) -> (r: Option<&V>)
        ensures
            match r {
                Some(v) => self@.contains_key(key@) && *v == self@[key@],
                None => !self@.contains_key(key@),
            },
    {
        let at = self.position(key);
        proof {
            use_type_invariant(self);
            lemma_sorted_no_duplicates(self.key_seq());
        }
        if at < self.entries.len() && text::same(self.entries[at].0.as_str(), key) {
            proof {
                lemma_pair_at(self.entries@, at as int);
            }
            Some(&self.entries[at].1)
        } else {
            proof {
                if self@.contains_key(key@) {
                    let ks = self.key_seq();
                    let j = ks.index_of(key@);
                    assert(ks[j] == key@);
                    assert(self.entries[j].0@ == key@);
                    text::text_less_irreflexive(key@);
                    assert(j >= at);
                    if j > at {
                        assert(text::text_less(ks[at as int], ks[j]));
                        assert(!text::text_less(self.entries[at as int].0@, key@));
                    }
                }
            }
            None
        }
    }

    /// Whether `key` is present.
    pub fn contains_key(&self, key: &str) -> (r: bool)
        ensures
            r == self@.contains_key(key@),
    {
        self.get(key).is_some()
    }

    /// Store `value` under `key`, replacing what was there.
    pub fn insert(&mut self, key: String, value: V)
        ensures
            final(self)@ == old(self)@.insert(key@, value),
    {
        let at = self.position(key.as_str());
        proof {
            use_type_invariant(&*self);
            lemma_sorted_no_duplicates(self.key_seq());
        }
        let ghost before = self.entries@;
        let ghost key_view = key@;
        let present = at < self.entries.len() && text::same(
            self.entries[at].0.as_str(),
            key.as_str(),
        );
        let mut entries: Vec<(String, V)> = Vec::new();
        core::mem::swap(&mut entries, &mut self.entries);
        if present {
            let _ = entries.remove(at);
        }
        entries.insert(at, (key, value));
        proof {
            let after = entries@;
            let bks = pair_keys(before);
            let aks = pair_keys(after);
            if present {
                assert(after =~= before.update(at as int, (key, value)));
                assert(aks =~= bks);
            } else {
                assert(after =~= before.insert(at as int, (key, value)));
                assert(aks =~= bks.insert(at as int, key_view));
                assert forall|i: int, j: int| 0 <= i < j < aks.len() implies text::text_less(
                    #[trigger] aks[i],
                    #[trigger] aks[j],
                ) by {
                    let pi = if i < at { i } else { i - 1 };
                    let pj = if j < at { j } else { j - 1 };
                    if i == at {
                        assert(aks[j] == bks[j - 1]);
                        assert(!text::text_less(before[j - 1].0@, key_view));
                        text::text_less_total(before[j - 1].0@, key_view);
                        if before[j - 1].0@ == key_view && j - 1 > at {
                            assert(text::text_less(bks[at as int], bks[j - 1]));
                            assert(!text::text_less(before[at as int].0@, key_view));
                        }
                    } else if j == at {
                        assert(aks[i] == bks[i]);
                        assert(text::text_less(before[i].0@, key_view));
                    } else {
                        assert(aks[i] == bks[pi] && aks[j] == bks[pj]);
                        assert(text::text_less(bks[pi], bks[pj]));
                    }
                }
            }
            assert(text::strictly_sorted(aks));
            lemma_sorted_no_duplicates(aks);
            assert(aks[at as int] == key_view);
            let want = pair_map(before).insert(key_view, value);
            assert forall|k: Seq<char>| #[trigger] pair_map(after).contains_key(k) == want.contains_key(k) by {
                if k == key_view {
                    assert(aks.contains(aks[at as int]));
                } else if bks.contains(k) {
                    let j = bks.index_of(k);
                    assert(bks[j] == k);
                    if present || j < at {
                        assert(aks[j] == k);
                    } else {
                        assert(aks[j + 1] == k);
                    }
                } else if aks.contains(k) {
                    let j = aks.index_of(k);
                    assert(aks[j] == k);
                    if present || j < at {
                        assert(bks[j] == k);
                    } else {
                        assert(bks[j - 1] == k);
                    }
                }
            }
            assert forall|k: Seq<char>| want.contains_key(k) implies #[trigger] pair_map(after)[k] == want[k] by {
                assert(pair_map(after).contains_key(k));
                let j = aks.index_of(k);
                assert(aks[j] == k && after[j].0@ == k);
                lemma_pair_at(after, j);
                if k != key_view {
                    assert(j != at);
                    let b = if present || j < at { j } else { j - 1 };
                    assert(after[j] == before[b]);
                    lemma_pair_at(before, b);
                } else {
                    assert(j == at);
                }
            }
            assert(pair_map(after) =~= want);
        }
        self.entries = entries;
    }

    /// Drop the entry under `key`; tells whether there was one.
    pub fn remove(&mut self, key: &str) -> (removed: bool)
        ensures
            removed == old(self)@.contains_key(key@),
            final(self)@ == old(self)@.remove(key@),
    {
        let found = self.contains_key(key);
        let at = self.position(key);
        proof {
            use_type_invariant(&*self);
            lemma_sorted_no_duplicates(self.key_seq());
        }
        if !found {
            assert(self@.remove(key@) =~= self@);
            return false;
        }
        let ghost before = self.entries@;
        proof {
            let bks = pair_keys(before);
            let j = bks.index_of(key@);
            assert(bks[j] == key@ && before[j].0@ == key@);
            text::text_less_irreflexive(key@);
            assert(j >= at);
            if j > at {
                assert(text::text_less(bks[at as int], bks[j]));
                assert(!text::text_less(before[at as int].0@, key@));
            }
            assert(j == at);
        }
        let mut entries: Vec<(String, V)> = Vec::new();
        core::mem::swap(&mut entries, &mut self.entries);
        let _ = entries.remove(at);
        proof {
            let after = entries@;
            let bks = pair_keys(before);
            let aks = pair_keys(after);
            assert(after =~= before.remove(at as int));
            assert(aks =~= bks.remove(at as int));
            assert forall|i: int, j: int| 0 <= i < j < aks.len() implies text::text_less(
                #[trigger] aks[i],
                #[trigger] aks[j],
            ) by {
                let pi = if i < at { i } else { i + 1 };
                let pj = if j < at { j } else { j + 1 };
                assert(aks[i] == bks[pi] && aks[j] == bks[pj]);
                assert(text::text_less(bks[pi], bks[pj]));
            }
            lemma_sorted_no_duplicates(aks);
            let want = pair_map(before).remove(key@);
            assert forall|k: Seq<char>| #[trigger] pair_map(after).contains_key(k) == want.contains_key(k) by {
                if bks.contains(k) && k != key@ {
                    let j = bks.index_of(k);
                    assert(bks[j] == k && j != at);
                    if j < at {
                        assert(aks[j] == k);
                    } else {
                        assert(aks[j - 1] == k);
                    }
                } else if aks.contains(k) {
                    let j = aks.index_of(k);
                    assert(aks[j] == k);
                    let b = if j < at { j } else { j + 1 };
                    assert(bks[b] == k);
                    assert(b != at);
                    assert(k != key@);
                }
            }
            assert forall|k: Seq<char>| want.contains_key(k) implies #[trigger] pair_map(after)[k] == want[k] by {
                assert(pair_map(after).contains_key(k));
                let j = aks.index_of(k);
                assert(aks[j] == k && after[j].0@ == k);
                lemma_pair_at(after, j);
                let b = if j < at { j } else { j + 1 };
                assert(after[j] == before[b]);
                lemma_pair_at(before, b);
            }
            assert(pair_map(after) =~= want);
        }
        self.entries = entries;
        true
    }

    /// The keys in ascending order.
    pub fn keys(&self) -> (r: Vec<String>)
        ensures
            text::views(r@) == self.key_seq(),
            text::strictly_sorted(text::views(r@)),
            forall|k: Seq<char>| text::views(r@).contains(k) <==> self@.contains_key(k),
    {
        let mut r: Vec<String> = Vec::new();
        for i in 0..self.entries.len()
            invariant
                text::views(r@) == self.key_seq().take(i as int),
        {
            let ghost before = r@;
            r.push(self.entries[i].0.clone());
            proof {
                text::lemma_views_push(before, self.entries@[i as int].0);
                assert(self.key_seq().take(i + 1) =~= self.key_seq().take(i as int).push(
                    self.key_seq()[i as int],
                ));
            }
        }
        proof {
            assert(self.key_seq().take(self.entries.len() as int) =~= self.key_seq());
            use_type_invariant(self);
            self.lemma_keys();
        }
        r
    }
}

} // verus!
