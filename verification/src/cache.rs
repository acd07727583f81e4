//! The cache index: at most one entry for each key.

use vstd::prelude::*;
use vstd::string::StringExecFns;
use crate::entry::CacheEntry;
use crate::entry::EntryView;

verus! {

/// The index that a list of entries stands for. Where two entries have the
/// same key, the later one counts.
pub open spec fn index_of(entries: Seq<EntryView>) -> Map<Seq<char>, EntryView>
    decreases entries.len(),
{
    if entries.len() == 0 {
        Map::empty()
    } else {
        index_of(entries.drop_last()).insert(entries.last().key, entries.last())
    }
}

/// No two entries of the list have the same key.
pub open spec fn distinct_keys(entries: Seq<EntryView>) -> bool {
    forall|i: int, j: int|
        0 <= i < j < entries.len() ==> (#[trigger] entries[i]).key != (#[trigger] entries[j]).key
}

/// The values of a list of entries.
pub open spec fn views_of(entries: Seq<CacheEntry>) -> Seq<EntryView> {
    entries.map_values(|e: CacheEntry| e@)
}

/// Whether some entry of the list has the key `key`.
pub open spec fn has_key(entries: Seq<EntryView>, key: Seq<char>) -> bool {
    exists|i: int| 0 <= i < entries.len() && (#[trigger] entries[i]).key == key
}

/// Every entry of an index is filed under its own key.
pub open spec fn filed_by_key(index: Map<Seq<char>, EntryView>) -> bool {
    forall|k: Seq<char>| #[trigger] index.contains_key(k) ==> index[k].key == k
}

/// The index of a list holds exactly the keys of the list's entries, each
/// entry under its own key, and finitely many of them.
pub proof fn lemma_index_of_keys(entries: Seq<EntryView>)
    ensures
        forall|k: Seq<char>| #[trigger] index_of(entries).contains_key(k) <==> has_key(entries, k),
        filed_by_key(index_of(entries)),
        index_of(entries).dom().finite(),
    decreases entries.len(),
{
    if entries.len() > 0 {
        let front = entries.drop_last();
        let last = entries.last();
        lemma_index_of_keys(front);
        assert forall|k: Seq<char>| #[trigger]
            index_of(entries).contains_key(k) <==> has_key(entries, k) by {
            if index_of(entries).contains_key(k) {
                if k == last.key {
                    assert(entries[entries.len() - 1].key == k);
                } else {
                    assert(index_of(front).contains_key(k));
                    let i = choose|i: int| 0 <= i < front.len() && (#[trigger] front[i]).key == k;
                    assert(entries[i].key == k);
                }
            }
            if has_key(entries, k) {
                let i = choose|i: int| 0 <= i < entries.len() && (#[trigger] entries[i]).key == k;
                if i < front.len() {
                    assert(front[i].key == k);
                    assert(index_of(front).contains_key(k));
                }
            }
        }
    }
}

/// In a list with distinct keys, each entry is what the index holds under
/// its key.
pub proof fn lemma_index_of_entry(entries: Seq<EntryView>, i: int)
    requires
        distinct_keys(entries),
        0 <= i < entries.len(),
    ensures
        index_of(entries).contains_key(entries[i].key),
        index_of(entries)[entries[i].key] == entries[i],
    decreases entries.len(),
{
    let front = entries.drop_last();
    if i < entries.len() - 1 {
        assert(distinct_keys(front)) by {
            assert forall|a: int, b: int| 0 <= a < b < front.len() implies (#[trigger] front[a]).key
                != (#[trigger] front[b]).key by {
                assert(entries[a].key != entries[b].key);
            }
        }
        lemma_index_of_entry(front, i);
        assert(front[i] == entries[i]);
        assert(entries[i].key != entries[entries.len() - 1].key);
    }
}

/// Replacing an entry by one with the same key files the new one in its
/// place.
pub proof fn lemma_index_of_update(entries: Seq<EntryView>, i: int, entry: EntryView)
    requires
        distinct_keys(entries),
        0 <= i < entries.len(),
        entries[i].key == entry.key,
    ensures
        distinct_keys(entries.update(i, entry)),
        index_of(entries.update(i, entry)) == index_of(entries).insert(entry.key, entry),
    decreases entries.len(),
{
    let updated = entries.update(i, entry);
    assert(distinct_keys(updated)) by {
        assert forall|a: int, b: int| 0 <= a < b < updated.len() implies (#[trigger] updated[a]).key
            != (#[trigger] updated[b]).key by {
            assert(entries[a].key != entries[b].key);
        }
    }
    let front = entries.drop_last();
    if i == entries.len() - 1 {
        assert(updated.drop_last() =~= front);
        assert(index_of(updated) =~= index_of(entries).insert(entry.key, entry));
    } else {
        assert(distinct_keys(front)) by {
            assert forall|a: int, b: int| 0 <= a < b < front.len() implies (#[trigger] front[a]).key
                != (#[trigger] front[b]).key by {
                assert(entries[a].key != entries[b].key);
            }
        }
        lemma_index_of_update(front, i, entry);
        assert(updated.drop_last() =~= front.update(i, entry));
        assert(entries[i].key != entries[entries.len() - 1].key);
        assert(index_of(updated) =~= index_of(entries).insert(entry.key, entry));
    }
}

/// Taking an entry out of a list with distinct keys takes its key out of the
/// index.
pub proof fn lemma_index_of_remove(entries: Seq<EntryView>, i: int)
    requires
        distinct_keys(entries),
        0 <= i < entries.len(),
    ensures
        distinct_keys(entries.remove(i)),
        index_of(entries.remove(i)) == index_of(entries).remove(entries[i].key),
    decreases entries.len(),
{
    let removed = entries.remove(i);
    assert(distinct_keys(removed)) by {
        assert forall|a: int, b: int| 0 <= a < b < removed.len() implies (#[trigger] removed[a]).key
            != (#[trigger] removed[b]).key by {
            let a0 = if a < i { a } else { a + 1 };
            let b0 = if b < i { b } else { b + 1 };
            assert(removed[a] == entries[a0]);
            assert(removed[b] == entries[b0]);
            assert(entries[a0].key != entries[b0].key);
        }
    }
    let front = entries.drop_last();
    assert(distinct_keys(front)) by {
        assert forall|a: int, b: int| 0 <= a < b < front.len() implies (#[trigger] front[a]).key
            != (#[trigger] front[b]).key by {
            assert(entries[a].key != entries[b].key);
        }
    }
    if i == entries.len() - 1 {
        assert(removed =~= front);
        lemma_index_of_keys(front);
        assert(!index_of(front).contains_key(entries[i].key)) by {
            if has_key(front, entries[i].key) {
                let j = choose|j: int| 0 <= j < front.len() && (#[trigger] front[j]).key == entries[i].key;
                assert(entries[j].key != entries[i].key);
            }
        }
        assert(index_of(removed) =~= index_of(entries).remove(entries[i].key));
    } else {
        lemma_index_of_remove(front, i);
        assert(removed.drop_last() =~= front.remove(i));
        assert(removed.last() == entries.last());
        assert(entries[i].key != entries[entries.len() - 1].key);
        assert(index_of(removed) =~= index_of(entries).remove(entries[i].key));
    }
}

/// Adding an entry at the end of a list files it under its key.
pub proof fn lemma_index_of_push(entries: Seq<EntryView>, entry: EntryView)
    ensures
        index_of(entries.push(entry)) == index_of(entries).insert(entry.key, entry),
        distinct_keys(entries) && !has_key(entries, entry.key) ==> distinct_keys(entries.push(entry)),
{
    let pushed = entries.push(entry);
    assert(pushed.drop_last() =~= entries);
    if distinct_keys(entries) && !has_key(entries, entry.key) {
        assert forall|a: int, b: int| 0 <= a < b < pushed.len() implies (#[trigger] pushed[a]).key
            != (#[trigger] pushed[b]).key by {
            if b == entries.len() {
                assert(entries[a].key != entry.key);
            } else {
                assert(entries[a].key != entries[b].key);
            }
        }
    }
}

/// A list with distinct keys has as many entries as its index.
pub proof fn lemma_index_of_len(entries: Seq<EntryView>)
    requires
        distinct_keys(entries),
    ensures
        index_of(entries).dom().finite(),
        index_of(entries).len() == entries.len(),
    decreases entries.len(),
{
    lemma_index_of_keys(entries);
    if entries.len() > 0 {
        let front = entries.drop_last();
        let last = entries.last();
        assert(distinct_keys(front)) by {
            assert forall|a: int, b: int| 0 <= a < b < front.len() implies (#[trigger] front[a]).key
                != (#[trigger] front[b]).key by {
                assert(entries[a].key != entries[b].key);
            }
        }
        lemma_index_of_len(front);
        lemma_index_of_keys(front);
        assert(!index_of(front).contains_key(last.key)) by {
            if has_key(front, last.key) {
                let j = choose|j: int| 0 <= j < front.len() && (#[trigger] front[j]).key == last.key;
                assert(entries[j].key != entries[entries.len() - 1].key);
            }
        }
        assert(index_of(entries).dom() =~= index_of(front).dom().insert(last.key));
    }
}

/// The index of cached URLs. It never holds two entries for one key.
#[derive(Debug)]
pub struct Cache {
    entries: Vec<CacheEntry>,
}

impl View for Cache {
    type V = Map<Seq<char>, EntryView>;

    /// The index as a map from key to entry.
    closed spec fn view(&self) -> Map<Seq<char>, EntryView> {
        index_of(views_of(self.entries@))
    }
}

impl Cache {
    #[verifier::type_invariant]
    spec fn well_formed(self) -> bool {
        distinct_keys(views_of(self.entries@))
    }

    /// Whatever the index holds, it holds each entry under the entry's own
    /// key, and it holds finitely many.
    pub proof fn lemma_filed_by_key(self)
        ensures
            filed_by_key(self@),
            self@.dom().finite(),
    {
        lemma_index_of_keys(views_of(self.entries@));
    }

    /// An index with no entries.
    pub fn new() -> (cache: Cache)
        ensures
            cache@ == Map::<Seq<char>, EntryView>::empty(),
    {
        Cache { entries: Vec::new() }
    }

    /// The index of a list of entries, as read from a stored index. Where the
    /// list has two entries for one key, the later one is kept.
    pub fn from_entries(entries: &Vec<CacheEntry>) -> (cache: Cache)
        ensures
            cache@ == index_of(views_of(entries@)),
    {
        let mut cache = Cache::new();
        let mut i: usize = 0;
        while i < entries.len()
            invariant
                i <= entries@.len(),
                cache@ == index_of(views_of(entries@).take(i as int)),
            decreases entries@.len() - i,
        {
            proof {
                let upto = views_of(entries@).take(i + 1);
                assert(upto.drop_last() =~= views_of(entries@).take(i as int));
                assert(upto.last() == entries@[i as int]@);
            }
            cache.insert(entries[i].clone());
            i = i + 1;
        }
        proof {
            assert(views_of(entries@).take(i as int) =~= views_of(entries@));
        }
        cache
    }

    /// The entries of the index, no key twice.
    pub fn entries(&self) -> (list: Vec<CacheEntry>)
        ensures
            distinct_keys(views_of(list@)),
            index_of(views_of(list@)) == self@,
            list@.len() == self@.len(),
    {
        proof {
            use_type_invariant(self);
            lemma_index_of_len(views_of(self.entries@));
        }
        let mut list: Vec<CacheEntry> = Vec::new();
        let mut i: usize = 0;
        while i < self.entries.len()
            invariant
                i <= self.entries@.len(),
                list@.len() == i,
                views_of(list@) == views_of(self.entries@).take(i as int),
            decreases self.entries@.len() - i,
        {
            let ghost before = list@;
            list.push(self.entries[i].clone());
            proof {
                let target = views_of(self.entries@).take(i + 1);
                assert forall|j: int| 0 <= j < target.len() implies views_of(list@)[j] == target[j] by {
                    if j < i {
                        assert(views_of(before)[j] == views_of(self.entries@).take(i as int)[j]);
                    }
                }
                assert(views_of(list@) =~= target);
            }
            i = i + 1;
        }
        proof {
            assert(views_of(self.entries@).take(i as int) =~= views_of(self.entries@));
        }
        list
    }

    /// How many entries the index holds.
    pub fn len(&self) -> (n: usize)
        ensures
            n == self@.len(),
            self@.dom().finite(),
    {
        proof {
            use_type_invariant(self);
            lemma_index_of_len(views_of(self.entries@));
        }
        self.entries.len()
    }

    /// Whether the index holds no entry.
    pub fn is_empty(&self) -> (empty: bool)
        ensures
            empty == (self@ == Map::<Seq<char>, EntryView>::empty()),
    {
        proof {
            use_type_invariant(self);
            lemma_index_of_len(views_of(self.entries@));
            if self@.len() == 0 {
                assert(self@ =~= Map::<Seq<char>, EntryView>::empty());
            }
        }
        self.entries.len() == 0
    }

    /// Where in the list the entry for `key` stands, if there is one.
    fn position(&self, key: &String) -> (found: Option<usize>)
        ensures
            match found {
                Some(i) => i < self.entries@.len() && self.entries@[i as int]@.key == key@,
                None => !has_key(views_of(self.entries@), key@),
            },
    {
        let mut i: usize = 0;
        while i < self.entries.len()
            invariant
                i <= self.entries@.len(),
                forall|j: int| 0 <= j < i ==> (#[trigger] views_of(self.entries@)[j]).key != key@,
            decreases self.entries@.len() - i,
        {
            if self.entries[i].key == *key {
                return Some(i);
            }
            i = i + 1;
        }
        None
    }

    /// The entry filed under `key`, if there is one.
    pub fn get(&self, key: &str) -> (found: Option<&CacheEntry>)
        ensures
            match found {
                Some(entry) => self@.contains_key(key@) && entry@ == self@[key@],
                None => !self@.contains_key(key@),
            },
    {
        proof {
            use_type_invariant(self);
            lemma_index_of_keys(views_of(self.entries@));
        }
        let key = String::from_str(key);
        match self.position(&key) {
            Some(i) => {
                proof {
                    lemma_index_of_entry(views_of(self.entries@), i as int);
                }
                Some(&self.entries[i])
            },
            None => None,
        }
    }

    /// Whether an entry is filed under `key`.
    pub fn contains_key(&self, key: &str) -> (found: bool)
        ensures
            found == self@.contains_key(key@),
    {
        self.get(key).is_some()
    }

    /// Files `entry` under its key and hands back the entry that it replaces,
    /// if there was one.
    pub fn insert(&mut self, entry: CacheEntry) -> (replaced: Option<CacheEntry>)
        ensures
            final(self)@ == old(self)@.insert(entry@.key, entry@),
            match replaced {
                Some(prior) => old(self)@.contains_key(entry@.key) && prior@ == old(self)@[entry@.key],
                None => !old(self)@.contains_key(entry@.key),
            },
    {
        proof {
            use_type_invariant(&*self);
            lemma_index_of_keys(views_of(self.entries@));
        }
        let found = self.position(&entry.key);
        let mut entries = Vec::new();
        std::mem::swap(&mut entries, &mut self.entries);
        let ghost before = views_of(entries@);
        let replaced = match found {
            Some(i) => {
                proof {
                    lemma_index_of_entry(before, i as int);
                    lemma_index_of_update(before, i as int, entry@);
                }
                let mut slot = entry;
                std::mem::swap(&mut slot, &mut entries[i]);
                assert(views_of(entries@) =~= before.update(i as int, entry@));
                Some(slot)
            },
            None => {
                proof {
                    lemma_index_of_push(before, entry@);
                }
                entries.push(entry);
                assert(views_of(entries@) =~= before.push(entry@));
                None
            },
        };
        self.entries = entries;
        replaced
    }

    /// Takes the entry for `key` out of the index and hands it back, if there
    /// was one.
    pub fn remove(&mut self, key: &str) -> (removed: Option<CacheEntry>)
        ensures
            final(self)@ == old(self)@.remove(key@),
            match removed {
                Some(entry) => old(self)@.contains_key(key@) && entry@ == old(self)@[key@],
                None => !old(self)@.contains_key(key@),
            },
    {
        proof {
            use_type_invariant(&*self);
            lemma_index_of_keys(views_of(self.entries@));
        }
        let key = String::from_str(key);
        match self.position(&key) {
            Some(i) => {
                let mut entries = Vec::new();
                std::mem::swap(&mut entries, &mut self.entries);
                let ghost before = views_of(entries@);
                proof {
                    lemma_index_of_entry(before, i as int);
                    lemma_index_of_remove(before, i as int);
                }
                let entry = entries.remove(i);
                assert(views_of(entries@) =~= before.remove(i as int));
                self.entries = entries;
                Some(entry)
            },
            None => {
                assert(self@ =~= old(self)@.remove(key@));
                None
            },
        }
    }
}

} // verus!
