//! The record cache: which records the resolver holds, under their keys.
use vstd::prelude::*;

use crate::record::{
    enabled_of, entry_of, key_of, EntryView, HostOverrideRecord, HostOverrideView, KeyView, RecordEntry, RecordError,
    Recordkey,
};

verus! {

/// A cache of the resolver's records, filed by key. Each operation derives
/// the key (and, to insert, the entry) from a resolver row.
pub trait RecordCache: Sized {
    /// The cached entries, by key.
    spec fn records(&self) -> Map<KeyView, EntryView>;

    /// The entry cached under the row's key.
    fn try_get_record(&self, record: &HostOverrideRecord) -> (r: Result<Option<RecordEntry>, RecordError>)
        ensures
            match key_of(record@) {
                None => r == Err::<Option<RecordEntry>, RecordError>(RecordError::UnknownRecordType),
                Some(k) => r is Ok && match r->Ok_0 {
                    None => !self.records().contains_key(k),
                    Some(e) => self.records().contains_key(k) && self.records()[k] == e@,
                },
            },
    ;

    /// Files the row's entry under its key, in place of any earlier entry,
    /// which is returned.
    fn try_insert_record(&mut self, record: &HostOverrideRecord) -> (r: Result<Option<RecordEntry>, RecordError>)
        ensures
            match (key_of(record@), entry_of(record@)) {
                (None, _) => r == Err::<Option<RecordEntry>, RecordError>(RecordError::UnknownRecordType)
                    && final(self).records() == old(self).records(),
                (Some(k), None) => r == Err::<Option<RecordEntry>, RecordError>(RecordError::UnknownEnabledState)
                    && final(self).records() == old(self).records(),
                (Some(k), Some(e)) => final(self).records() == old(self).records().insert(k, e)
                    && r is Ok && match r->Ok_0 {
                        None => !old(self).records().contains_key(k),
                        Some(p) => old(self).records().contains_key(k) && old(self).records()[k] == p@,
                    },
            },
    ;

    /// Drops the entry filed under the row's key, if there is one.
    fn try_remove_record(&mut self, record: &HostOverrideRecord) -> (r: Result<(), RecordError>)
        ensures
            match key_of(record@) {
                None => r == Err::<(), RecordError>(RecordError::UnknownRecordType)
                    && final(self).records() == old(self).records(),
                Some(k) => r == Ok::<(), RecordError>(()) && final(self).records() == old(self).records().remove(k),
            },
    ;

    /// Drops every entry.
    fn clear(&mut self)
        ensures
            final(self).records() == Map::<KeyView, EntryView>::empty(),
    ;
}

/// A row filed in a cache is found again under its key, with the row's
/// identifier and enabled state, whatever else the cache holds.
pub proof fn lemma_insert_then_get(records: Map<KeyView, EntryView>, row: HostOverrideView)
    requires
        key_of(row) is Some,
        entry_of(row) is Some,
    ensures
        ({
            let k = key_of(row)->Some_0;
            let after = records.insert(k, entry_of(row)->Some_0);
            after.contains_key(k) && after[k] == (row.uuid, enabled_of(row.enabled)->Some_0)
        }),
{
}

/// A cleared cache finds no key, whatever it held before.
pub proof fn lemma_clear_forgets(before: Map<KeyView, EntryView>, k: KeyView)
    requires
        before.contains_key(k),
    ensures
        !Map::<KeyView, EntryView>::empty().contains_key(k),
{
}

/// The record cache kept in memory: one entry per key, in the order the keys
/// were first filed.
pub struct DefaultRecordCache {
    entries: Vec<(Recordkey, RecordEntry)>,
    map: Ghost<Map<KeyView, EntryView>>,
}

impl DefaultRecordCache {
    #[verifier::type_invariant]
    spec fn inv(self) -> bool {
        &&& forall|i: int, j: int|
            0 <= i < j < self.entries@.len() ==> #[trigger] self.entries@[i].0@ != #[trigger] self.entries@[j].0@
        &&& forall|i: int|
            0 <= i < self.entries@.len() ==> #[trigger] self.map@.contains_key(self.entries@[i].0@)
                && self.map@[self.entries@[i].0@] == self.entries@[i].1@
        &&& forall|k: KeyView|
            #[trigger] self.map@.contains_key(k) ==> exists|i: int|
                0 <= i < self.entries@.len() && #[trigger] self.entries@[i].0@ == k
    }

    /// An empty cache.
    pub fn new() -> (r: Self)
        ensures
            r.records() == Map::<KeyView, EntryView>::empty(),
    {
        DefaultRecordCache { entries: Vec::new(), map: Ghost(Map::empty()) }
    }

    /// The number of cached entries.
    pub fn len(&self) -> (r: usize)
        ensures
            r as nat == self.records().len(),
    {
        proof {
            use_type_invariant(self);
            self.lemma_len();
        }
        self.entries.len()
    }

    proof fn lemma_len(&self)
        requires
            self.inv(),
        ensures
            self.map@.dom().finite(),
            self.map@.len() == self.entries@.len(),
    {
        let keys = Seq::new(self.entries@.len(), |i: int| self.entries@[i].0@);
        assert(keys.no_duplicates());
        assert forall|k: KeyView| self.map@.dom().contains(k) implies keys.to_set().contains(k) by {
            let i = choose|i: int| 0 <= i < self.entries@.len() && #[trigger] self.entries@[i].0@ == k;
            assert(keys[i] == k);
        }
        assert forall|k: KeyView| keys.to_set().contains(k) implies self.map@.dom().contains(k) by {
            let i = choose|i: int| 0 <= i < keys.len() && keys[i] == k;
            assert(self.map@.contains_key(self.entries@[i].0@));
        }
        assert(self.map@.dom() =~= keys.to_set());
        keys.unique_seq_to_set();
    }

    /// Where the key is filed, if it is.
    fn position(&self, key: &Recordkey) -> (r: Option<usize>)
        ensures
            match r {
                Some(i) => i < self.entries@.len() && self.entries@[i as int].0@ == key@,
                None => forall|i: int| 0 <= i < self.entries@.len() ==> self.entries@[i].0@ != key@,
            },
    {
        let mut i: usize = 0;
        while i < self.entries.len()
            invariant
                i <= self.entries@.len(),
                forall|j: int| 0 <= j < i ==> self.entries@[j].0@ != key@,
            decreases self.entries@.len() - i,
        {
            if self.entries[i].0 == *key {
                return Some(i);
            }
            i += 1;
        }
        None
    }

    /// The entry filed under a key.
    pub fn get(&self, key: &Recordkey) -> (r: Option<RecordEntry>)
        ensures
            match r {
                Some(e) => self.records().contains_key(key@) && self.records()[key@] == e@,
                None => !self.records().contains_key(key@),
            },
    {
        proof {
            use_type_invariant(self);
        }
        match self.position(key) {
            Some(i) => {
                proof {
                    assert(self.map@.contains_key(self.entries@[i as int].0@));
                }
                Some(self.entries[i].1.clone())
            },
            None => {
                proof {
                    if self.map@.contains_key(key@) {
                        let j = choose|j: int| 0 <= j < self.entries@.len() && #[trigger] self.entries@[j].0@ == key@;
                        assert(self.entries@[j].0@ != key@);
                    }
                }
                None
            },
        }
    }

    /// Files an entry under a key, in place of any earlier entry, which is
    /// returned.
    pub fn insert(&mut self, key: Recordkey, entry: RecordEntry) -> (r: Option<RecordEntry>)
        ensures
            final(self).records() == old(self).records().insert(key@, entry@),
            match r {
                None => !old(self).records().contains_key(key@),
                Some(p) => old(self).records().contains_key(key@) && old(self).records()[key@] == p@,
            },
    {
        let mut taken = DefaultRecordCache::new();
        std::mem::swap(self, &mut taken);
        proof {
            use_type_invariant(&taken);
        }
        let ghost k = key@;
        let ghost e = entry@;
        let ghost new_map = taken.map@.insert(k, e);
        let found = taken.position(&key);
        let DefaultRecordCache { mut entries, map } = taken;
        let ghost before = entries@;
        let previous = match found {
            Some(i) => {
                assert(map@.contains_key(before[i as int].0@));
                let previous = entries[i].1.clone();
                entries.set(i, (key, entry));
                assert forall|k2: KeyView| #[trigger] new_map.contains_key(k2) implies exists|j: int|
                    0 <= j < entries@.len() && #[trigger] entries@[j].0@ == k2 by {
                    if k2 != k {
                        assert(map@.contains_key(k2));
                        let j = choose|j: int| 0 <= j < before.len() && #[trigger] before[j].0@ == k2;
                        assert(entries@[j].0@ == k2);
                    } else {
                        assert(entries@[i as int].0@ == k2);
                    }
                }
                assert forall|a: int, b: int|
                    0 <= a < b < entries@.len() implies #[trigger] entries@[a].0@
                        != #[trigger] entries@[b].0@ by {
                    assert(before[a].0@ != before[b].0@);
                }
                assert forall|a: int| 0 <= a < entries@.len() implies #[trigger] new_map.contains_key(
                    entries@[a].0@,
                ) && new_map[entries@[a].0@] == entries@[a].1@ by {
                    if a != i {
                        assert(map@.contains_key(before[a].0@));
                    }
                }
                Some(previous)
            },
            None => {
                proof {
                    if map@.contains_key(k) {
                        let j = choose|j: int| 0 <= j < before.len() && #[trigger] before[j].0@ == k;
                        assert(before[j].0@ != k);
                    }
                }
                entries.push((key, entry));
                let ghost n = entries@.len() - 1;
                assert forall|k2: KeyView| #[trigger] new_map.contains_key(k2) implies exists|j: int|
                    0 <= j < entries@.len() && #[trigger] entries@[j].0@ == k2 by {
                    if k2 != k {
                        assert(map@.contains_key(k2));
                        let j = choose|j: int| 0 <= j < before.len() && #[trigger] before[j].0@ == k2;
                        assert(entries@[j].0@ == k2);
                    } else {
                        assert(entries@[n].0@ == k2);
                    }
                }
                assert forall|a: int, b: int|
                    0 <= a < b < entries@.len() implies #[trigger] entries@[a].0@
                        != #[trigger] entries@[b].0@ by {
                    if b < n {
                        assert(before[a].0@ != before[b].0@);
                    }
                }
                assert forall|a: int| 0 <= a < entries@.len() implies #[trigger] new_map.contains_key(
                    entries@[a].0@,
                ) && new_map[entries@[a].0@] == entries@[a].1@ by {
                    if a < n {
                        assert(map@.contains_key(before[a].0@));
                    }
                }
                None
            },
        };
        *self = DefaultRecordCache { entries, map: Ghost(new_map) };
        previous
    }

    /// Drops the entry filed under a key, if there is one.
    pub fn remove(&mut self, key: &Recordkey)
        ensures
            final(self).records() == old(self).records().remove(key@),
    {
        let mut taken = DefaultRecordCache::new();
        std::mem::swap(self, &mut taken);
        proof {
            use_type_invariant(&taken);
        }
        let ghost k = key@;
        let ghost new_map = taken.map@.remove(k);
        let found = taken.position(key);
        let DefaultRecordCache { mut entries, map } = taken;
        let ghost before = entries@;
        match found {
            Some(i) => {
                let _ = entries.remove(i);
                assert forall|a: int, b: int|
                    0 <= a < b < entries@.len() implies #[trigger] entries@[a].0@
                        != #[trigger] entries@[b].0@ by {
                    let a0 = if a < i { a } else { a + 1 };
                    let b0 = if b < i { b } else { b + 1 };
                    assert(entries@[a] == before[a0]);
                    assert(entries@[b] == before[b0]);
                }
                assert forall|a: int| 0 <= a < entries@.len() implies #[trigger] new_map.contains_key(
                    entries@[a].0@,
                ) && new_map[entries@[a].0@] == entries@[a].1@ by {
                    let a0 = if a < i { a } else { a + 1 };
                    assert(entries@[a] == before[a0]);
                    assert(before[a0].0@ != before[i as int].0@);
                    assert(map@.contains_key(before[a0].0@));
                }
                assert forall|k2: KeyView| #[trigger] new_map.contains_key(k2) implies exists|j: int|
                    0 <= j < entries@.len() && #[trigger] entries@[j].0@ == k2 by {
                    let j = choose|j: int| 0 <= j < before.len() && #[trigger] before[j].0@ == k2;
                    assert(j != i);
                    let j2 = if j < i { j } else { j - 1 };
                    assert(entries@[j2] == before[j]);
                }
            },
            None => {
                assert(map@ =~= new_map);
            },
        }
        *self = DefaultRecordCache { entries, map: Ghost(new_map) };
    }

    /// Drops every entry.
    pub fn clear_all(&mut self)
        ensures
            final(self).records() == Map::<KeyView, EntryView>::empty(),
    {
        *self = DefaultRecordCache::new();
    }
}

impl RecordCache for DefaultRecordCache {
    closed spec fn records(&self) -> Map<KeyView, EntryView> {
        self.map@
    }

    fn try_get_record(&self, record: &HostOverrideRecord) -> (r: Result<Option<RecordEntry>, RecordError>) {
        let key = Recordkey::from_record(record)?;
        Ok(self.get(&key))
    }

    fn try_insert_record(&mut self, record: &HostOverrideRecord) -> (r: Result<Option<RecordEntry>, RecordError>) {
        let key = Recordkey::from_record(record)?;
        let entry = RecordEntry::from_record(record)?;
        Ok(self.insert(key, entry))
    }

    fn try_remove_record(&mut self, record: &HostOverrideRecord) -> (r: Result<(), RecordError>) {
        let key = Recordkey::from_record(record)?;
        self.remove(&key);
        Ok(())
    }

    fn clear(&mut self) {
        self.clear_all();
    }
}

} // verus!
