//! The record store: the id counter and the keyed records, with identity
//! assignment, point operations and the full scan in key order.

use crate::codec::{seal, storable, stored_entry, unseal};
use crate::durable::{
    attach, cell_get, cell_set, cell_value, lists_in_order, map_contents, map_get, map_insert,
    map_pairs, map_remove, ByteMap, IdCell,
};
use crate::entry::{models, EntryModel, SkillExchangeEntry};
use vstd::prelude::*;

verus! {

/// The mathematical value of a store: the id that the next added entry gets,
/// and the entries by id.
pub ghost struct StoreModel {
    pub next_id: u64,
    pub records: Map<u64, EntryModel>,
}

/// The entries that a byte map stores: under each key whose bytes read as an
/// entry with that id, that entry. Other keys hold no entry.
pub open spec fn records_of(contents: Map<u64, Seq<u8>>) -> Map<u64, EntryModel> {
    Map::new(
        |k: u64| contents.contains_key(k) && stored_entry(k, contents[k]) is Some,
        |k: u64| stored_entry(k, contents[k])->Some_0,
    )
}

/// Whether `s` holds an entry with id `k`.
pub open spec fn holds_id(s: Seq<EntryModel>, k: u64) -> bool {
    exists|i: int| 0 <= i < s.len() && (#[trigger] s[i]).id == k
}

/// Whether `s` is the scan of `m`: ids strictly ascending, each element the
/// entry that `m` holds under its id, and each id of `m` present.
pub open spec fn is_scan_of(s: Seq<EntryModel>, m: Map<u64, EntryModel>) -> bool {
    &&& forall|i: int, j: int| 0 <= i < j < s.len() ==> s[i].id < s[j].id
    &&& forall|i: int| 0 <= i < s.len() ==> m.contains_key((#[trigger] s[i]).id) && m[s[i].id] == s[i]
    &&& forall|k: u64| #[trigger] m.contains_key(k) ==> holds_id(s, k)
}

/// Well-formedness of a store's value: each entry sits under its own id.
pub open spec fn keyed_by_id(m: Map<u64, EntryModel>) -> bool {
    forall|k: u64| #[trigger] m.contains_key(k) ==> m[k].id == k
}

/// The durable store of skill exchange entries.
pub struct SkillStore {
    counter: IdCell,
    records: ByteMap,
}

impl View for SkillStore {
    type V = StoreModel;

    closed spec fn view(&self) -> StoreModel {
        StoreModel {
            next_id: cell_value(self.counter),
            records: records_of(map_contents(self.records)),
        }
    }
}

impl SkillStore {
    /// Every store's value is well formed.
    pub proof fn lemma_keyed_by_id(&self)
        ensures
            keyed_by_id(self@.records),
    {
    }

    /// Attaches a store to the default durable memory. What it holds is what
    /// that memory held; a memory never written holds no entry.
    pub fn new() -> (r: SkillStore) {
        let (counter, records) = attach();
        SkillStore { counter, records }
    }

    /// The id that the next added entry gets.
    pub fn peek_next_id(&self) -> (r: u64)
        ensures
            r == self@.next_id,
    {
        cell_get(&self.counter)
    }

    /// Hands out the next id and advances the counter by one. At the end of
    /// the id range nothing is handed out and nothing changes.
    pub fn next_id(&mut self) -> (r: Option<u64>)
        ensures
            final(self)@.records == old(self)@.records,
            match r {
                Some(id) => id == old(self)@.next_id && id < u64::MAX && final(self)@.next_id == id
                    + 1,
                None => old(self)@.next_id == u64::MAX && final(self)@.next_id == u64::MAX,
            },
    {
        let current: u64 = cell_get(&self.counter);
        if current == u64::MAX {
            None
        } else {
            let previous: u64 = cell_set(&mut self.counter, current + 1);
            Some(previous)
        }
    }

    /// Writes `entry` under its id, replacing what was there, if the store
    /// accepts it; otherwise changes nothing. Returns whether it wrote.
    pub fn insert(&mut self, entry: &SkillExchangeEntry) -> (r: bool)
        ensures
            r == storable(entry@),
            final(self)@.next_id == old(self)@.next_id,
            r ==> final(self)@.records == old(self)@.records.insert(entry.id, entry@),
            !r ==> final(self)@.records == old(self)@.records,
    {
        match seal(entry) {
            Some(bytes) => {
                let ghost before = map_contents(self.records);
                let ghost stored = bytes@;
                map_insert(&mut self.records, entry.id, bytes);
                proof {
                    assert(stored_entry(entry.id, stored) == Some(entry@));
                    assert(records_of(before.insert(entry.id, stored)) =~= records_of(
                        before,
                    ).insert(entry.id, entry@));
                }
                true
            },
            None => false,
        }
    }

    /// A copy of the entry with id `id`, if there is one.
    pub fn get(&self, id: u64) -> (r: Option<SkillExchangeEntry>)
        ensures
            match r {
                Some(e) => self@.records.contains_key(id) && self@.records[id] == e@ && e.id
                    == id,
                None => !self@.records.contains_key(id),
            },
    {
        match map_get(&self.records, id) {
            Some(bytes) => unseal(id, &bytes),
            None => None,
        }
    }

    /// Removes the entry with id `id` and returns it, if there is one.
    pub fn remove(&mut self, id: u64) -> (r: Option<SkillExchangeEntry>)
        ensures
            final(self)@.next_id == old(self)@.next_id,
            final(self)@.records == old(self)@.records.remove(id),
            match r {
                Some(e) => old(self)@.records.contains_key(id) && old(self)@.records[id] == e@,
                None => !old(self)@.records.contains_key(id),
            },
    {
        let ghost before = map_contents(self.records);
        let removed = map_remove(&mut self.records, id);
        proof {
            assert(records_of(before.remove(id)) =~= records_of(before).remove(id));
        }
        match removed {
            Some(bytes) => unseal(id, &bytes),
            None => None,
        }
    }

    /// All entries, in ascending order of id.
    pub fn scan_all(&self) -> (r: Vec<SkillExchangeEntry>)
        ensures
            is_scan_of(models(r@), self@.records),
    {
        let pairs = map_pairs(&self.records);
        let ghost contents = map_contents(self.records);
        let ghost m = records_of(contents);
        let mut out: Vec<SkillExchangeEntry> = Vec::new();
        let mut n: usize = 0;
        while n < pairs.len()
            invariant
                n <= pairs.len(),
                lists_in_order(pairs@, contents),
                m == records_of(contents),
                forall|i: int, j: int| 0 <= i < j < out.len() ==> out[i].id < out[j].id,
                forall|i: int|
                    0 <= i < out.len() ==> m.contains_key((#[trigger] out[i]).id) && m[out[i].id]
                        == out[i]@,
                forall|i: int, j: int|
                    0 <= i < out.len() && n <= j < pairs.len() ==> (#[trigger] out[i]).id
                        < (#[trigger] pairs[j]).0,
                forall|j: int|
                    0 <= j < n && m.contains_key((#[trigger] pairs[j]).0) ==> holds_id(
                        models(out@),
                        pairs[j].0,
                    ),
            decreases pairs.len() - n,
        {
            let key: u64 = pairs[n].0;
            let read = unseal(key, &pairs[n].1);
            let ghost prior = out@;
            assert(contents.contains_key(pairs[n as int].0));
            match read {
                Some(e) => {
                    out.push(e);
                    proof {
                        let last = out.len() - 1;
                        assert(out[last].id == key);
                        assert(models(out@)[last].id == key);
                        assert forall|j: int|
                            0 <= j < n + 1 && m.contains_key((#[trigger] pairs[j]).0) implies holds_id(
                            models(out@),
                            pairs[j].0,
                        ) by {
                            if j < n {
                                assert(holds_id(models(prior), pairs[j].0));
                                let i = choose|i: int|
                                    0 <= i < models(prior).len() && (#[trigger] models(
                                        prior,
                                    )[i]).id == pairs[j].0;
                                assert(models(out@)[i].id == pairs[j].0);
                            }
                        }
                    }
                },
                None => {
                    assert(!m.contains_key(key));
                },
            }
            n += 1;
        }
        proof {
            let s = models(out@);
            assert forall|k: u64| #[trigger] m.contains_key(k) implies holds_id(s, k) by {
                assert(contents.contains_key(k));
                let j = choose|j: int| 0 <= j < pairs.len() && #[trigger] pairs[j].0 == k;
                assert(m.contains_key(pairs[j].0));
            }
            assert forall|i: int| 0 <= i < s.len() implies m.contains_key((#[trigger] s[i]).id)
                && m[s[i].id] == s[i] by {
                assert(out[i]@ == s[i]);
            }
        }
        out
    }
}

} // verus!
