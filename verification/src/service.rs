//! The operations that callers invoke: each takes the store and plain values,
//! and answers with an entry, a list of entries, or an error.

use crate::codec::storable;
use crate::entry::{
    created, models, revised, EntryModel, PayloadModel, SkillExchangeEntry,
    SkillExchangeUpdatePayload,
};
use crate::search::{select, selector, SearchField};
use crate::store::{is_scan_of, SkillStore, StoreModel};
use crate::text::{
    delete_missing_text, framed, get_missing_text, update_missing_text, update_rejected_text,
};
use vstd::prelude::*;

verus! {

/// Why an operation did not produce an entry.
#[derive(Clone, Debug, PartialEq, Eq)]
pub enum Error {
    /// No entry has the requested id.
    NotFound { msg: String },
    /// The store does not accept the entry that the operation would write.
    NotStorable { msg: String },
}

impl Error {
    /// The message that the error carries.
    pub fn message(&self) -> (r: String)
        ensures
            r@ == match *self {
                Error::NotFound { msg } => msg@,
                Error::NotStorable { msg } => msg@,
            },
    {
        match self {
            Error::NotFound { msg } => msg.clone(),
            Error::NotStorable { msg } => msg.clone(),
        }
    }
}

/// What an update comes to.
pub ghost enum UpdateOutcome {
    Updated(EntryModel),
    Missing,
    Rejected,
}

/// The entry with id `id`, if the store holds one.
pub open spec fn model_get(s: StoreModel, id: u64) -> Option<EntryModel> {
    if s.records.contains_key(id) {
        Some(s.records[id])
    } else {
        None
    }
}

/// Adding: the new entry takes the next id and the counter advances, provided
/// that the id range is not used up and the store accepts the entry; otherwise
/// nothing changes.
pub open spec fn model_add(s: StoreModel, p: PayloadModel, now: u64) -> (StoreModel, Option<
    EntryModel,
>) {
    let e = created(p, s.next_id, now);
    if s.next_id < u64::MAX && storable(e) {
        (
            StoreModel { next_id: (s.next_id + 1) as u64, records: s.records.insert(s.next_id, e) },
            Some(e),
        )
    } else {
        (s, None)
    }
}

/// Updating: the entry with id `id` is replaced by its revision, provided that
/// there is one and the store accepts the revision; otherwise nothing changes.
pub open spec fn model_update(s: StoreModel, id: u64, p: PayloadModel, now: u64) -> (
    StoreModel,
    UpdateOutcome,
) {
    if !s.records.contains_key(id) {
        (s, UpdateOutcome::Missing)
    } else {
        let e = revised(s.records[id], p, now);
        if storable(e) {
            (
                StoreModel { next_id: s.next_id, records: s.records.insert(id, e) },
                UpdateOutcome::Updated(e),
            )
        } else {
            (s, UpdateOutcome::Rejected)
        }
    }
}

/// Deleting: the entry with id `id` leaves the store and is handed back, if
/// there is one; the counter stays.
pub open spec fn model_delete(s: StoreModel, id: u64) -> (StoreModel, Option<EntryModel>) {
    (StoreModel { next_id: s.next_id, records: s.records.remove(id) }, model_get(s, id))
}

/// Whether `out` is what a search of `m` returns: the entries of the scan of
/// `m` that meet the search, in scan order.
pub open spec fn is_search_of(
    out: Seq<EntryModel>,
    m: Map<u64, EntryModel>,
    field: SearchField,
    query: Seq<char>,
) -> bool {
    exists|all: Seq<EntryModel>| #[trigger]
        is_scan_of(all, m) && out == all.filter(selector(field, query))
}

/// Writes `entry` under its id, replacing what was there, if the store accepts
/// it. Returns whether it wrote.
pub fn do_insert_skill_exchange_entry(store: &mut SkillStore, entry: &SkillExchangeEntry) -> (r:
    bool)
    ensures
        r == storable(entry@),
        final(store)@.next_id == old(store)@.next_id,
        r ==> final(store)@.records == old(store)@.records.insert(entry.id, entry@),
        !r ==> final(store)@.records == old(store)@.records,
{
    store.insert(entry)
}

/// A copy of the entry with id `*id`, if there is one.
pub fn _get_skill_exchange_entry(store: &SkillStore, id: &u64) -> (r: Option<SkillExchangeEntry>)
    ensures
        match r {
            Some(e) => model_get(store@, *id) == Some(e@),
            None => model_get(store@, *id) is None,
        },
{
    store.get(*id)
}

/// A copy of the entry with id `id`, or `NotFound` with a message that names
/// the id.
pub fn get_skill_exchange_entry(store: &SkillStore, id: u64) -> (r: Result<
    SkillExchangeEntry,
    Error,
>)
    ensures
        match r {
            Ok(e) => model_get(store@, id) == Some(e@),
            Err(Error::NotFound { msg }) => model_get(store@, id) is None && msg@
                == get_missing_text(id),
            Err(Error::NotStorable { .. }) => false,
        },
{
    match _get_skill_exchange_entry(store, &id) {
        Some(entry) => Ok(entry),
        None => Err(
            Error::NotFound { msg: framed("a skill exchange entry with id=", id, " not found") },
        ),
    }
}

/// Adds the entry that `entry` describes, created at time `now`, under the
/// next id. Returns it, or `None` where the id range is used up or the store
/// does not accept the entry; then nothing has changed.
pub fn add_skill_exchange_entry(
    store: &mut SkillStore,
    entry: SkillExchangeUpdatePayload,
    now: u64,
) -> (r: Option<SkillExchangeEntry>)
    ensures
        final(store)@ == model_add(old(store)@, entry@, now).0,
        match r {
            Some(e) => model_add(old(store)@, entry@, now).1 == Some(e@),
            None => model_add(old(store)@, entry@, now).1 is None,
        },
{
    let id: u64 = store.peek_next_id();
    if id == u64::MAX {
        return None;
    }
    let skill_exchange_entry = SkillExchangeEntry::create(entry, id, now);
    if do_insert_skill_exchange_entry(store, &skill_exchange_entry) {
        let _ = store.next_id();
        Some(skill_exchange_entry)
    } else {
        None
    }
}

/// Replaces the mutable fields of the entry with id `id` by `payload` and sets
/// its update stamp to `now`. Returns the new entry; `NotFound` where there is
/// no such entry, `NotStorable` where the store does not accept the new one.
/// On an error nothing has changed.
pub fn update_skill_exchange_entry(
    store: &mut SkillStore,
    id: u64,
    payload: SkillExchangeUpdatePayload,
    now: u64,
) -> (r: Result<SkillExchangeEntry, Error>)
    ensures
        final(store)@ == model_update(old(store)@, id, payload@, now).0,
        match r {
            Ok(e) => model_update(old(store)@, id, payload@, now).1 == UpdateOutcome::Updated(e@),
            Err(Error::NotFound { msg }) => model_update(old(store)@, id, payload@, now).1
                == UpdateOutcome::Missing && msg@ == update_missing_text(id),
            Err(Error::NotStorable { msg }) => model_update(old(store)@, id, payload@, now).1
                == UpdateOutcome::Rejected && msg@ == update_rejected_text(id),
        },
{
    match store.get(id) {
        Some(current) => {
            let skill_exchange_entry = current.revise(payload, now);
            if do_insert_skill_exchange_entry(store, &skill_exchange_entry) {
                Ok(skill_exchange_entry)
            } else {
                Err(
                    Error::NotStorable {
                        msg: framed(
                            "couldn't update a skill exchange entry with id=",
                            id,
                            ". entry cannot be stored",
                        ),
                    },
                )
            }
        },
        None => Err(
            Error::NotFound {
                msg: framed(
                    "couldn't update a skill exchange entry with id=",
                    id,
                    ". entry not found",
                ),
            },
        ),
    }
}

/// Removes the entry with id `id` and returns it, or `NotFound` with a message
/// that names the id.
pub fn delete_skill_exchange_entry(store: &mut SkillStore, id: u64) -> (r: Result<
    SkillExchangeEntry,
    Error,
>)
    ensures
        final(store)@ == model_delete(old(store)@, id).0,
        match r {
            Ok(e) => model_delete(old(store)@, id).1 == Some(e@),
            Err(Error::NotFound { msg }) => model_delete(old(store)@, id).1 is None && msg@
                == delete_missing_text(id),
            Err(Error::NotStorable { .. }) => false,
        },
{
    match store.remove(id) {
        Some(skill_exchange_entry) => Ok(skill_exchange_entry),
        None => Err(
            Error::NotFound {
                msg: framed(
                    "couldn't delete a skill exchange entry with id=",
                    id,
                    ". entry not found.",
                ),
            },
        ),
    }
}

/// All entries, in ascending order of id.
pub fn get_all_skill_exchange_entries(store: &SkillStore) -> (r: Vec<SkillExchangeEntry>)
    ensures
        is_scan_of(models(r@), store@.records),
{
    store.scan_all()
}

/// The entries that meet the search for `query` in `field`, in ascending order
/// of id.
pub fn search_skill_exchange_entries(store: &SkillStore, field: SearchField, query: &String) -> (r:
    Vec<SkillExchangeEntry>)
    ensures
        is_search_of(models(r@), store@.records, field, query@),
{
    let all = store.scan_all();
    let out = select(&all, field, query);
    assert(is_scan_of(models(all@), store@.records) && models(out@) == models(all@).filter(
        selector(field, query@),
    ));
    out
}

/// The entries that list `skill` among their wanted skills.
pub fn search_skill_exchange_entries_by_skill_wanted(store: &SkillStore, skill: String) -> (r: Vec<
    SkillExchangeEntry,
>)
    ensures
        is_search_of(models(r@), store@.records, SearchField::SkillWanted, skill@),
{
    search_skill_exchange_entries(store, SearchField::SkillWanted, &skill)
}

/// The entries that list `skill` among their offered skills.
pub fn search_skill_exchange_entries_by_skill_offered(store: &SkillStore, skill: String) -> (r: Vec<
    SkillExchangeEntry,
>)
    ensures
        is_search_of(models(r@), store@.records, SearchField::SkillOffered, skill@),
{
    search_skill_exchange_entries(store, SearchField::SkillOffered, &skill)
}

/// The entries whose location is exactly `location`.
pub fn get_skill_exchange_entries_by_location(store: &SkillStore, location: String) -> (r: Vec<
    SkillExchangeEntry,
>)
    ensures
        is_search_of(models(r@), store@.records, SearchField::Location, location@),
{
    search_skill_exchange_entries(store, SearchField::Location, &location)
}

/// The entries whose category is exactly `category`.
pub fn get_skill_exchange_entries_by_category(store: &SkillStore, category: String) -> (r: Vec<
    SkillExchangeEntry,
>)
    ensures
        is_search_of(models(r@), store@.records, SearchField::Category, category@),
{
    search_skill_exchange_entries(store, SearchField::Category, &category)
}

} // verus!
