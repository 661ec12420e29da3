//! What holds of the operations, stated over the store's mathematical value.

use crate::entry::{EntryModel, PayloadModel};
use crate::search::{meets, selector, SearchField};
use crate::service::{
    is_search_of, model_add, model_delete, model_get, model_update, UpdateOutcome,
};
use crate::store::{holds_id, is_scan_of, keyed_by_id, StoreModel};
use vstd::prelude::*;

verus! {

/// One state-changing operation.
pub ghost enum Step {
    Add { payload: PayloadModel, now: u64 },
    Update { id: u64, payload: PayloadModel, now: u64 },
    Delete { id: u64 },
}

/// The store after one operation.
pub open spec fn after(s: StoreModel, step: Step) -> StoreModel {
    match step {
        Step::Add { payload, now } => model_add(s, payload, now).0,
        Step::Update { id, payload, now } => model_update(s, id, payload, now).0,
        Step::Delete { id } => model_delete(s, id).0,
    }
}

/// The store after a sequence of operations, the first of them first.
pub open spec fn after_all(s: StoreModel, steps: Seq<Step>) -> StoreModel
    decreases steps.len(),
{
    if steps.len() == 0 {
        s
    } else {
        after(after_all(s, steps.drop_last()), steps.last())
    }
}

/// For an id that the store does not hold, `get` finds nothing, `delete`
/// removes nothing and leaves the store as it was, and `update` reports the
/// entry missing and leaves the store as it was.
pub proof fn lemma_absent_id_is_not_found(s: StoreModel, id: u64, payload: PayloadModel, now: u64)
    requires
        !s.records.contains_key(id),
    ensures
        model_get(s, id) is None,
        model_delete(s, id).1 is None,
        model_delete(s, id).0 == s,
        model_update(s, id, payload, now) == (s, UpdateOutcome::Missing),
{
    assert(s.records.remove(id) =~= s.records);
}

/// An added entry is what `get` of its id then returns; it carries the
/// payload's fields unchanged, the creation time, the id that was next, and no
/// update stamp.
pub proof fn lemma_add_then_get(s: StoreModel, payload: PayloadModel, now: u64)
    ensures
        match model_add(s, payload, now).1 {
            Some(e) => {
                &&& model_get(model_add(s, payload, now).0, e.id) == Some(e)
                &&& e.id == s.next_id
                &&& e.created_at == now
                &&& e.updated_at is None
                &&& e.title == payload.title
                &&& e.description == payload.description
                &&& e.category == payload.category
                &&& e.skills_offered == payload.skills_offered
                &&& e.skills_wanted == payload.skills_wanted
                &&& e.location == payload.location
            },
            None => model_add(s, payload, now).0 == s,
        },
{
}

/// No operation lowers the id counter.
pub proof fn lemma_counter_never_decreases(s: StoreModel, steps: Seq<Step>)
    ensures
        s.next_id <= after_all(s, steps).next_id,
    decreases steps.len(),
{
    if steps.len() > 0 {
        lemma_counter_never_decreases(s, steps.drop_last());
    }
}

/// Of two entries added one after the other, with any operations in between,
/// the later one has the greater id.
pub proof fn lemma_ids_strictly_increase(
    s: StoreModel,
    first: PayloadModel,
    first_now: u64,
    between: Seq<Step>,
    second: PayloadModel,
    second_now: u64,
)
    ensures
        ({
            let one = model_add(s, first, first_now);
            let two = model_add(after_all(one.0, between), second, second_now);
            one.1 is Some && two.1 is Some ==> one.1->Some_0.id < two.1->Some_0.id
        }),
{
    lemma_counter_never_decreases(model_add(s, first, first_now).0, between);
}

/// An update of an entry that the store holds does not report it missing, and
/// the entry it returns keeps the id, the owner and the creation stamp, and is
/// stamped with the time of the update; that stamp is no earlier than the
/// creation stamp where the clock has not gone back.
pub proof fn lemma_update_keeps_identity(s: StoreModel, id: u64, payload: PayloadModel, now: u64)
    requires
        keyed_by_id(s.records),
        s.records.contains_key(id),
    ensures
        match model_update(s, id, payload, now).1 {
            UpdateOutcome::Updated(e) => {
                &&& e.id == id
                &&& e.user_id == s.records[id].user_id
                &&& e.created_at == s.records[id].created_at
                &&& e.updated_at == Some(now)
                &&& s.records[id].created_at <= now ==> e.created_at <= e.updated_at->Some_0
                &&& model_get(model_update(s, id, payload, now).0, id) == Some(e)
            },
            UpdateOutcome::Missing => false,
            UpdateOutcome::Rejected => model_update(s, id, payload, now).0 == s,
        },
{
}

/// After a delete, `get` of the id finds nothing, and neither the scan nor any
/// search holds an entry with that id.
pub proof fn lemma_delete_then_absent(
    s: StoreModel,
    id: u64,
    all: Seq<EntryModel>,
    field: SearchField,
    query: Seq<char>,
    found: Seq<EntryModel>,
)
    requires
        is_scan_of(all, model_delete(s, id).0.records),
        is_search_of(found, model_delete(s, id).0.records, field, query),
    ensures
        model_get(model_delete(s, id).0, id) is None,
        !holds_id(all, id),
        !holds_id(found, id),
{
    let m = model_delete(s, id).0.records;
    if holds_id(found, id) {
        let i = choose|i: int| 0 <= i < found.len() && (#[trigger] found[i]).id == id;
        lemma_search_is_exact(m, field, query, found, found[i]);
        assert(found.contains(found[i]));
    }
}

/// A search returns exactly the stored entries that meet it: an entry is in
/// the result if and only if the store holds it under its id and it meets the
/// search.
pub proof fn lemma_search_is_exact(
    m: Map<u64, EntryModel>,
    field: SearchField,
    query: Seq<char>,
    found: Seq<EntryModel>,
    e: EntryModel,
)
    requires
        is_search_of(found, m, field, query),
    ensures
        found.contains(e) <==> (m.contains_key(e.id) && m[e.id] == e && meets(e, field, query)),
{
    let all = choose|all: Seq<EntryModel>| #[trigger]
        is_scan_of(all, m) && found == all.filter(selector(field, query));
    let pred = selector(field, query);
    if found.contains(e) {
        let i = choose|i: int| 0 <= i < found.len() && found[i] == e;
        all.lemma_filter_pred(pred, i);
        all.lemma_filter_contains_rev(pred, e);
        let j = choose|j: int| 0 <= j < all.len() && all[j] == e;
        assert(m.contains_key(all[j].id));
    }
    if m.contains_key(e.id) && m[e.id] == e && meets(e, field, query) {
        assert(holds_id(all, e.id));
        let j = choose|j: int| 0 <= j < all.len() && (#[trigger] all[j]).id == e.id;
        assert(all[j] == e);
        assert(pred(all[j]));
        all.lemma_filter_contains(pred, j);
    }
}

/// Where no stored entry meets a search, the search returns the empty list.
pub proof fn lemma_search_empty_when_none_match(
    m: Map<u64, EntryModel>,
    field: SearchField,
    query: Seq<char>,
    found: Seq<EntryModel>,
)
    requires
        is_search_of(found, m, field, query),
        forall|k: u64| #[trigger] m.contains_key(k) ==> !meets(m[k], field, query),
    ensures
        found.len() == 0,
{
    if found.len() > 0 {
        assert(found.contains(found[0]));
        lemma_search_is_exact(m, field, query, found, found[0]);
    }
}

/// Where the ids of two scans of one store agree below `n`, they agree at `n`.
proof fn lemma_scans_agree_at(a: Seq<EntryModel>, b: Seq<EntryModel>, m: Map<u64, EntryModel>, n: int)
    requires
        is_scan_of(a, m),
        is_scan_of(b, m),
        0 <= n < a.len(),
        n < b.len(),
        forall|j: int| 0 <= j < n ==> a[j].id == b[j].id,
    ensures
        a[n].id <= b[n].id,
{
    if a[n].id > b[n].id {
        assert(m.contains_key(b[n].id));
        assert(holds_id(a, b[n].id));
        let j = choose|j: int| 0 <= j < a.len() && (#[trigger] a[j]).id == b[n].id;
        if j < n {
            assert(b[j].id == b[n].id);
        } else if j > n {
            assert(a[n].id < a[j].id);
        }
    }
}

/// Two scans of one store agree on the ids of their first `n` entries.
proof fn lemma_scans_agree_below(
    a: Seq<EntryModel>,
    b: Seq<EntryModel>,
    m: Map<u64, EntryModel>,
    n: int,
)
    requires
        is_scan_of(a, m),
        is_scan_of(b, m),
        0 <= n <= a.len(),
        n <= b.len(),
    ensures
        forall|j: int| 0 <= j < n ==> a[j].id == b[j].id,
    decreases n,
{
    if n > 0 {
        lemma_scans_agree_below(a, b, m, n - 1);
        lemma_scans_agree_at(a, b, m, n - 1);
        lemma_scans_agree_at(b, a, m, n - 1);
    }
}

/// A scan of one store is no longer than another scan of it.
proof fn lemma_scan_no_longer(a: Seq<EntryModel>, b: Seq<EntryModel>, m: Map<u64, EntryModel>)
    requires
        is_scan_of(a, m),
        is_scan_of(b, m),
    ensures
        a.len() <= b.len(),
{
    if a.len() > b.len() {
        let n = b.len() as int;
        lemma_scans_agree_below(a, b, m, n);
        assert(m.contains_key(a[n].id));
        assert(holds_id(b, a[n].id));
        let j = choose|j: int| 0 <= j < b.len() && (#[trigger] b[j]).id == a[n].id;
        assert(a[j].id == a[n].id);
    }
}

/// A store has one scan: the entries it holds, in ascending order of id. So
/// the scan, and with it each search, is fixed by the store's value.
pub proof fn lemma_scan_is_unique(a: Seq<EntryModel>, b: Seq<EntryModel>, m: Map<u64, EntryModel>)
    requires
        is_scan_of(a, m),
        is_scan_of(b, m),
    ensures
        a == b,
{
    lemma_scan_no_longer(a, b, m);
    lemma_scan_no_longer(b, a, m);
    lemma_scans_agree_below(a, b, m, a.len() as int);
    assert forall|i: int| 0 <= i < a.len() implies a[i] == b[i] by {
        assert(m[a[i].id] == a[i]);
        assert(m[b[i].id] == b[i]);
    }
    assert(a =~= b);
}

} // verus!
