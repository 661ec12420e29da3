//! The four search shapes: predicates on one entry, and the selection of the
//! entries of a scan that meet one.

use crate::entry::{models, texts, EntryModel, SkillExchangeEntry};
use vstd::prelude::*;

verus! {

/// The attribute that a search looks at.
#[derive(Clone, Copy, Debug)]
pub enum SearchField {
    Category,
    Location,
    SkillOffered,
    SkillWanted,
}

/// Whether an entry meets a search: its category or location is exactly the
/// query, or the query is an element of its offered or wanted skills.
pub open spec fn meets(e: EntryModel, field: SearchField, query: Seq<char>) -> bool {
    match field {
        SearchField::Category => e.category == query,
        SearchField::Location => e.location == query,
        SearchField::SkillOffered => e.skills_offered.contains(query),
        SearchField::SkillWanted => e.skills_wanted.contains(query),
    }
}

/// The predicate of a search, as a function on entries.
pub open spec fn selector(field: SearchField, query: Seq<char>) -> spec_fn(EntryModel) -> bool {
    |e: EntryModel| meets(e, field, query)
}

/// Whether `query` is an element of `list`.
pub fn has_text(list: &Vec<String>, query: &String) -> (r: bool)
    ensures
        r == texts(list@).contains(query@),
{
    let mut i: usize = 0;
    while i < list.len()
        invariant
            i <= list.len(),
            forall|j: int| 0 <= j < i ==> texts(list@)[j] != query@,
        decreases list.len() - i,
    {
        if list[i] == *query {
            assert(texts(list@)[i as int] == query@);
            return true;
        }
        i += 1;
    }
    false
}

/// Whether `e` meets the search for `query` in `field`.
pub fn entry_matches(e: &SkillExchangeEntry, field: SearchField, query: &String) -> (r: bool)
    ensures
        r == meets(e@, field, query@),
{
    match field {
        SearchField::Category => e.category == *query,
        SearchField::Location => e.location == *query,
        SearchField::SkillOffered => has_text(&e.skills_offered, query),
        SearchField::SkillWanted => has_text(&e.skills_wanted, query),
    }
}

/// Copies of the entries of `entries` that meet the search, in their order.
pub fn select(entries: &Vec<SkillExchangeEntry>, field: SearchField, query: &String) -> (r: Vec<
    SkillExchangeEntry,
>)
    ensures
        models(r@) == models(entries@).filter(selector(field, query@)),
{
    let ghost all = models(entries@);
    let ghost pred = selector(field, query@);
    let mut out: Vec<SkillExchangeEntry> = Vec::new();
    let mut i: usize = 0;
    proof {
        reveal(Seq::filter);
        assert(all.take(0).filter(pred) =~= models(out@));
    }
    while i < entries.len()
        invariant
            i <= entries.len(),
            all == models(entries@),
            pred == selector(field, query@),
            models(out@) == all.take(i as int).filter(pred),
        decreases entries.len() - i,
    {
        let ghost before = models(out@);
        proof {
            assert(all.take(i + 1) =~= all.take(i as int).push(all[i as int]));
            all.take(i as int).lemma_filter_push(all[i as int], pred);
        }
        if entry_matches(&entries[i], field, query) {
            out.push(entries[i].copy());
            assert(models(out@) =~= before.push(all[i as int]));
        }
        i += 1;
    }
    assert(all.take(entries.len() as int) =~= all);
    out
}

/// An entry with no offered skill meets no search by offered skill, and one
/// with no wanted skill meets no search by wanted skill.
pub proof fn lemma_empty_list_never_matches(e: EntryModel, query: Seq<char>)
    ensures
        e.skills_offered.len() == 0 ==> !meets(e, SearchField::SkillOffered, query),
        e.skills_wanted.len() == 0 ==> !meets(e, SearchField::SkillWanted, query),
{
}

} // verus!
