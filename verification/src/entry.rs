//! The entry, the payload that creates or replaces one, and their models.

use vstd::prelude::*;

verus! {

/// A stored skill exchange listing.
#[derive(Clone, Debug, Default, PartialEq, Eq)]
pub struct SkillExchangeEntry {
    pub id: u64,
    pub user_id: u64,
    pub title: String,
    pub description: String,
    pub category: String,
    pub skills_offered: Vec<String>,
    pub skills_wanted: Vec<String>,
    pub location: String,
    pub created_at: u64,
    pub updated_at: Option<u64>,
}

/// The fields a caller supplies when adding or updating an entry.
#[derive(Clone, Debug, Default, PartialEq, Eq)]
pub struct SkillExchangeUpdatePayload {
    pub title: String,
    pub description: String,
    pub category: String,
    pub skills_offered: Vec<String>,
    pub skills_wanted: Vec<String>,
    pub location: String,
}

/// The mathematical value of an entry.
pub ghost struct EntryModel {
    pub id: u64,
    pub user_id: u64,
    pub title: Seq<char>,
    pub description: Seq<char>,
    pub category: Seq<char>,
    pub skills_offered: Seq<Seq<char>>,
    pub skills_wanted: Seq<Seq<char>>,
    pub location: Seq<char>,
    pub created_at: u64,
    pub updated_at: Option<u64>,
}

/// The mathematical value of a payload.
pub ghost struct PayloadModel {
    pub title: Seq<char>,
    pub description: Seq<char>,
    pub category: Seq<char>,
    pub skills_offered: Seq<Seq<char>>,
    pub skills_wanted: Seq<Seq<char>>,
    pub location: Seq<char>,
}

/// The texts of a list of strings, in order.
pub open spec fn texts(list: Seq<String>) -> Seq<Seq<char>> {
    Seq::new(list.len(), |i: int| list[i]@)
}

/// The models of a list of entries, in order.
pub open spec fn models(list: Seq<SkillExchangeEntry>) -> Seq<EntryModel> {
    Seq::new(list.len(), |i: int| list[i]@)
}

impl View for SkillExchangeEntry {
    type V = EntryModel;

    open spec fn view(&self) -> EntryModel {
        EntryModel {
            id: self.id,
            user_id: self.user_id,
            title: self.title@,
            description: self.description@,
            category: self.category@,
            skills_offered: texts(self.skills_offered@),
            skills_wanted: texts(self.skills_wanted@),
            location: self.location@,
            created_at: self.created_at,
            updated_at: self.updated_at,
        }
    }
}

impl View for SkillExchangeUpdatePayload {
    type V = PayloadModel;

    open spec fn view(&self) -> PayloadModel {
        PayloadModel {
            title: self.title@,
            description: self.description@,
            category: self.category@,
            skills_offered: texts(self.skills_offered@),
            skills_wanted: texts(self.skills_wanted@),
            location: self.location@,
        }
    }
}

/// The entry that a payload creates under `id` at time `now`: the placeholder
/// owner 0, the payload's fields, and no update stamp.
pub open spec fn created(p: PayloadModel, id: u64, now: u64) -> EntryModel {
    EntryModel {
        id,
        user_id: 0,
        title: p.title,
        description: p.description,
        category: p.category,
        skills_offered: p.skills_offered,
        skills_wanted: p.skills_wanted,
        location: p.location,
        created_at: now,
        updated_at: None,
    }
}

/// The entry that results when a payload replaces the mutable fields of `e` at
/// time `now`: identity, owner and creation stamp stay.
pub open spec fn revised(e: EntryModel, p: PayloadModel, now: u64) -> EntryModel {
    EntryModel {
        id: e.id,
        user_id: e.user_id,
        title: p.title,
        description: p.description,
        category: p.category,
        skills_offered: p.skills_offered,
        skills_wanted: p.skills_wanted,
        location: p.location,
        created_at: e.created_at,
        updated_at: Some(now),
    }
}

/// A copy of a list of strings.
pub fn copy_texts(list: &Vec<String>) -> (r: Vec<String>)
    ensures
        texts(r@) == texts(list@),
{
    let mut out: Vec<String> = Vec::new();
    let mut i: usize = 0;
    while i < list.len()
        invariant
            i <= list.len(),
            out.len() == i,
            forall|j: int| 0 <= j < i ==> out[j]@ == list[j]@,
        decreases list.len() - i,
    {
        out.push(list[i].clone());
        i += 1;
    }
    assert(texts(out@) =~= texts(list@));
    out
}

/// Whether two lists of strings hold the same texts in the same order.
pub fn same_texts(a: &Vec<String>, b: &Vec<String>) -> (r: bool)
    ensures
        r == (texts(a@) == texts(b@)),
{
    if a.len() != b.len() {
        assert(texts(a@).len() != texts(b@).len());
        return false;
    }
    let mut i: usize = 0;
    while i < a.len()
        invariant
            i <= a.len(),
            a.len() == b.len(),
            forall|j: int| 0 <= j < i ==> a[j]@ == b[j]@,
        decreases a.len() - i,
    {
        if a[i] != b[i] {
            assert(texts(a@)[i as int] != texts(b@)[i as int]);
            return false;
        }
        i += 1;
    }
    assert(texts(a@) =~= texts(b@));
    true
}

impl SkillExchangeEntry {
    /// A copy of this entry, field for field.
    pub fn copy(&self) -> (r: SkillExchangeEntry)
        ensures
            r@ == self@,
    {
        SkillExchangeEntry {
            id: self.id,
            user_id: self.user_id,
            title: self.title.clone(),
            description: self.description.clone(),
            category: self.category.clone(),
            skills_offered: copy_texts(&self.skills_offered),
            skills_wanted: copy_texts(&self.skills_wanted),
            location: self.location.clone(),
            created_at: self.created_at,
            updated_at: self.updated_at,
        }
    }

    /// Whether two entries have the same value.
    pub fn same(&self, other: &SkillExchangeEntry) -> (r: bool)
        ensures
            r == (self@ == other@),
    {
        let stamps = match (self.updated_at, other.updated_at) {
            (Some(a), Some(b)) => a == b,
            (None, None) => true,
            _ => false,
        };
        self.id == other.id && self.user_id == other.user_id && self.title == other.title
            && self.description == other.description && self.category == other.category
            && same_texts(&self.skills_offered, &other.skills_offered) && same_texts(
            &self.skills_wanted,
            &other.skills_wanted,
        ) && self.location == other.location && self.created_at == other.created_at && stamps
    }

    /// The entry that `payload` creates under `id` at time `now`.
    pub fn create(payload: SkillExchangeUpdatePayload, id: u64, now: u64) -> (r:
        SkillExchangeEntry)
        ensures
            r@ == created(payload@, id, now),
    {
        SkillExchangeEntry {
            id,
            user_id: 0,
            title: payload.title,
            description: payload.description,
            category: payload.category,
            skills_offered: payload.skills_offered,
            skills_wanted: payload.skills_wanted,
            location: payload.location,
            created_at: now,
            updated_at: None,
        }
    }

    /// This entry with its mutable fields replaced by `payload` and its update
    /// stamp set to `now`.
    pub fn revise(self, payload: SkillExchangeUpdatePayload, now: u64) -> (r: SkillExchangeEntry)
        ensures
            r@ == revised(self@, payload@, now),
    {
        SkillExchangeEntry {
            id: self.id,
            user_id: self.user_id,
            title: payload.title,
            description: payload.description,
            category: payload.category,
            skills_offered: payload.skills_offered,
            skills_wanted: payload.skills_wanted,
            location: payload.location,
            created_at: self.created_at,
            updated_at: Some(now),
        }
    }
}

} // verus!
