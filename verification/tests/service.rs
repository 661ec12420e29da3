use skill_exchange::entry::{SkillExchangeEntry, SkillExchangeUpdatePayload};
use skill_exchange::service::{
    _get_skill_exchange_entry, add_skill_exchange_entry, delete_skill_exchange_entry,
    do_insert_skill_exchange_entry, get_all_skill_exchange_entries,
    get_skill_exchange_entries_by_category, get_skill_exchange_entries_by_location,
    get_skill_exchange_entry, search_skill_exchange_entries_by_skill_offered,
    search_skill_exchange_entries_by_skill_wanted, update_skill_exchange_entry, Error,
};
use skill_exchange::store::SkillStore;

fn payload(title: &str, category: &str, location: &str, offered: &[&str], wanted: &[&str])
    -> SkillExchangeUpdatePayload {
    SkillExchangeUpdatePayload {
        title: title.to_string(),
        description: format!("about {}", title),
        category: category.to_string(),
        skills_offered: offered.iter().map(|s| s.to_string()).collect(),
        skills_wanted: wanted.iter().map(|s| s.to_string()).collect(),
        location: location.to_string(),
    }
}

#[test]
fn absent_id_is_not_found_by_get() {
    let store = SkillStore::new();
    assert_eq!(
        get_skill_exchange_entry(&store, 42),
        Err(Error::NotFound { msg: "a skill exchange entry with id=42 not found".to_string() })
    );
    assert_eq!(_get_skill_exchange_entry(&store, &42), None);
}

#[test]
fn absent_id_is_not_found_by_update() {
    let mut store = SkillStore::new();
    let r = update_skill_exchange_entry(&mut store, 7, payload("a", "b", "c", &[], &[]), 5);
    assert_eq!(
        r,
        Err(Error::NotFound {
            msg: "couldn't update a skill exchange entry with id=7. entry not found".to_string()
        })
    );
    assert!(get_all_skill_exchange_entries(&store).is_empty());
}

#[test]
fn absent_id_is_not_found_by_delete() {
    let mut store = SkillStore::new();
    let r = delete_skill_exchange_entry(&mut store, 18446744073709551615);
    assert_eq!(
        r,
        Err(Error::NotFound {
            msg: "couldn't delete a skill exchange entry with id=18446744073709551615. entry not found."
                .to_string()
        })
    );
    assert_eq!(r.unwrap_err().message(),
        "couldn't delete a skill exchange entry with id=18446744073709551615. entry not found.");
}

#[test]
fn add_then_get_round_trips() {
    let mut store = SkillStore::new();
    let p = payload("Guitar lessons", "Music", "Lisbon", &["guitar", "guitar"], &["rust"]);
    let e = add_skill_exchange_entry(&mut store, p.clone(), 1_700_000_000_000_000_000).unwrap();
    assert_eq!(e.id, 0);
    assert_eq!(e.user_id, 0);
    assert_eq!(e.created_at, 1_700_000_000_000_000_000);
    assert_eq!(e.updated_at, None);
    assert_eq!(e.title, p.title);
    assert_eq!(e.description, p.description);
    assert_eq!(e.category, p.category);
    assert_eq!(e.skills_offered, p.skills_offered);
    assert_eq!(e.skills_wanted, p.skills_wanted);
    assert_eq!(e.location, p.location);
    assert_eq!(get_skill_exchange_entry(&store, e.id), Ok(e));
}

#[test]
fn ids_increase_and_are_not_reused() {
    let mut store = SkillStore::new();
    let a = add_skill_exchange_entry(&mut store, payload("a", "x", "y", &[], &[]), 1).unwrap();
    let b = add_skill_exchange_entry(&mut store, payload("b", "x", "y", &[], &[]), 2).unwrap();
    assert_eq!((a.id, b.id), (0, 1));
    assert!(delete_skill_exchange_entry(&mut store, b.id).is_ok());
    assert!(delete_skill_exchange_entry(&mut store, a.id).is_ok());
    let c = add_skill_exchange_entry(&mut store, payload("c", "x", "y", &[], &[]), 3).unwrap();
    assert_eq!(c.id, 2);
    assert_eq!(store.peek_next_id(), 3);
}

#[test]
fn update_keeps_identity_and_stamps() {
    let mut store = SkillStore::new();
    let a = add_skill_exchange_entry(&mut store, payload("a", "x", "y", &["s"], &[]), 10).unwrap();
    let p = payload("b", "Coding", "Porto", &[], &["t"]);
    let u = update_skill_exchange_entry(&mut store, a.id, p.clone(), 25).unwrap();
    assert_eq!(
        u,
        SkillExchangeEntry {
            id: a.id,
            user_id: a.user_id,
            title: p.title,
            description: p.description,
            category: p.category,
            skills_offered: p.skills_offered,
            skills_wanted: p.skills_wanted,
            location: p.location,
            created_at: 10,
            updated_at: Some(25),
        }
    );
    assert_eq!(get_skill_exchange_entry(&store, a.id), Ok(u));
    assert_eq!(store.peek_next_id(), 1);
}

#[test]
fn delete_returns_and_removes() {
    let mut store = SkillStore::new();
    let a = add_skill_exchange_entry(&mut store, payload("a", "Music", "y", &["s"], &["w"]), 1)
        .unwrap();
    let b = add_skill_exchange_entry(&mut store, payload("b", "Music", "y", &["s"], &["w"]), 2)
        .unwrap();
    assert_eq!(delete_skill_exchange_entry(&mut store, a.id), Ok(a.clone()));
    assert!(matches!(get_skill_exchange_entry(&store, a.id), Err(Error::NotFound { .. })));
    assert!(matches!(delete_skill_exchange_entry(&mut store, a.id), Err(Error::NotFound { .. })));
    assert_eq!(get_all_skill_exchange_entries(&store), vec![b.clone()]);
    assert_eq!(get_skill_exchange_entries_by_category(&store, "Music".to_string()), vec![b.clone()]);
    assert_eq!(get_skill_exchange_entries_by_location(&store, "y".to_string()), vec![b.clone()]);
    assert_eq!(
        search_skill_exchange_entries_by_skill_offered(&store, "s".to_string()),
        vec![b.clone()]
    );
    assert_eq!(search_skill_exchange_entries_by_skill_wanted(&store, "w".to_string()), vec![b]);
}

#[test]
fn search_by_category_and_location_is_exact() {
    let mut store = SkillStore::new();
    let a = add_skill_exchange_entry(&mut store, payload("a", "Music", "Lisbon", &[], &[]), 1)
        .unwrap();
    let b = add_skill_exchange_entry(&mut store, payload("b", "Coding", "Lisbon", &[], &[]), 2)
        .unwrap();
    let c = add_skill_exchange_entry(&mut store, payload("c", "Music", "Porto", &[], &[]), 3)
        .unwrap();
    assert_eq!(
        get_skill_exchange_entries_by_category(&store, "Music".to_string()),
        vec![a.clone(), c.clone()]
    );
    assert_eq!(
        get_skill_exchange_entries_by_location(&store, "Lisbon".to_string()),
        vec![a.clone(), b.clone()]
    );
    assert!(get_skill_exchange_entries_by_category(&store, "music".to_string()).is_empty());
    assert!(get_skill_exchange_entries_by_category(&store, "Musi".to_string()).is_empty());
    assert!(get_skill_exchange_entries_by_location(&store, "".to_string()).is_empty());
    assert_eq!(get_all_skill_exchange_entries(&store), vec![a, b, c]);
}

#[test]
fn search_by_skill_is_membership() {
    let mut store = SkillStore::new();
    let a = add_skill_exchange_entry(
        &mut store,
        payload("a", "x", "y", &["guitar", "piano"], &["rust"]),
        1,
    )
    .unwrap();
    let b = add_skill_exchange_entry(&mut store, payload("b", "x", "y", &[], &["piano"]), 2)
        .unwrap();
    let c = add_skill_exchange_entry(&mut store, payload("c", "x", "y", &["rust"], &[]), 3)
        .unwrap();
    assert_eq!(
        search_skill_exchange_entries_by_skill_offered(&store, "piano".to_string()),
        vec![a.clone()]
    );
    assert_eq!(
        search_skill_exchange_entries_by_skill_wanted(&store, "piano".to_string()),
        vec![b.clone()]
    );
    assert_eq!(
        search_skill_exchange_entries_by_skill_offered(&store, "rust".to_string()),
        vec![c.clone()]
    );
    assert_eq!(search_skill_exchange_entries_by_skill_wanted(&store, "rust".to_string()), vec![a]);
    assert!(search_skill_exchange_entries_by_skill_offered(&store, "pian".to_string()).is_empty());
    assert!(search_skill_exchange_entries_by_skill_wanted(&store, "Rust".to_string()).is_empty());
    assert!(search_skill_exchange_entries_by_skill_offered(&store, "".to_string()).is_empty());
}

#[test]
fn category_scenario_with_delete() {
    let mut store = SkillStore::new();
    let first = add_skill_exchange_entry(&mut store, payload("a", "Music", "y", &[], &[]), 1)
        .unwrap();
    let _second = add_skill_exchange_entry(&mut store, payload("b", "Coding", "y", &[], &[]), 2)
        .unwrap();
    assert_eq!(
        get_skill_exchange_entries_by_category(&store, "Music".to_string()),
        vec![first.clone()]
    );
    assert_eq!(delete_skill_exchange_entry(&mut store, first.id), Ok(first));
    assert_eq!(get_skill_exchange_entries_by_category(&store, "Music".to_string()), vec![]);
}

#[test]
fn oversized_entry_is_not_added() {
    let mut store = SkillStore::new();
    let big = payload(&"t".repeat(2000), "x", "y", &[], &[]);
    assert_eq!(add_skill_exchange_entry(&mut store, big, 1), None);
    assert_eq!(store.peek_next_id(), 0);
    assert!(get_all_skill_exchange_entries(&store).is_empty());
    let ok = add_skill_exchange_entry(&mut store, payload("a", "x", "y", &[], &[]), 2).unwrap();
    assert_eq!(ok.id, 0);
}

#[test]
fn oversized_update_is_rejected_and_changes_nothing() {
    let mut store = SkillStore::new();
    let a = add_skill_exchange_entry(&mut store, payload("a", "x", "y", &[], &[]), 1).unwrap();
    let big = payload("b", "x", "y", &[&"s".repeat(1100)], &[]);
    assert_eq!(
        update_skill_exchange_entry(&mut store, a.id, big, 2),
        Err(Error::NotStorable {
            msg: "couldn't update a skill exchange entry with id=0. entry cannot be stored"
                .to_string()
        })
    );
    assert_eq!(get_skill_exchange_entry(&store, a.id), Ok(a));
}

#[test]
fn insert_overwrites_under_the_entry_id() {
    let mut store = SkillStore::new();
    let mut e = SkillExchangeEntry::create(payload("a", "x", "y", &[], &[]), 9, 4);
    assert!(do_insert_skill_exchange_entry(&mut store, &e));
    assert_eq!(_get_skill_exchange_entry(&store, &9), Some(e.clone()));
    e.title = "changed".to_string();
    assert!(do_insert_skill_exchange_entry(&mut store, &e));
    assert_eq!(get_all_skill_exchange_entries(&store), vec![e]);
    assert_eq!(store.peek_next_id(), 0);
}

#[test]
fn scan_is_in_ascending_id_order() {
    let mut store = SkillStore::new();
    for id in [5u64, 1, 300, 2] {
        let e = SkillExchangeEntry::create(payload("a", "x", "y", &[], &[]), id, 4);
        assert!(store.insert(&e));
    }
    let ids: Vec<u64> = store.scan_all().iter().map(|e| e.id).collect();
    assert_eq!(ids, vec![1, 2, 5, 300]);
    assert_eq!(store.remove(5).map(|e| e.id), Some(5));
    assert_eq!(store.remove(5), None);
    assert_eq!(store.get(300).map(|e| e.id), Some(300));
}

#[test]
fn next_id_hands_out_consecutive_ids() {
    let mut store = SkillStore::new();
    assert_eq!(store.next_id(), Some(0));
    assert_eq!(store.next_id(), Some(1));
    assert_eq!(store.peek_next_id(), 2);
}
