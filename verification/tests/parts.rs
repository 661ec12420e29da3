use skill_exchange::codec::{accepts, keyed, seal, unseal, MAX_SIZE};
use skill_exchange::entry::{copy_texts, same_texts, SkillExchangeEntry, SkillExchangeUpdatePayload};
use skill_exchange::search::{entry_matches, has_text, select, SearchField};
use skill_exchange::text::framed;

fn sample(id: u64) -> SkillExchangeEntry {
    SkillExchangeEntry {
        id,
        user_id: 3,
        title: "Guitar".to_string(),
        description: "lessons".to_string(),
        category: "Music".to_string(),
        skills_offered: vec!["guitar".to_string(), "bass".to_string()],
        skills_wanted: vec![],
        location: "Lisbon".to_string(),
        created_at: 11,
        updated_at: Some(12),
    }
}

#[test]
fn framed_writes_the_decimal_numeral() {
    assert_eq!(framed("id=", 0, "!"), "id=0!");
    assert_eq!(framed("id=", 10, "!"), "id=10!");
    assert_eq!(framed("", 907, ""), "907");
    assert_eq!(framed("<", u64::MAX, ">"), "<18446744073709551615>");
}

#[test]
fn seal_then_unseal_gives_the_entry_back() {
    let e = sample(4);
    let bytes = seal(&e).unwrap();
    assert!(!bytes.is_empty());
    assert!(bytes.len() <= MAX_SIZE);
    assert_eq!(unseal(4, &bytes), Some(e));
}

#[test]
fn unseal_refuses_a_foreign_key_and_garbage() {
    let bytes = seal(&sample(4)).unwrap();
    assert_eq!(unseal(5, &bytes), None);
    assert_eq!(unseal(0, &vec![1, 2, 3]), None);
    assert_eq!(unseal(0, &vec![]), None);
}

#[test]
fn seal_refuses_what_exceeds_the_ceiling() {
    let mut e = sample(1);
    e.description = "d".repeat(1024);
    assert_eq!(seal(&e), None);
    e.description = "d".repeat(10);
    assert!(seal(&e).is_some());
}

#[test]
fn accepts_checks_size_and_read_back() {
    let e = sample(1);
    assert!(accepts(&e, &vec![0; 1024], &Some(e.clone())));
    assert!(!accepts(&e, &vec![0; 1025], &Some(e.clone())));
    assert!(!accepts(&e, &vec![0; 10], &Some(sample(2))));
    assert!(!accepts(&e, &vec![0; 10], &None));
}

#[test]
fn keyed_keeps_only_the_entry_of_that_key() {
    assert_eq!(keyed(1, Some(sample(1))), Some(sample(1)));
    assert_eq!(keyed(2, Some(sample(1))), None);
    assert_eq!(keyed(2, None), None);
}

#[test]
fn copy_and_same_agree() {
    let e = sample(1);
    let c = e.copy();
    assert_eq!(c, e);
    assert!(c.same(&e));
    let mut d = e.copy();
    d.skills_offered.push("drums".to_string());
    assert!(!d.same(&e));
    let mut f = e.copy();
    f.updated_at = None;
    assert!(!f.same(&e));
    assert_eq!(copy_texts(&e.skills_offered), e.skills_offered);
    assert!(same_texts(&e.skills_offered, &c.skills_offered));
    assert!(!same_texts(&e.skills_offered, &e.skills_wanted));
    assert!(!same_texts(&vec!["a".to_string()], &vec!["b".to_string()]));
}

#[test]
fn create_and_revise_set_the_stamps() {
    let p = SkillExchangeUpdatePayload {
        title: "t".to_string(),
        description: "d".to_string(),
        category: "c".to_string(),
        skills_offered: vec!["o".to_string()],
        skills_wanted: vec!["w".to_string()],
        location: "l".to_string(),
    };
    let e = SkillExchangeEntry::create(p.clone(), 8, 100);
    assert_eq!((e.id, e.user_id, e.created_at, e.updated_at), (8, 0, 100, None));
    assert_eq!(e.skills_wanted, p.skills_wanted);
    let r = sample(6).revise(p.clone(), 200);
    assert_eq!((r.id, r.user_id, r.created_at, r.updated_at), (6, 3, 11, Some(200)));
    assert_eq!((r.title, r.location), (p.title, p.location));
}

#[test]
fn predicates_are_exact_matches() {
    let e = sample(1);
    assert!(entry_matches(&e, SearchField::Category, &"Music".to_string()));
    assert!(!entry_matches(&e, SearchField::Category, &"music".to_string()));
    assert!(entry_matches(&e, SearchField::Location, &"Lisbon".to_string()));
    assert!(!entry_matches(&e, SearchField::Location, &"Lisbon ".to_string()));
    assert!(entry_matches(&e, SearchField::SkillOffered, &"bass".to_string()));
    assert!(!entry_matches(&e, SearchField::SkillOffered, &"bas".to_string()));
    assert!(!entry_matches(&e, SearchField::SkillWanted, &"bass".to_string()));
    assert!(!entry_matches(&e, SearchField::SkillWanted, &"".to_string()));
    assert!(has_text(&vec!["".to_string()], &"".to_string()));
    assert!(!has_text(&vec![], &"".to_string()));
}

#[test]
fn select_keeps_order_and_duplicates() {
    let mut other = sample(2);
    other.category = "Coding".to_string();
    let list = vec![sample(3), other, sample(1), sample(3)];
    let got = select(&list, SearchField::Category, &"Music".to_string());
    assert_eq!(got, vec![sample(3), sample(1), sample(3)]);
    assert!(select(&list, SearchField::SkillWanted, &"x".to_string()).is_empty());
}
