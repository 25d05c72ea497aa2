use division_stats::profile::ProfileDTO;
use division_stats::store::IdentityStore;

fn named(id: &str, name: &str) -> ProfileDTO {
    ProfileDTO::new(id.to_string(), Some(name.to_string()))
}

#[test]
fn persisting_twice_keeps_one_row() {
    let mut s = IdentityStore::new();
    s.persist_identity(&named("a", "Agent"), 1);
    s.persist_identity(&named("a", "Agent"), 2);
    assert_eq!(s.get_user_names_by_id("a"), vec!["Agent".to_string()]);
}

#[test]
fn new_name_is_appended_most_recent_first() {
    let mut s = IdentityStore::new();
    s.persist_identity(&named("a", "First"), 1);
    s.persist_identity(&named("a", "Second"), 2);
    s.persist_identity(&named("a", "First"), 3);
    assert_eq!(s.get_user_names_by_id("a"), vec!["Second".to_string(), "First".to_string()]);
}

#[test]
fn create_and_store_report_novelty() {
    let mut s = IdentityStore::new();
    assert!(s.create_user("a"));
    assert!(!s.create_user("a"));
    assert!(s.store_user_name("a", "Agent", 1));
    assert!(!s.store_user_name("a", "Agent", 5));
    assert!(s.store_user_name("b", "Agent", 6));
}

#[test]
fn lookup_by_name_ignores_ascii_case() {
    let mut s = IdentityStore::new();
    s.persist_identity(&named("a", "Agent"), 1);
    s.persist_identity(&named("b", "AGENT"), 2);
    s.persist_identity(&named("c", "Other"), 3);
    assert_eq!(s.get_user_id_by_name("agent"), vec!["b".to_string(), "a".to_string()]);
    assert!(s.get_user_id_by_name("nobody").is_empty());
}

#[test]
fn identity_without_name_adds_no_row() {
    let mut s = IdentityStore::new();
    s.persist_identity(&ProfileDTO::new("a".to_string(), None), 1);
    assert!(s.get_user_names_by_id("a").is_empty());
    assert!(!s.create_user("a"));
}

#[test]
fn late_timestamps_keep_write_order() {
    let mut s = IdentityStore::new();
    s.persist_identity(&named("a", "First"), 100);
    s.persist_identity(&named("a", "Second"), 50);
    assert_eq!(s.get_user_names_by_id("a"), vec!["Second".to_string(), "First".to_string()]);
}
