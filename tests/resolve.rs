use division_stats::error::StatsError;
use division_stats::profile::ProfileDTO;
use division_stats::resolve::{
    dedup_by_id, find_player_id_by_api, find_player_id_by_db, first_directory_name,
    get_player_profiles_by_name, DirectoryEntry,
};

fn entry(id: Option<&str>, name: Option<&str>) -> DirectoryEntry {
    DirectoryEntry { profile_id: id.map(|s| s.to_string()), name_on_platform: name.map(|s| s.to_string()) }
}

fn ids(v: &[ProfileDTO]) -> Vec<String> {
    v.iter().map(|p| p.id.clone()).collect()
}

#[test]
fn live_lookup_keeps_first_of_each_id() {
    let entries = vec![entry(Some("a"), Some("Agent")), entry(None, Some("Ghost")), entry(Some("b"), Some("agent")), entry(Some("a"), Some("Other"))];
    let found = find_player_id_by_api(&entries).unwrap();
    assert_eq!(ids(&found), vec!["a", "b"]);
    assert_eq!(found[0].name.as_deref(), Some("Agent"));
    assert_eq!(found[1].name.as_deref(), Some("agent"));
}

#[test]
fn live_lookup_without_profiles_is_not_found() {
    assert_eq!(find_player_id_by_api(&vec![]).err(), Some(StatsError::PlayerNotFound));
    assert_eq!(find_player_id_by_api(&vec![entry(None, Some("x"))]).err(), Some(StatsError::PlayerNotFound));
}

#[test]
fn store_lookup_has_no_display_names() {
    let found = find_player_id_by_db(&vec!["x".to_string(), "y".to_string(), "x".to_string()]);
    assert_eq!(ids(&found), vec!["x", "y"]);
    assert!(found.iter().all(|p| p.name.is_none()));
}

#[test]
fn live_answer_wins_over_store() {
    let live = Ok(vec![ProfileDTO::new("a".to_string(), Some("Agent".to_string()))]);
    let r = get_player_profiles_by_name(live, &vec!["z".to_string()]).unwrap();
    assert_eq!(ids(&r), vec!["a"]);
}

#[test]
fn failed_or_empty_live_answer_falls_back_to_store() {
    let r = get_player_profiles_by_name(Err(StatsError::FetchError), &vec!["z".to_string(), "z".to_string()]).unwrap();
    assert_eq!(ids(&r), vec!["z"]);
    assert!(r[0].name.is_none());
    let r = get_player_profiles_by_name(Ok(vec![]), &vec!["z".to_string()]).unwrap();
    assert_eq!(ids(&r), vec!["z"]);
}

#[test]
fn nothing_anywhere_is_not_found() {
    assert_eq!(get_player_profiles_by_name(Err(StatsError::FetchError), &vec![]).err(), Some(StatsError::PlayerNotFound));
    assert_eq!(get_player_profiles_by_name(Ok(vec![]), &vec![]).err(), Some(StatsError::PlayerNotFound));
}

#[test]
fn resolution_is_stable_across_calls() {
    let answer = || vec![entry(Some("b"), Some("B")), entry(Some("a"), Some("A")), entry(Some("b"), Some("B"))];
    let reordered = vec![entry(Some("a"), Some("A")), entry(Some("b"), Some("B"))];
    let first = get_player_profiles_by_name(find_player_id_by_api(&answer()), &vec![]).unwrap();
    let second = get_player_profiles_by_name(find_player_id_by_api(&answer()), &vec![]).unwrap();
    let third = get_player_profiles_by_name(find_player_id_by_api(&reordered), &vec![]).unwrap();
    let mut s1 = ids(&first);
    let mut s2 = ids(&second);
    let mut s3 = ids(&third);
    s1.sort();
    s2.sort();
    s3.sort();
    assert_eq!(s1, vec!["a", "b"]);
    assert_eq!(s1, s2);
    assert_eq!(s1, s3);
}

#[test]
fn dedup_keeps_order() {
    let v = vec![
        ProfileDTO::new("c".to_string(), None),
        ProfileDTO::new("a".to_string(), None),
        ProfileDTO::new("c".to_string(), Some("C".to_string())),
    ];
    let d = dedup_by_id(&v);
    assert_eq!(ids(&d), vec!["c", "a"]);
    assert!(d[0].name.is_none());
}

#[test]
fn name_backfill_reads_first_profile() {
    assert_eq!(first_directory_name(&vec![entry(Some("a"), Some("Agent")), entry(Some("b"), Some("B"))]), Some("Agent".to_string()));
    assert_eq!(first_directory_name(&vec![]), None);
    let p = ProfileDTO::new("a".to_string(), None);
    assert!(p.needs_name());
    let p = p.with_found_name(Some("Agent".to_string()));
    assert_eq!(p.name.as_deref(), Some("Agent"));
    let p = p.with_found_name(Some("Other".to_string()));
    assert_eq!(p.name.as_deref(), Some("Agent"));
    assert!(!p.needs_name());
}

#[test]
fn credential_failures_abort_resolution() {
    let stored = vec!["z".to_string()];
    assert_eq!(get_player_profiles_by_name(Err(StatsError::AuthError), &stored).err(), Some(StatsError::AuthError));
    assert_eq!(
        get_player_profiles_by_name(Err(StatsError::RenewalExhausted), &stored).err(),
        Some(StatsError::RenewalExhausted)
    );
    assert!(get_player_profiles_by_name(Err(StatsError::UpstreamError), &stored).is_ok());
}
