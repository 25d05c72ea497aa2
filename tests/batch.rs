use division_stats::batch::{
    get_div1_player_stats, get_div2_player_stats, get_player_stats_by_name, BatchFetch, FetchOutcome,
    StatsDTO, FETCH_WINDOW,
};
use division_stats::error::StatsError;
use division_stats::profile::ProfileDTO;
use division_stats::stats::{StatEntry, StatValue};
use division_stats::store::IdentityStore;

fn record(level: &str) -> Vec<StatEntry> {
    (0..12)
        .map(|i| StatEntry { key: format!("k{}", i), value: StatValue::Text(if i == 0 { level.to_string() } else { "1".to_string() }) })
        .collect()
}

fn profile(id: &str, name: &str) -> ProfileDTO {
    ProfileDTO::new(id.to_string(), Some(name.to_string()))
}

#[test]
fn failed_request_does_not_shift_pairing() {
    let mut batch = BatchFetch::new(vec![profile("A", "Alpha"), profile("B", "Bravo")], FETCH_WINDOW);
    let ta = batch.start_next().unwrap();
    let tb = batch.start_next().unwrap();
    assert_eq!(ta.profile().id, "A");
    assert_eq!(tb.profile().id, "B");
    assert!(batch.start_next().is_none());
    batch.complete(tb, FetchOutcome::Failed, None);
    batch.complete(ta, FetchOutcome::Fetched(record("30")), None);
    assert!(batch.is_finished());
    let answers = batch.into_answers();
    let mut store = IdentityStore::new();
    assert_eq!(get_player_stats_by_name(&mut store, &answers, 10), Ok(()));
    let reports = get_div1_player_stats(&store, &answers).unwrap();
    assert_eq!(reports.len(), 1);
    assert_eq!(reports[0].id, "A");
    assert_eq!(reports[0].name, "Alpha");
    assert_eq!(reports[0].level, 30);
    assert_eq!(reports[0].all_names, vec!["Alpha".to_string()]);
    assert!(store.get_user_names_by_id("B").is_empty());
}

#[test]
fn window_bounds_requests_in_flight() {
    let profiles: Vec<ProfileDTO> = (0..7).map(|i| profile(&format!("p{}", i), "n")).collect();
    let mut batch = BatchFetch::new(profiles, FETCH_WINDOW);
    let mut tickets = vec![];
    while let Some(t) = batch.start_next() {
        tickets.push(t);
    }
    assert_eq!(tickets.len(), 5);
    let t = tickets.pop().unwrap();
    assert!(batch.is_open(t.slot()));
    batch.complete(t, FetchOutcome::Rejected, None);
    assert!(!batch.is_open(4));
    let next = batch.start_next().unwrap();
    assert_eq!(next.slot(), 5);
    assert_eq!(next.profile().id, "p5");
    assert!(batch.start_next().is_none());
    assert!(batch.has_running());
    assert!(!batch.is_finished());
}

#[test]
fn batch_failures_are_classified() {
    let mut store = IdentityStore::new();
    assert_eq!(get_player_stats_by_name(&mut store, &vec![], 1), Err(StatsError::PlayerNotFound));
    assert_eq!(get_div1_player_stats(&store, &vec![]).err(), Some(StatsError::PlayerNotFound));
    let failed = vec![
        StatsDTO { profile: profile("A", "a"), stats: FetchOutcome::Failed },
        StatsDTO { profile: profile("B", "b"), stats: FetchOutcome::Rejected },
    ];
    assert_eq!(get_player_stats_by_name(&mut store, &failed, 1), Err(StatsError::UpstreamError));
    assert_eq!(get_div1_player_stats(&store, &failed).err(), Some(StatsError::UpstreamError));
    let short = vec![
        StatsDTO { profile: profile("A", "a"), stats: FetchOutcome::Failed },
        StatsDTO { profile: profile("B", "b"), stats: FetchOutcome::Fetched(record("3")[..7].iter().map(|e| StatEntry { key: e.key.clone(), value: StatValue::Absent }).collect()) },
    ];
    assert_eq!(
        get_div1_player_stats(&store, &short).err(),
        Some(StatsError::SchemaMismatch { observed: 7, expected: 12 })
    );
}

#[test]
fn reports_follow_answer_order() {
    let answers = vec![
        StatsDTO { profile: profile("A", "a"), stats: FetchOutcome::Fetched(record("1")) },
        StatsDTO { profile: profile("B", "b"), stats: FetchOutcome::Failed },
        StatsDTO { profile: profile("C", "c"), stats: FetchOutcome::Fetched(record("3")) },
    ];
    let store = IdentityStore::new();
    let reports = get_div1_player_stats(&store, &answers).unwrap();
    let got: Vec<(String, u64)> = reports.iter().map(|r| (r.id.clone(), r.level)).collect();
    assert_eq!(got, vec![("A".to_string(), 1), ("C".to_string(), 3)]);
}

#[test]
fn division2_report_needs_scraped_record() {
    let mut store = IdentityStore::new();
    let p = profile("A", "Alpha");
    assert_eq!(get_div2_player_stats(&mut store, &p, &None, 1).err(), Some(StatsError::NoGameRecord));
    assert_eq!(store.get_user_names_by_id("A"), vec!["Alpha".to_string()]);
    let entries = vec![StatEntry { key: "highestPlayerLevel".to_string(), value: StatValue::Number(40) }];
    let r = get_div2_player_stats(&mut store, &p, &Some(entries), 2).unwrap();
    assert_eq!(r.len(), 1);
    assert_eq!(r[0].level, 40);
    assert_eq!(r[0].all_names, vec!["Alpha".to_string()]);
}

#[test]
fn missing_display_name_is_backfilled_or_fails_the_slot() {
    let nameless = |id: &str| ProfileDTO::new(id.to_string(), None);
    let mut batch = BatchFetch::new(vec![nameless("A"), nameless("B")], FETCH_WINDOW);
    let ta = batch.start_next().unwrap();
    let tb = batch.start_next().unwrap();
    batch.complete(tb, FetchOutcome::Fetched(record("7")), None);
    batch.complete(ta, FetchOutcome::Fetched(record("8")), Some("Alpha".to_string()));
    let answers = batch.into_answers();
    assert_eq!(answers[0].profile.id, "B");
    assert!(matches!(answers[0].stats, FetchOutcome::Failed));
    assert_eq!(answers[1].profile.name.as_deref(), Some("Alpha"));
    let store = IdentityStore::new();
    let reports = get_div1_player_stats(&store, &answers).unwrap();
    assert_eq!(reports.len(), 1);
    assert_eq!(reports[0].id, "A");
    assert_eq!(reports[0].name, "Alpha");
    assert_eq!(reports[0].level, 8);
}
