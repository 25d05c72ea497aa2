use division_stats::profile::ProfileDTO;
use division_stats::stats::{
    check_schema, count_for_key, map_division1, map_division2_keyed, map_to_game_stats, ratio,
    GameVariant, PlayerStatsReport, SchemaMismatch, StatEntry, StatValue,
};
use division_stats::text::{decimal_string, eq_ignore_ascii_case, fraction_percent, parse_count, parse_u64, percent_string};

fn text(key: &str, v: &str) -> StatEntry {
    StatEntry { key: key.to_string(), value: StatValue::Text(v.to_string()) }
}

fn absent(key: &str) -> StatEntry {
    StatEntry { key: key.to_string(), value: StatValue::Absent }
}

fn number(key: &str, n: u64) -> StatEntry {
    StatEntry { key: key.to_string(), value: StatValue::Number(n) }
}

fn agent() -> ProfileDTO {
    ProfileDTO::new("id-a".to_string(), Some("Agent".to_string()))
}

fn sample_record() -> Vec<StatEntry> {
    vec![
        text("level", "30"),
        text("dz", "5"),
        text("ug", "2"),
        text("time", "7200"),
        text("story", "0.5"),
        text("rogue", "10"),
        text("extracted", "3"),
        text("skill", "4"),
        text("kills", "9"),
        absent("x"),
        absent("y"),
        text("gear", "500"),
    ]
}

#[test]
fn end_to_end_division1_record() {
    let names = vec!["Agent".to_string(), "OldName".to_string()];
    let r = map_division1(&sample_record(), &agent(), names.clone()).unwrap();
    assert_eq!(r.id, "id-a");
    assert_eq!(r.name, "Agent");
    assert_eq!(r.level, 30);
    assert_eq!(r.dz_rank, 5);
    assert_eq!(r.ug_rank, 2);
    assert_eq!(r.playtime, 2);
    assert_eq!(r.main_story, "50 %");
    assert_eq!(r.rogue_kills, 10);
    assert_eq!(r.items_extracted, 3);
    assert_eq!(r.skill_kills, 4);
    assert_eq!(r.total_kills, 9);
    assert_eq!(r.gear_score, 500);
    assert_eq!(r.all_names, names);
}

#[test]
fn unreadable_fields_count_as_zero() {
    let mut raw = sample_record();
    raw[0] = text("level", "thirty");
    raw[4] = absent("story");
    raw[11] = number("gear", 7);
    let r = map_division1(&raw, &ProfileDTO::new("id".to_string(), None), vec![]).unwrap();
    assert_eq!(r.level, 0);
    assert_eq!(r.main_story, "0 %");
    assert_eq!(r.gear_score, 7);
    assert_eq!(r.name, "");
}

#[test]
fn schema_length_is_checked_per_game() {
    let mut raw = sample_record();
    raw.pop();
    assert_eq!(check_schema(&raw, GameVariant::Division1), Err(SchemaMismatch { observed: 11, expected: 12 }));
    assert_eq!(check_schema(&sample_record(), GameVariant::Division1), Ok(()));
    assert_eq!(
        check_schema(&sample_record(), GameVariant::Division2),
        Err(SchemaMismatch { observed: 12, expected: 48 })
    );
    let long: Vec<StatEntry> = (0..48).map(|i| number(&format!("k{}", i), i)).collect();
    assert_eq!(check_schema(&long, GameVariant::Division2), Ok(()));
    match map_division1(&raw, &agent(), vec![]) {
        Err(e) => assert_eq!(e, SchemaMismatch { observed: 11, expected: 12 }),
        Ok(_) => panic!("a short record was accepted"),
    }
}

#[test]
fn map_to_game_stats_dispatches_on_game() {
    match map_to_game_stats(&sample_record(), GameVariant::Division1, &agent(), vec![]) {
        Ok(PlayerStatsReport::Division1(r)) => assert_eq!(r.level, 30),
        _ => panic!("expected a report of the first game"),
    }
    let mut long: Vec<StatEntry> = (0..46).map(|i| number(&format!("k{}", i), i)).collect();
    long.push(number("timePlayed", 36000));
    long.push(number("highestPlayerLevel", 40));
    match map_to_game_stats(&long, GameVariant::Division2, &agent(), vec![]) {
        Ok(PlayerStatsReport::Division2(r)) => {
            assert_eq!(r.total_playtime, 10);
            assert_eq!(r.level, 40);
        },
        _ => panic!("expected a report of the second game"),
    }
    assert!(map_to_game_stats(&long, GameVariant::Division1, &agent(), vec![]).is_err());
}

#[test]
fn ratio_is_zero_for_zero_denominator() {
    assert_eq!(ratio(10, 0), 0);
    assert_eq!(ratio(0, 0), 0);
    assert_eq!(ratio(7200, 3600), 2);
    assert_eq!(ratio(7, 2), 3);
    assert_eq!(ratio(u64::MAX, 1), u64::MAX);
}

#[test]
fn decimal_parsing_follows_unsigned_rules() {
    assert_eq!(parse_u64("0"), Some(0));
    assert_eq!(parse_u64("+12"), Some(12));
    assert_eq!(parse_u64("+"), None);
    assert_eq!(parse_u64(""), None);
    assert_eq!(parse_u64("-1"), None);
    assert_eq!(parse_u64("12a"), None);
    assert_eq!(parse_u64("0.5"), None);
    assert_eq!(parse_u64("18446744073709551615"), Some(u64::MAX));
    assert_eq!(parse_u64("18446744073709551616"), None);
    assert_eq!(parse_count("99999999999999999999"), 0);
    assert_eq!(parse_count("0042"), 42);
}

#[test]
fn ascii_case_folding() {
    assert!(eq_ignore_ascii_case("AgEnT", "agent"));
    assert!(!eq_ignore_ascii_case("agent", "agents"));
    assert!(!eq_ignore_ascii_case("Ä", "ä"));
    assert!(eq_ignore_ascii_case("", ""));
}

#[test]
fn keyed_lookup_takes_first_entry() {
    let entries = vec![number("killsPvP", 3), number("killsPvP", 8), text("headshots", "12")];
    assert_eq!(count_for_key(&entries, "killsPvP"), 3);
    assert_eq!(count_for_key(&entries, "headshots"), 12);
    assert_eq!(count_for_key(&entries, "missing"), 0);
}

#[test]
fn division2_keyed_mapping_converts_units() {
    let entries = vec![
        number("timePlayed", 7200),
        number("highestPlayerLevel", 30),
        number("killsPvP", 11),
        number("timePlayedRogueLongest", 600),
        number("timePlayedDarkZone", 3599),
        number("latestGearScore", 515),
        absent("rankDZ"),
        text("eCreditBalance", "1234"),
    ];
    let r = map_division2_keyed(&entries, &agent(), vec!["Agent".to_string()]);
    assert_eq!(r.total_playtime, 2);
    assert_eq!(r.level, 30);
    assert_eq!(r.pvp_kills, 11);
    assert_eq!(r.longest_rogue, 10);
    assert_eq!(r.dz_playtime, 0);
    assert_eq!(r.gear_score, 515);
    assert_eq!(r.dz_rank, 0);
    assert_eq!(r.e_credit, 1234);
    assert_eq!(r.npc_kills, 0);
    assert_eq!(r.name, "Agent");
    assert_eq!(r.all_names, vec!["Agent".to_string()]);
}

#[test]
fn fractions_become_percentages() {
    assert_eq!(percent_string("0.5"), "50 %");
    assert_eq!(percent_string("1"), "100 %");
    assert_eq!(percent_string("0.123"), "12 %");
    assert_eq!(percent_string("0.05"), "5 %");
    assert_eq!(percent_string("0"), "0 %");
    assert_eq!(percent_string("1.0"), "100 %");
    assert_eq!(percent_string("abc"), "0 %");
    assert_eq!(percent_string(".5"), "0 %");
    assert_eq!(percent_string("45 %"), "0 %");
    assert_eq!(percent_string("0.5x"), "0 %");
    assert_eq!(fraction_percent("2.75"), Some(275));
    assert_eq!(fraction_percent("184467440737095516"), Some(18446744073709551600));
    assert_eq!(fraction_percent("184467440737095517"), None);
    assert_eq!(decimal_string(0), "0");
    assert_eq!(decimal_string(1204), "1204");
    assert_eq!(decimal_string(u64::MAX), "18446744073709551615");
}
