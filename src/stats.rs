//! Raw statistic records and their mapping into typed reports.
//!
//! A raw record is the list of entries that the statistics service returns
//! for one profile. For the first game the entries are read by position, for
//! the second by key. A value that is missing or does not read as a number
//! counts as zero; it never makes the whole mapping fail.

use vstd::prelude::*;
use crate::profile::{name_or_empty, ProfileDTO};
use crate::text::{count_or_zero, parse_count, percent_string, percent_text};

verus! {

/// One value of a raw record, as the upstream document held it.
pub enum StatValue {
    Text(String),
    Number(u64),
    Absent,
}

/// One entry of a raw record.
pub struct StatEntry {
    pub key: String,
    pub value: StatValue,
}

/// The two supported games.
#[derive(Clone, Copy, PartialEq, Eq, Structural, Debug)]
pub enum GameVariant {
    Division1,
    Division2,
}

/// A raw record whose length is not the one its game's layout has.
#[derive(Clone, Copy, PartialEq, Eq, Structural, Debug)]
pub struct SchemaMismatch {
    pub observed: usize,
    pub expected: usize,
}

pub const DIVISION1_RECORD_LEN: usize = 12;
pub const DIVISION2_RECORD_LEN: usize = 48;

/// Seconds in an hour and in a minute, for the playtime fields.
pub const SECONDS_PER_HOUR: u64 = 3600;
pub const SECONDS_PER_MINUTE: u64 = 60;

/// Positions of the first game's fields in its raw record.
pub const D1_LEVEL: usize = 0;
pub const D1_DZ_RANK: usize = 1;
pub const D1_UG_RANK: usize = 2;
pub const D1_PLAYTIME: usize = 3;
pub const D1_MAIN_STORY: usize = 4;
pub const D1_ROGUE_KILLS: usize = 5;
pub const D1_ITEMS_EXTRACTED: usize = 6;
pub const D1_SKILL_KILLS: usize = 7;
pub const D1_TOTAL_KILLS: usize = 8;
pub const D1_GEAR_SCORE: usize = 11;

pub open spec fn expected_length(variant: GameVariant) -> usize {
    match variant {
        GameVariant::Division1 => DIVISION1_RECORD_LEN,
        GameVariant::Division2 => DIVISION2_RECORD_LEN,
    }
}

/// The number of entries that a raw record of the game has.
pub fn record_length(variant: GameVariant) -> (r: usize)
    ensures
        r == expected_length(variant),
{
    match variant {
        GameVariant::Division1 => DIVISION1_RECORD_LEN,
        GameVariant::Division2 => DIVISION2_RECORD_LEN,
    }
}

/// Accepts a raw record of the game's length and rejects any other.
pub fn check_schema(raw: &Vec<StatEntry>, variant: GameVariant) -> (r: Result<(), SchemaMismatch>)
    ensures
        r is Ok <==> raw@.len() == expected_length(variant),
        r matches Err(e) ==> e.observed == raw@.len() && e.expected == expected_length(variant),
{
    let expected = record_length(variant);
    if raw.len() == expected {
        Ok(())
    } else {
        Err(SchemaMismatch { observed: raw.len(), expected })
    }
}

pub open spec fn ratio_spec(numerator: u64, denominator: u64) -> u64 {
    if denominator == 0 {
        0
    } else {
        numerator / denominator
    }
}

/// `numerator / denominator`, rounded down, and zero for a zero denominator.
pub fn ratio(numerator: u64, denominator: u64) -> (r: u64)
    ensures
        r == ratio_spec(numerator, denominator),
        denominator == 0 ==> r == 0,
        denominator != 0 ==> r == numerator / denominator,
{
    if denominator == 0 {
        0
    } else {
        numerator / denominator
    }
}

/// The number that a value stands for: zero where it is missing or unreadable.
pub open spec fn value_count(v: StatValue) -> u64 {
    match v {
        StatValue::Text(s) => count_or_zero(s@),
        StatValue::Number(n) => n,
        StatValue::Absent => 0,
    }
}

/// A value that encodes a fraction, as a percentage text: `0.5` gives
/// `50 %`; `0 %` where the value holds no decimal fraction.
pub open spec fn value_percent(v: StatValue) -> Seq<char> {
    match v {
        StatValue::Text(s) => percent_text(s@),
        _ => "0 %"@,
    }
}

pub fn count_of(v: &StatValue) -> (r: u64)
    ensures
        r == value_count(*v),
{
    match v {
        StatValue::Text(s) => parse_count(s.as_str()),
        StatValue::Number(n) => *n,
        StatValue::Absent => 0,
    }
}

pub fn percent_of_value(v: &StatValue) -> (r: String)
    ensures
        r@ == value_percent(*v),
{
    match v {
        StatValue::Text(s) => percent_string(s.as_str()),
        _ => String::from_str("0 %"),
    }
}

/// The count at a position of a raw record.
pub open spec fn count_at(raw: Seq<StatEntry>, i: int) -> u64 {
    value_count(raw[i].value)
}

/// The count under a key: that of the first entry with that key, zero where
/// no entry has it.
pub open spec fn keyed_count(entries: Seq<StatEntry>, key: Seq<char>) -> u64
    decreases entries.len(),
{
    if entries.len() == 0 {
        0
    } else if entries[0].key@ == key {
        value_count(entries[0].value)
    } else {
        keyed_count(entries.drop_first(), key)
    }
}

/// Looks a count up by key.
pub fn count_for_key(entries: &Vec<StatEntry>, key: &str) -> (r: u64)
    ensures
        r == keyed_count(entries@, key@),
{
    let k = String::from_str(key);
    let mut i: usize = 0;
    assert(entries@.subrange(0, entries@.len() as int) =~= entries@);
    while i < entries.len()
        invariant
            i <= entries@.len(),
            k@ == key@,
            keyed_count(entries@, key@) == keyed_count(entries@.subrange(i as int, entries@.len() as int), key@),
        decreases entries@.len() - i,
    {
        let ghost rest = entries@.subrange(i as int, entries@.len() as int);
        assert(rest.drop_first() =~= entries@.subrange(i + 1, entries@.len() as int));
        if entries[i].key == k {
            return count_of(&entries[i].value);
        }
        i = i + 1;
    }
    assert(entries@.subrange(i as int, entries@.len() as int).len() == 0);
    0
}

/// The report of the first game.
pub struct D1PlayerStats {
    pub id: String,
    pub name: String,
    pub level: u64,
    pub dz_rank: u64,
    pub ug_rank: u64,
    pub playtime: u64,
    /// Main story completion as a percentage text, such as `50 %`.
    pub main_story: String,
    pub total_kills: u64,
    pub rogue_kills: u64,
    pub items_extracted: u64,
    pub skill_kills: u64,
    pub gear_score: u64,
    pub all_names: Vec<String>,
}

/// What the report of the first game holds for a raw record of the right
/// length.
pub open spec fn division1_matches(
    r: D1PlayerStats,
    raw: Seq<StatEntry>,
    profile: ProfileDTO,
    all_names: Seq<String>,
) -> bool {
    &&& r.id@ == profile.id@
    &&& r.name@ == name_or_empty(profile.name)
    &&& r.level == count_at(raw, D1_LEVEL as int)
    &&& r.dz_rank == count_at(raw, D1_DZ_RANK as int)
    &&& r.ug_rank == count_at(raw, D1_UG_RANK as int)
    &&& r.playtime == ratio_spec(count_at(raw, D1_PLAYTIME as int), SECONDS_PER_HOUR)
    &&& r.main_story@ == value_percent(raw[D1_MAIN_STORY as int].value)
    &&& r.rogue_kills == count_at(raw, D1_ROGUE_KILLS as int)
    &&& r.items_extracted == count_at(raw, D1_ITEMS_EXTRACTED as int)
    &&& r.skill_kills == count_at(raw, D1_SKILL_KILLS as int)
    &&& r.total_kills == count_at(raw, D1_TOTAL_KILLS as int)
    &&& r.gear_score == count_at(raw, D1_GEAR_SCORE as int)
    &&& r.all_names@ == all_names
}

/// Maps a raw record of the first game into its report, reading each field
/// at its position.
pub fn map_division1(raw: &Vec<StatEntry>, profile: &ProfileDTO, all_names: Vec<String>) -> (r: Result<
    D1PlayerStats,
    SchemaMismatch,
>)
    ensures
        r is Err <==> raw@.len() != DIVISION1_RECORD_LEN,
        r matches Err(e) ==> e.observed == raw@.len() && e.expected == DIVISION1_RECORD_LEN,
        r matches Ok(s) ==> division1_matches(s, raw@, *profile, all_names@),
{
    if let Err(e) = check_schema(raw, GameVariant::Division1) {
        return Err(e);
    }
    let main_story = percent_of_value(&raw[D1_MAIN_STORY].value);
    Ok(D1PlayerStats {
        id: profile.id.clone(),
        name: profile.name_or_empty(),
        level: count_of(&raw[D1_LEVEL].value),
        dz_rank: count_of(&raw[D1_DZ_RANK].value),
        ug_rank: count_of(&raw[D1_UG_RANK].value),
        playtime: ratio(count_of(&raw[D1_PLAYTIME].value), SECONDS_PER_HOUR),
        main_story,
        total_kills: count_of(&raw[D1_TOTAL_KILLS].value),
        rogue_kills: count_of(&raw[D1_ROGUE_KILLS].value),
        items_extracted: count_of(&raw[D1_ITEMS_EXTRACTED].value),
        skill_kills: count_of(&raw[D1_SKILL_KILLS].value),
        gear_score: count_of(&raw[D1_GEAR_SCORE].value),
        all_names,
    })
}

/// The report of the second game.
pub struct D2PlayerStats {
    pub id: String,
    pub name: String,
    pub total_playtime: u64,
    pub level: u64,
    pub pvp_kills: u64,
    pub npc_kills: u64,
    pub headshots: u64,
    pub headshot_kills: u64,
    pub shotgun_kills: u64,
    pub smg_kills: u64,
    pub pistol_kills: u64,
    pub rifle_kills: u64,
    pub player_kills: u64,
    pub xp_total: u64,
    pub pve_xp: u64,
    pub pvp_xp: u64,
    pub clan_xp: u64,
    pub sharpshooter_kills: u64,
    pub survivalist_kills: u64,
    pub demolitionist_kills: u64,
    pub e_credit: u64,
    pub commendation_count: u64,
    pub commendation_score: u64,
    pub gear_score: u64,
    pub dz_rank: u64,
    pub dz_playtime: u64,
    pub rogues_killed: u64,
    pub rogue_playtime: u64,
    pub longest_rogue: u64,
    pub conflict_rank: u64,
    pub conflict_playtime: u64,
    pub all_names: Vec<String>,
}

/// Keys of the second game's fields in its keyed record.
pub const D2_KEY_TOTAL_PLAYTIME: &'static str = "timePlayed";
pub const D2_KEY_LEVEL: &'static str = "highestPlayerLevel";
pub const D2_KEY_PVP_KILLS: &'static str = "killsPvP";
pub const D2_KEY_NPC_KILLS: &'static str = "killsNpc";
pub const D2_KEY_HEADSHOTS: &'static str = "headshots";
pub const D2_KEY_HEADSHOT_KILLS: &'static str = "killsHeadshot";
pub const D2_KEY_SHOTGUN_KILLS: &'static str = "killsWeaponShotgun";
pub const D2_KEY_SMG_KILLS: &'static str = "killsWeaponSubMachinegun";
pub const D2_KEY_PISTOL_KILLS: &'static str = "killsWeaponPistol";
pub const D2_KEY_RIFLE_KILLS: &'static str = "killsWeaponRifle";
pub const D2_KEY_PLAYER_KILLS: &'static str = "playersKilled";
pub const D2_KEY_XP_TOTAL: &'static str = "xPTotal";
pub const D2_KEY_PVE_XP: &'static str = "xPPve";
pub const D2_KEY_PVP_XP: &'static str = "xPPvp";
pub const D2_KEY_CLAN_XP: &'static str = "xPClan";
pub const D2_KEY_SHARPSHOOTER_KILLS: &'static str = "killsSpecializationSharpshooter";
pub const D2_KEY_SURVIVALIST_KILLS: &'static str = "killsSpecializationSurvivalist";
pub const D2_KEY_DEMOLITIONIST_KILLS: &'static str = "killsSpecializationDemolitionist";
pub const D2_KEY_E_CREDIT: &'static str = "eCreditBalance";
pub const D2_KEY_COMMENDATION_COUNT: &'static str = "commendationCount";
pub const D2_KEY_COMMENDATION_SCORE: &'static str = "commendationScore";
pub const D2_KEY_GEAR_SCORE: &'static str = "latestGearScore";
pub const D2_KEY_DZ_RANK: &'static str = "rankDZ";
pub const D2_KEY_DZ_PLAYTIME: &'static str = "timePlayedDarkZone";
pub const D2_KEY_ROGUES_KILLED: &'static str = "roguesKilled";
pub const D2_KEY_ROGUE_PLAYTIME: &'static str = "timePlayedRogue";
pub const D2_KEY_LONGEST_ROGUE: &'static str = "timePlayedRogueLongest";
pub const D2_KEY_CONFLICT_RANK: &'static str = "latestConflictRank";
pub const D2_KEY_CONFLICT_PLAYTIME: &'static str = "timePlayedConflict";

/// What the report of the second game holds for a keyed record.
pub open spec fn division2_matches(
    r: D2PlayerStats,
    entries: Seq<StatEntry>,
    profile: ProfileDTO,
    all_names: Seq<String>,
) -> bool {
    &&& r.id@ == profile.id@
    &&& r.name@ == name_or_empty(profile.name)
    &&& r.total_playtime == ratio_spec(keyed_count(entries, D2_KEY_TOTAL_PLAYTIME@), SECONDS_PER_HOUR)
    &&& r.level == keyed_count(entries, D2_KEY_LEVEL@)
    &&& r.pvp_kills == keyed_count(entries, D2_KEY_PVP_KILLS@)
    &&& r.npc_kills == keyed_count(entries, D2_KEY_NPC_KILLS@)
    &&& r.headshots == keyed_count(entries, D2_KEY_HEADSHOTS@)
    &&& r.headshot_kills == keyed_count(entries, D2_KEY_HEADSHOT_KILLS@)
    &&& r.shotgun_kills == keyed_count(entries, D2_KEY_SHOTGUN_KILLS@)
    &&& r.smg_kills == keyed_count(entries, D2_KEY_SMG_KILLS@)
    &&& r.pistol_kills == keyed_count(entries, D2_KEY_PISTOL_KILLS@)
    &&& r.rifle_kills == keyed_count(entries, D2_KEY_RIFLE_KILLS@)
    &&& r.player_kills == keyed_count(entries, D2_KEY_PLAYER_KILLS@)
    &&& r.xp_total == keyed_count(entries, D2_KEY_XP_TOTAL@)
    &&& r.pve_xp == keyed_count(entries, D2_KEY_PVE_XP@)
    &&& r.pvp_xp == keyed_count(entries, D2_KEY_PVP_XP@)
    &&& r.clan_xp == keyed_count(entries, D2_KEY_CLAN_XP@)
    &&& r.sharpshooter_kills == keyed_count(entries, D2_KEY_SHARPSHOOTER_KILLS@)
    &&& r.survivalist_kills == keyed_count(entries, D2_KEY_SURVIVALIST_KILLS@)
    &&& r.demolitionist_kills == keyed_count(entries, D2_KEY_DEMOLITIONIST_KILLS@)
    &&& r.e_credit == keyed_count(entries, D2_KEY_E_CREDIT@)
    &&& r.commendation_count == keyed_count(entries, D2_KEY_COMMENDATION_COUNT@)
    &&& r.commendation_score == keyed_count(entries, D2_KEY_COMMENDATION_SCORE@)
    &&& r.gear_score == keyed_count(entries, D2_KEY_GEAR_SCORE@)
    &&& r.dz_rank == keyed_count(entries, D2_KEY_DZ_RANK@)
    &&& r.dz_playtime == ratio_spec(keyed_count(entries, D2_KEY_DZ_PLAYTIME@), SECONDS_PER_HOUR)
    &&& r.rogues_killed == keyed_count(entries, D2_KEY_ROGUES_KILLED@)
    &&& r.rogue_playtime == ratio_spec(keyed_count(entries, D2_KEY_ROGUE_PLAYTIME@), SECONDS_PER_HOUR)
    &&& r.longest_rogue == ratio_spec(keyed_count(entries, D2_KEY_LONGEST_ROGUE@), SECONDS_PER_MINUTE)
    &&& r.conflict_rank == keyed_count(entries, D2_KEY_CONFLICT_RANK@)
    &&& r.conflict_playtime == ratio_spec(keyed_count(entries, D2_KEY_CONFLICT_PLAYTIME@), SECONDS_PER_HOUR)
    &&& r.all_names@ == all_names
}

/// Maps a keyed record of the second game into its report, reading each
/// field under its key.
pub fn map_division2_keyed(entries: &Vec<StatEntry>, profile: &ProfileDTO, all_names: Vec<String>) -> (r:
    D2PlayerStats)
    ensures
        division2_matches(r, entries@, *profile, all_names@),
{
    D2PlayerStats {
        id: profile.id.clone(),
        name: profile.name_or_empty(),
        total_playtime: ratio(count_for_key(entries, D2_KEY_TOTAL_PLAYTIME), SECONDS_PER_HOUR),
        level: count_for_key(entries, D2_KEY_LEVEL),
        pvp_kills: count_for_key(entries, D2_KEY_PVP_KILLS),
        npc_kills: count_for_key(entries, D2_KEY_NPC_KILLS),
        headshots: count_for_key(entries, D2_KEY_HEADSHOTS),
        headshot_kills: count_for_key(entries, D2_KEY_HEADSHOT_KILLS),
        shotgun_kills: count_for_key(entries, D2_KEY_SHOTGUN_KILLS),
        smg_kills: count_for_key(entries, D2_KEY_SMG_KILLS),
        pistol_kills: count_for_key(entries, D2_KEY_PISTOL_KILLS),
        rifle_kills: count_for_key(entries, D2_KEY_RIFLE_KILLS),
        player_kills: count_for_key(entries, D2_KEY_PLAYER_KILLS),
        xp_total: count_for_key(entries, D2_KEY_XP_TOTAL),
        pve_xp: count_for_key(entries, D2_KEY_PVE_XP),
        pvp_xp: count_for_key(entries, D2_KEY_PVP_XP),
        clan_xp: count_for_key(entries, D2_KEY_CLAN_XP),
        sharpshooter_kills: count_for_key(entries, D2_KEY_SHARPSHOOTER_KILLS),
        survivalist_kills: count_for_key(entries, D2_KEY_SURVIVALIST_KILLS),
        demolitionist_kills: count_for_key(entries, D2_KEY_DEMOLITIONIST_KILLS),
        e_credit: count_for_key(entries, D2_KEY_E_CREDIT),
        commendation_count: count_for_key(entries, D2_KEY_COMMENDATION_COUNT),
        commendation_score: count_for_key(entries, D2_KEY_COMMENDATION_SCORE),
        gear_score: count_for_key(entries, D2_KEY_GEAR_SCORE),
        dz_rank: count_for_key(entries, D2_KEY_DZ_RANK),
        dz_playtime: ratio(count_for_key(entries, D2_KEY_DZ_PLAYTIME), SECONDS_PER_HOUR),
        rogues_killed: count_for_key(entries, D2_KEY_ROGUES_KILLED),
        rogue_playtime: ratio(count_for_key(entries, D2_KEY_ROGUE_PLAYTIME), SECONDS_PER_HOUR),
        longest_rogue: ratio(count_for_key(entries, D2_KEY_LONGEST_ROGUE), SECONDS_PER_MINUTE),
        conflict_rank: count_for_key(entries, D2_KEY_CONFLICT_RANK),
        conflict_playtime: ratio(count_for_key(entries, D2_KEY_CONFLICT_PLAYTIME), SECONDS_PER_HOUR),
        all_names,
    }
}

/// A typed report of either game.
pub enum PlayerStatsReport {
    Division1(D1PlayerStats),
    Division2(D2PlayerStats),
}

/// What the report of a raw record of the game holds.
pub open spec fn report_matches(
    r: PlayerStatsReport,
    raw: Seq<StatEntry>,
    variant: GameVariant,
    profile: ProfileDTO,
    all_names: Seq<String>,
) -> bool {
    match r {
        PlayerStatsReport::Division1(s) => variant == GameVariant::Division1 && division1_matches(
            s,
            raw,
            profile,
            all_names,
        ),
        PlayerStatsReport::Division2(s) => variant == GameVariant::Division2 && division2_matches(
            s,
            raw,
            profile,
            all_names,
        ),
    }
}

/// Checks a raw record's length against its game's layout, then maps it into
/// that game's report.
pub fn map_to_game_stats(
    raw: &Vec<StatEntry>,
    variant: GameVariant,
    profile: &ProfileDTO,
    all_names: Vec<String>,
) -> (r: Result<PlayerStatsReport, SchemaMismatch>)
    ensures
        r is Err <==> raw@.len() != expected_length(variant),
        r matches Err(e) ==> e.observed == raw@.len() && e.expected == expected_length(variant),
        r matches Ok(s) ==> report_matches(s, raw@, variant, *profile, all_names@),
{
    if let Err(e) = check_schema(raw, variant) {
        return Err(e);
    }
    match variant {
        GameVariant::Division1 => match map_division1(raw, profile, all_names) {
            Ok(s) => Ok(PlayerStatsReport::Division1(s)),
            Err(e) => Err(e),
        },
        GameVariant::Division2 => Ok(
            PlayerStatsReport::Division2(map_division2_keyed(raw, profile, all_names)),
        ),
    }
}

} // verus!
