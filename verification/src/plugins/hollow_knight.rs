//! Reading a Hollow Knight save: the player's abilities, statistics and the
//! bosses they have defeated.
use vstd::prelude::*;

use super::json::{
    json_member_bool, json_member_i64, json_section_present, member_bool, member_i64,
    section_present,
};
use crate::text::contains_str;

verus! {

/// Number of bosses whose defeat the save records.
pub const BOSS_COUNT: usize = 16;

/// The save flag that records the defeat of boss `i`.
pub open spec fn boss_flag_key(i: int) -> Seq<char> {
    if i == 0 { "killedFalseKnight"@ }
    else if i == 1 { "killedHornet"@ }
    else if i == 2 { "killedMantisLord"@ }
    else if i == 3 { "killedMageLord"@ }
    else if i == 4 { "killedHollowKnight"@ }
    else if i == 5 { "killedFinalBoss"@ }
    else if i == 6 { "killedGreyPrince"@ }
    else if i == 7 { "killedGrimm"@ }
    else if i == 8 { "killedNightmareGrimm"@ }
    else if i == 9 { "killedHiveKnight"@ }
    else if i == 10 { "killedTraitorLord"@ }
    else if i == 11 { "killedWhiteDefender"@ }
    else if i == 12 { "killedNailsage"@ }
    else if i == 13 { "killedPaintmaster"@ }
    else if i == 14 { "killedDungDefender"@ }
    else { "killedOblobble"@ }
}

/// The display name of boss `i`.
pub open spec fn boss_name(i: int) -> Seq<char> {
    if i == 0 { "False Knight"@ }
    else if i == 1 { "Hornet"@ }
    else if i == 2 { "Mantis Lords"@ }
    else if i == 3 { "Soul Master"@ }
    else if i == 4 { "The Hollow Knight"@ }
    else if i == 5 { "The Radiance"@ }
    else if i == 6 { "Grey Prince Zote"@ }
    else if i == 7 { "Troupe Master Grimm"@ }
    else if i == 8 { "Nightmare King Grimm"@ }
    else if i == 9 { "Hive Knight"@ }
    else if i == 10 { "Traitor Lord"@ }
    else if i == 11 { "White Defender"@ }
    else if i == 12 { "Nailsage Sly"@ }
    else if i == 13 { "Paintmaster Sheo"@ }
    else if i == 14 { "Dung Defender"@ }
    else { "Oblobbles"@ }
}

/// The save flag and display name of boss `i`.
pub fn boss_kill_flag(i: usize) -> (flag: (&'static str, &'static str))
    requires
        i < BOSS_COUNT,
    ensures
        flag.0@ == boss_flag_key(i as int),
        flag.1@ == boss_name(i as int),
{
    match i {
        0 => ("killedFalseKnight", "False Knight"),
        1 => ("killedHornet", "Hornet"),
        2 => ("killedMantisLord", "Mantis Lords"),
        3 => ("killedMageLord", "Soul Master"),
        4 => ("killedHollowKnight", "The Hollow Knight"),
        5 => ("killedFinalBoss", "The Radiance"),
        6 => ("killedGreyPrince", "Grey Prince Zote"),
        7 => ("killedGrimm", "Troupe Master Grimm"),
        8 => ("killedNightmareGrimm", "Nightmare King Grimm"),
        9 => ("killedHiveKnight", "Hive Knight"),
        10 => ("killedTraitorLord", "Traitor Lord"),
        11 => ("killedWhiteDefender", "White Defender"),
        12 => ("killedNailsage", "Nailsage Sly"),
        13 => ("killedPaintmaster", "Paintmaster Sheo"),
        14 => ("killedDungDefender", "Dung Defender"),
        _ => ("killedOblobble", "Oblobbles"),
    }
}

/// What the companion reads out of a Hollow Knight save.
///
/// The save stores completion and play time as floating-point numbers; this
/// type holds what is read from them: the play time in whole seconds, whether
/// completion is below the game's maximum of 112%, and dream essence as a
/// whole number.
pub struct SaveData {
    pub geo: i64,
    pub completion_below_max: bool,
    pub has_dash: bool,
    pub has_super_jump: bool,
    pub has_double_jump: bool,
    pub has_wall_jump: bool,
    pub has_acid_armour: bool,
    pub has_dream_nail: bool,
    pub play_time_secs: u64,
    pub max_health: u32,
    pub soul_vessels: u32,
    pub dream_essence: u32,
    pub grub_count: u32,
    pub nail_damage: u32,
    pub bosses_defeated: Vec<String>,
    pub charms_count: u32,
}

/// The texts of a list of strings.
pub open spec fn texts(v: Seq<String>) -> Seq<Seq<char>> {
    v.map_values(|s: String| s@)
}

/// The section of the save's JSON that holds the player's state.
pub open spec fn player_section() -> Seq<char> {
    "playerData"@
}

/// Whether the player-state flag `key` is set in `json` (a missing or
/// non-boolean member counts as unset).
pub open spec fn player_flag(json: Seq<char>, key: Seq<char>) -> bool {
    json_member_bool(json, player_section(), key) == Some(true)
}

/// The player-state integer `key` in `json`, or `default` where it is missing
/// or not an integer.
pub open spec fn player_int(json: Seq<char>, key: Seq<char>, default: i64) -> i64 {
    match json_member_i64(json, player_section(), key) {
        Some(v) => v,
        None => default,
    }
}

/// Division by a positive divisor, rounding toward zero as Rust's `/` does.
pub open spec fn div_toward_zero(x: int, d: int) -> int {
    if x >= 0 {
        x / d
    } else {
        -((-x) / d)
    }
}

/// Base health plus one mask for every four heart pieces, before narrowing to `u32`.
pub open spec fn health_total(json: Seq<char>) -> int {
    player_int(json, "maxHealth"@, 5) + div_toward_zero(player_int(json, "heartPieces"@, 0) as int, 4)
}

/// Whether adding up the player's health stays within `i64`.
pub open spec fn health_fits(json: Seq<char>) -> bool {
    i64::MIN <= health_total(json) <= i64::MAX
}

/// Display names of the bosses among the first `n` whose flags are set, in table order.
pub open spec fn defeated_bosses(json: Seq<char>, n: nat) -> Seq<Seq<char>>
    decreases n,
{
    if n == 0 {
        seq![]
    } else {
        let before = defeated_bosses(json, (n - 1) as nat);
        if player_flag(json, boss_flag_key(n - 1)) {
            before.push(boss_name(n - 1))
        } else {
            before
        }
    }
}

/// Whether `save` is what the JSON text `json` holds: `None` exactly when the
/// JSON does not parse or has no `playerData` member, and otherwise each field
/// read from its member of `playerData`, with the given values standing for the
/// floating-point members.
pub open spec fn reads_save(
    json: Seq<char>,
    dream_essence: u32,
    play_time_secs: u64,
    completion_below_max: bool,
    save: Option<SaveData>,
) -> bool {
    &&& save is Some == json_section_present(json, player_section())
    &&& save matches Some(d) ==> {
        &&& d.geo == player_int(json, "geo"@, 0)
        &&& d.completion_below_max == completion_below_max
        &&& d.has_dash == player_flag(json, "hasDash"@)
        &&& d.has_super_jump == player_flag(json, "hasSuperDash"@)
        &&& d.has_double_jump == player_flag(json, "hasDoubleJump"@)
        &&& d.has_wall_jump == player_flag(json, "hasWalljump"@)
        &&& d.has_acid_armour == player_flag(json, "hasAcidArmour"@)
        &&& d.has_dream_nail == player_flag(json, "hasDreamNail"@)
        &&& d.play_time_secs == play_time_secs
        &&& d.max_health == health_total(json) as u32
        &&& d.soul_vessels == div_toward_zero(player_int(json, "MPReserveMax"@, 0) as int, 33) as u32
        &&& d.dream_essence == dream_essence
        &&& d.grub_count == player_int(json, "grubsCollected"@, 0) as u32
        &&& d.nail_damage == player_int(json, "nailDamage"@, 0) as u32
        &&& texts(d.bosses_defeated@) == defeated_bosses(json, BOSS_COUNT as nat)
        &&& d.charms_count == player_int(json, "charmsOwned"@, 0) as u32
    }
}

/// Reads a Hollow Knight save from its JSON text.
///
/// `dream_essence`, `play_time_secs` and `completion_below_max` are what the
/// floating-point members `dreamOrbs`, `playTime` and `completionPercentage`
/// of the same JSON hold, read by the caller. The result is `None` exactly when
/// the JSON does not parse or has no `playerData` member.
pub fn parse_json(json: &str, dream_essence: u32, play_time_secs: u64, completion_below_max: bool) -> (save: Option<SaveData>)
    requires
        health_fits(json@),
    ensures
        reads_save(json@, dream_essence, play_time_secs, completion_below_max, save),
{
    if !section_present(json, "playerData") {
        return None;
    }
    let mut bosses_defeated: Vec<String> = Vec::new();
    let mut i: usize = 0;
    while i < BOSS_COUNT
        invariant
            i <= BOSS_COUNT,
            texts(bosses_defeated@) == defeated_bosses(json@, i as nat),
        decreases BOSS_COUNT - i,
    {
        let (key, name) = boss_kill_flag(i);
        let flag = member_bool(json, "playerData", key);
        let killed = match flag {
            Some(b) => b,
            None => false,
        };
        if killed {
            let ghost before = bosses_defeated@;
            bosses_defeated.push(String::from_str(name));
            assert(texts(bosses_defeated@) =~= texts(before).push(name@));
        }
        i += 1;
    }
    let heart_pieces = int_or(member_i64(json, "playerData", "heartPieces"), 0);
    let base_health = int_or(member_i64(json, "playerData", "maxHealth"), 5);
    let max_health = (base_health + heart_pieces / 4) as u32;
    let mp_reserve = int_or(member_i64(json, "playerData", "MPReserveMax"), 0);
    let soul_vessels = (mp_reserve / 33) as u32;
    let charm_ids = int_or(member_i64(json, "playerData", "charmsOwned"), 0) as u32;
    Some(SaveData {
        geo: int_or(member_i64(json, "playerData", "geo"), 0),
        completion_below_max,
        has_dash: flag_or_unset(member_bool(json, "playerData", "hasDash")),
        has_super_jump: flag_or_unset(member_bool(json, "playerData", "hasSuperDash")),
        has_double_jump: flag_or_unset(member_bool(json, "playerData", "hasDoubleJump")),
        has_wall_jump: flag_or_unset(member_bool(json, "playerData", "hasWalljump")),
        has_acid_armour: flag_or_unset(member_bool(json, "playerData", "hasAcidArmour")),
        has_dream_nail: flag_or_unset(member_bool(json, "playerData", "hasDreamNail")),
        play_time_secs,
        max_health,
        soul_vessels,
        dream_essence,
        grub_count: int_or(member_i64(json, "playerData", "grubsCollected"), 0) as u32,
        nail_damage: int_or(member_i64(json, "playerData", "nailDamage"), 0) as u32,
        bosses_defeated,
        charms_count: charm_ids as u32,
    })
}

/// Reads a Hollow Knight save from its JSON text, as `parse_json` does, where
/// adding up the player's health stays within `i64`; `None` where it would
/// overflow (where `parse_json` cannot be called).
pub fn parse_json_checked(json: &str, dream_essence: u32, play_time_secs: u64, completion_below_max: bool) -> (save: Option<Option<SaveData>>)
    ensures
        save is None == !health_fits(json@),
        save matches Some(s) ==> reads_save(json@, dream_essence, play_time_secs, completion_below_max, s),
{
    let heart_pieces = int_or(member_i64(json, "playerData", "heartPieces"), 0);
    let base_health = int_or(member_i64(json, "playerData", "maxHealth"), 5);
    let total: i128 = base_health as i128 + (heart_pieces / 4) as i128;
    if total < i64::MIN as i128 || total > i64::MAX as i128 {
        return None;
    }
    Some(parse_json(json, dream_essence, play_time_secs, completion_below_max))
}

/// Display names of the bosses among the first `n` of the table that are not
/// in `defeated`, in table order.
pub open spec fn undefeated_names(defeated: Seq<Seq<char>>, n: nat) -> Seq<Seq<char>>
    decreases n,
{
    if n == 0 {
        seq![]
    } else {
        let before = undefeated_names(defeated, (n - 1) as nat);
        if defeated.contains(boss_name(n - 1)) {
            before
        } else {
            before.push(boss_name(n - 1))
        }
    }
}

/// The texts of a list of string slices.
pub open spec fn str_texts(v: Seq<&str>) -> Seq<Seq<char>> {
    v.map_values(|s: &str| s@)
}

/// Display names of the bosses that `data` does not record as defeated, in table order.
pub fn undefeated_bosses(data: &SaveData) -> (names: Vec<&'static str>)
    ensures
        str_texts(names@) == undefeated_names(texts(data.bosses_defeated@), BOSS_COUNT as nat),
{
    let mut names: Vec<&'static str> = Vec::new();
    let mut i: usize = 0;
    while i < BOSS_COUNT
        invariant
            i <= BOSS_COUNT,
            str_texts(names@) == undefeated_names(texts(data.bosses_defeated@), i as nat),
        decreases BOSS_COUNT - i,
    {
        let (_, name) = boss_kill_flag(i);
        if !contains_str(&data.bosses_defeated, name) {
            let ghost before = names@;
            names.push(name);
            assert(str_texts(names@) =~= str_texts(before).push(name@));
        }
        i += 1;
    }
    names
}

fn int_or(value: Option<i64>, default: i64) -> (v: i64)
    ensures
        v == (match value {
            Some(x) => x,
            None => default,
        }),
{
    match value {
        Some(x) => x,
        None => default,
    }
}

fn flag_or_unset(value: Option<bool>) -> (set: bool)
    ensures
        set == (value == Some(true)),
{
    match value {
        Some(b) => b,
        None => false,
    }
}

/// The player-state integer `key` of `json`, or `default` where it is missing
/// or not an integer.
pub open spec fn member_or(json: Seq<char>, key: Seq<char>, default: i64) -> int {
    match json_member_i64(json, "playerData"@, key) {
        Some(v) => v as int,
        None => default as int,
    }
}

/// A quarter of `x`, rounded toward zero.
pub open spec fn quarter_toward_zero(x: int) -> int {
    if x >= 0 { x / 4 } else { -((-x) / 4) }
}

/// `name` alone where the save flag `key` is set, nothing otherwise.
pub open spec fn killed_boss(json: Seq<char>, key: Seq<char>, name: Seq<char>) -> Seq<Seq<char>> {
    if json_member_bool(json, "playerData"@, key) == Some(true) { seq![name] } else { seq![] }
}

proof fn lemma_defeated_bosses_step(json: Seq<char>, k: nat)
    requires
        k >= 1,
    ensures
        k == 1 ==> defeated_bosses(json, k) == killed_boss(json, boss_flag_key(0), boss_name(0)),
        k > 1 ==> defeated_bosses(json, k) == defeated_bosses(json, (k - 1) as nat) + killed_boss(
            json,
            boss_flag_key(k - 1),
            boss_name(k - 1),
        ),
{
    let before = defeated_bosses(json, (k - 1) as nat);
    let term = killed_boss(json, boss_flag_key(k - 1), boss_name(k - 1));
    assert(defeated_bosses(json, 0) =~= Seq::<Seq<char>>::empty());
    if json_member_bool(json, "playerData"@, boss_flag_key(k - 1)) == Some(true) {
        assert(before.push(boss_name(k - 1)) =~= before + term);
    } else {
        assert(before =~= before + term);
    }
    if k == 1 {
        assert(before + term =~= term);
    }
}

proof fn lemma_defeated_bosses_table(json: Seq<char>)
    ensures
        defeated_bosses(json, BOSS_COUNT as nat) == killed_boss(json, "killedFalseKnight"@, "False Knight"@) + killed_boss(json, "killedHornet"@, "Hornet"@) + killed_boss(json, "killedMantisLord"@, "Mantis Lords"@) + killed_boss(json, "killedMageLord"@, "Soul Master"@) + killed_boss(json, "killedHollowKnight"@, "The Hollow Knight"@) + killed_boss(json, "killedFinalBoss"@, "The Radiance"@) + killed_boss(json, "killedGreyPrince"@, "Grey Prince Zote"@) + killed_boss(json, "killedGrimm"@, "Troupe Master Grimm"@) + killed_boss(json, "killedNightmareGrimm"@, "Nightmare King Grimm"@) + killed_boss(json, "killedHiveKnight"@, "Hive Knight"@) + killed_boss(json, "killedTraitorLord"@, "Traitor Lord"@) + killed_boss(json, "killedWhiteDefender"@, "White Defender"@) + killed_boss(json, "killedNailsage"@, "Nailsage Sly"@) + killed_boss(json, "killedPaintmaster"@, "Paintmaster Sheo"@) + killed_boss(json, "killedDungDefender"@, "Dung Defender"@) + killed_boss(json, "killedOblobble"@, "Oblobbles"@),
{
    lemma_defeated_bosses_step(json, 1);
    assert(boss_flag_key(0) == "killedFalseKnight"@ && boss_name(0) == "False Knight"@);
    lemma_defeated_bosses_step(json, 2);
    assert(boss_flag_key(1) == "killedHornet"@ && boss_name(1) == "Hornet"@);
    lemma_defeated_bosses_step(json, 3);
    assert(boss_flag_key(2) == "killedMantisLord"@ && boss_name(2) == "Mantis Lords"@);
    lemma_defeated_bosses_step(json, 4);
    assert(boss_flag_key(3) == "killedMageLord"@ && boss_name(3) == "Soul Master"@);
    lemma_defeated_bosses_step(json, 5);
    assert(boss_flag_key(4) == "killedHollowKnight"@ && boss_name(4) == "The Hollow Knight"@);
    lemma_defeated_bosses_step(json, 6);
    assert(boss_flag_key(5) == "killedFinalBoss"@ && boss_name(5) == "The Radiance"@);
    lemma_defeated_bosses_step(json, 7);
    assert(boss_flag_key(6) == "killedGreyPrince"@ && boss_name(6) == "Grey Prince Zote"@);
    lemma_defeated_bosses_step(json, 8);
    assert(boss_flag_key(7) == "killedGrimm"@ && boss_name(7) == "Troupe Master Grimm"@);
    lemma_defeated_bosses_step(json, 9);
    assert(boss_flag_key(8) == "killedNightmareGrimm"@ && boss_name(8) == "Nightmare King Grimm"@);
    lemma_defeated_bosses_step(json, 10);
    assert(boss_flag_key(9) == "killedHiveKnight"@ && boss_name(9) == "Hive Knight"@);
    lemma_defeated_bosses_step(json, 11);
    assert(boss_flag_key(10) == "killedTraitorLord"@ && boss_name(10) == "Traitor Lord"@);
    lemma_defeated_bosses_step(json, 12);
    assert(boss_flag_key(11) == "killedWhiteDefender"@ && boss_name(11) == "White Defender"@);
    lemma_defeated_bosses_step(json, 13);
    assert(boss_flag_key(12) == "killedNailsage"@ && boss_name(12) == "Nailsage Sly"@);
    lemma_defeated_bosses_step(json, 14);
    assert(boss_flag_key(13) == "killedPaintmaster"@ && boss_name(13) == "Paintmaster Sheo"@);
    lemma_defeated_bosses_step(json, 15);
    assert(boss_flag_key(14) == "killedDungDefender"@ && boss_name(14) == "Dung Defender"@);
    lemma_defeated_bosses_step(json, 16);
    assert(boss_flag_key(15) == "killedOblobble"@ && boss_name(15) == "Oblobbles"@);
}

/// What a Hollow Knight save read from `json` holds, member by member of
/// `playerData`: each ability is its own flag (`hasDash`, `hasSuperDash`,
/// `hasDoubleJump`, `hasWalljump`, `hasAcidArmour`, `hasDreamNail`), health is
/// `maxHealth` (5 where missing) plus a mask for every four `heartPieces`, soul
/// vessels are `MPReserveMax` over 33, and the defeated bosses are those whose
/// kill flags are set, in the game's order.
pub proof fn hk_save_reads_its_members(
    json: Seq<char>,
    dream_essence: u32,
    play_time_secs: u64,
    completion_below_max: bool,
    save: Option<SaveData>,
)
    requires
        reads_save(json, dream_essence, play_time_secs, completion_below_max, save),
    ensures
        (save is Some) == json_section_present(json, "playerData"@),
        save matches Some(d) ==> d.has_dash == (json_member_bool(json, "playerData"@, "hasDash"@) == Some(true)),
        save matches Some(d) ==> d.has_super_jump == (json_member_bool(json, "playerData"@, "hasSuperDash"@) == Some(true)),
        save matches Some(d) ==> d.has_double_jump == (json_member_bool(json, "playerData"@, "hasDoubleJump"@) == Some(true)),
        save matches Some(d) ==> d.has_wall_jump == (json_member_bool(json, "playerData"@, "hasWalljump"@) == Some(true)),
        save matches Some(d) ==> d.has_acid_armour == (json_member_bool(json, "playerData"@, "hasAcidArmour"@) == Some(true)),
        save matches Some(d) ==> d.has_dream_nail == (json_member_bool(json, "playerData"@, "hasDreamNail"@) == Some(true)),
        save matches Some(d) ==> d.geo == member_or(json, "geo"@, 0),
        save matches Some(d) ==> d.max_health == (member_or(json, "maxHealth"@, 5) + quarter_toward_zero(member_or(json, "heartPieces"@, 0))) as u32,
        save matches Some(d) ==> d.soul_vessels == (if member_or(json, "MPReserveMax"@, 0) >= 0 { member_or(json, "MPReserveMax"@, 0) / 33 } else { -((-member_or(json, "MPReserveMax"@, 0)) / 33) }) as u32,
        save matches Some(d) ==> d.grub_count == member_or(json, "grubsCollected"@, 0) as u32,
        save matches Some(d) ==> d.nail_damage == member_or(json, "nailDamage"@, 0) as u32,
        save matches Some(d) ==> d.charms_count == member_or(json, "charmsOwned"@, 0) as u32,
        save matches Some(d) ==> d.dream_essence == dream_essence && d.play_time_secs == play_time_secs && d.completion_below_max == completion_below_max,
        save matches Some(d) ==> texts(d.bosses_defeated@) == killed_boss(json, "killedFalseKnight"@, "False Knight"@) + killed_boss(json, "killedHornet"@, "Hornet"@) + killed_boss(json, "killedMantisLord"@, "Mantis Lords"@) + killed_boss(json, "killedMageLord"@, "Soul Master"@) + killed_boss(json, "killedHollowKnight"@, "The Hollow Knight"@) + killed_boss(json, "killedFinalBoss"@, "The Radiance"@) + killed_boss(json, "killedGreyPrince"@, "Grey Prince Zote"@) + killed_boss(json, "killedGrimm"@, "Troupe Master Grimm"@) + killed_boss(json, "killedNightmareGrimm"@, "Nightmare King Grimm"@) + killed_boss(json, "killedHiveKnight"@, "Hive Knight"@) + killed_boss(json, "killedTraitorLord"@, "Traitor Lord"@) + killed_boss(json, "killedWhiteDefender"@, "White Defender"@) + killed_boss(json, "killedNailsage"@, "Nailsage Sly"@) + killed_boss(json, "killedPaintmaster"@, "Paintmaster Sheo"@) + killed_boss(json, "killedDungDefender"@, "Dung Defender"@) + killed_boss(json, "killedOblobble"@, "Oblobbles"@),
{
    lemma_defeated_bosses_table(json);
}

} // verus!
