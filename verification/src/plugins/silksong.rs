//! Reading a Silksong save. Only money and the three movement abilities are
//! read; the other statistics are not yet tracked for this game.
use vstd::prelude::*;

use super::hollow_knight::{player_flag, player_int, player_section, texts};
use super::json::{
    json_member_bool, json_member_i64, json_section_present, member_bool, member_i64, section_present,
};

verus! {

/// What the companion reads out of a Silksong save.
///
/// The save's play time is a floating-point number; this type holds it in whole seconds.
pub struct SaveData {
    pub geo: i64,
    pub has_dash: bool,
    pub has_double_jump: bool,
    pub has_wall_jump: bool,
    pub play_time_secs: u64,
    pub max_health: u32,
    pub soul_vessels: u32,
    pub dream_essence: u32,
    pub grub_count: u32,
    pub nail_damage: u32,
    pub bosses_defeated: Vec<String>,
    pub charms_count: u32,
}

/// Whether `save` is what the JSON text `json` holds: `None` exactly when the
/// JSON does not parse or has no `playerData` member; otherwise money and the
/// movement abilities read from `playerData`, the given play time, five masks
/// of health, and nothing else.
pub open spec fn reads_save(json: Seq<char>, play_time_secs: u64, save: Option<SaveData>) -> bool {
    &&& save is Some == json_section_present(json, player_section())
    &&& save matches Some(d) ==> {
        &&& d.geo == player_int(json, "geo"@, 0)
        &&& d.has_dash == player_flag(json, "hasDash"@)
        &&& d.has_double_jump == player_flag(json, "hasDoubleJump"@)
        &&& d.has_wall_jump == player_flag(json, "hasWallJump"@)
        &&& d.play_time_secs == play_time_secs
        &&& d.max_health == 5
        &&& d.soul_vessels == 0
        &&& d.dream_essence == 0
        &&& d.grub_count == 0
        &&& d.nail_damage == 0
        &&& texts(d.bosses_defeated@) == Seq::<Seq<char>>::empty()
        &&& d.charms_count == 0
    }
}

/// Reads a Silksong save from its JSON text; `play_time_secs` is what the
/// floating-point member `playTime` of the same JSON holds, read by the caller.
pub fn parse_json(json: &str, play_time_secs: u64) -> (save: Option<SaveData>)
    ensures
        reads_save(json@, play_time_secs, save),
{
    if !section_present(json, "playerData") {
        return None;
    }
    let geo = match member_i64(json, "playerData", "geo") {
        Some(v) => v,
        None => 0,
    };
    let has_dash = match member_bool(json, "playerData", "hasDash") {
        Some(b) => b,
        None => false,
    };
    let has_double_jump = match member_bool(json, "playerData", "hasDoubleJump") {
        Some(b) => b,
        None => false,
    };
    let has_wall_jump = match member_bool(json, "playerData", "hasWallJump") {
        Some(b) => b,
        None => false,
    };
    let bosses_defeated: Vec<String> = Vec::new();
    assert(texts(bosses_defeated@) =~= Seq::<Seq<char>>::empty());
    Some(SaveData {
        geo,
        has_dash,
        has_double_jump,
        has_wall_jump,
        play_time_secs,
        max_health: 5,
        soul_vessels: 0,
        dream_essence: 0,
        grub_count: 0,
        nail_damage: 0,
        bosses_defeated,
        charms_count: 0,
    })
}

/// What a Silksong save read from `json` holds: money from `geo` (0 where
/// missing), each movement ability from its own flag of `playerData`
/// (`hasDash`, `hasWallJump`, `hasDoubleJump`), the given play time, five
/// masks, and no other statistics.
pub proof fn ss_save_reads_its_members(json: Seq<char>, play_time_secs: u64, save: Option<SaveData>)
    requires
        reads_save(json, play_time_secs, save),
    ensures
        (save is Some) == json_section_present(json, "playerData"@),
        save matches Some(d) ==> d.has_dash == (json_member_bool(json, "playerData"@, "hasDash"@) == Some(true)),
        save matches Some(d) ==> d.has_wall_jump == (json_member_bool(json, "playerData"@, "hasWallJump"@)
            == Some(true)),
        save matches Some(d) ==> d.has_double_jump == (json_member_bool(json, "playerData"@, "hasDoubleJump"@)
            == Some(true)),
        save matches Some(d) ==> d.geo == (match json_member_i64(json, "playerData"@, "geo"@) {
            Some(v) => v,
            None => 0,
        }),
        save matches Some(d) ==> d.play_time_secs == play_time_secs && d.max_health == 5 && d.soul_vessels == 0
            && d.dream_essence == 0 && d.grub_count == 0 && d.nail_damage == 0 && d.charms_count == 0
            && d.bosses_defeated@.len() == 0,
{
    if let Some(d) = save {
        assert(texts(d.bosses_defeated@).len() == d.bosses_defeated@.len());
    }
}

} // verus!
