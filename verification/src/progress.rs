//! What the companion window shows: the items the player holds, suggested next
//! steps, and a summary of the save.
use vstd::prelude::*;

use crate::plugins::hollow_knight::{self as hk, str_texts, texts, undefeated_bosses, undefeated_names, BOSS_COUNT};
use crate::plugins::silksong as ss;
use crate::text::{contains_slice_text, decimal, push_decimal};

verus! {

/// A suggestion shown to the player: a short title and a longer explanation.
pub struct NextStep {
    pub title: String,
    pub detail: String,
}

/// The title and detail of a suggestion, as text.
pub type StepText = (Seq<char>, Seq<char>);

/// The texts of a list of suggestions.
pub open spec fn step_texts(v: Seq<NextStep>) -> Seq<StepText> {
    v.map_values(|s: NextStep| (s.title@, s.detail@))
}

impl NextStep {
    /// A suggestion with the given title and detail.
    pub fn new(title: String, detail: String) -> (step: NextStep)
        ensures
            step.title@ == title@,
            step.detail@ == detail@,
    {
        NextStep { title, detail }
    }
}

/// `seq![x]` where `cond` holds, the empty sequence otherwise.
pub open spec fn when<T>(cond: bool, x: T) -> Seq<T> {
    if cond {
        seq![x]
    } else {
        seq![]
    }
}

fn push_step(steps: &mut Vec<NextStep>, title: &str, detail: &str)
    ensures
        step_texts(final(steps)@) == step_texts(old(steps)@).push((title@, detail@)),
{
    let ghost before = steps@;
    steps.push(NextStep::new(String::from_str(title), String::from_str(detail)));
    assert(step_texts(steps@) =~= step_texts(before).push((title@, detail@)));
}

fn push_text(items: &mut Vec<String>, text: &str)
    ensures
        texts(final(items)@) == texts(old(items)@).push(text@),
{
    let ghost before = items@;
    items.push(String::from_str(text));
    assert(texts(items@) =~= texts(before).push(text@));
}

// ---------------------------------------------------------------------------
// Nail and play time
// ---------------------------------------------------------------------------

/// The name of the nail at upgrade level `level`.
pub open spec fn nail_name_text(level: u32) -> Seq<char> {
    if level == 0 {
        "Old Nail"@
    } else if level == 1 {
        "Sharpened Nail"@
    } else if level == 2 {
        "Channelled Nail"@
    } else if level == 3 {
        "Coiled Nail"@
    } else {
        "Pure Nail"@
    }
}

/// The name of the nail at upgrade level `level`; every level from four up is the Pure Nail.
pub fn nail_name(level: u32) -> (name: &'static str)
    ensures
        name@ == nail_name_text(level),
{
    match level {
        0 => "Old Nail",
        1 => "Sharpened Nail",
        2 => "Channelled Nail",
        3 => "Coiled Nail",
        _ => "Pure Nail",
    }
}

/// Play time as shown: `<h>h <m>m` from one hour up, `<m>m` below, in whole
/// hours and the whole minutes past them.
pub open spec fn play_time_text(total_secs: u64) -> Seq<char> {
    let hours = total_secs / 3600;
    let minutes = (total_secs % 3600) / 60;
    if hours > 0 {
        decimal(hours as nat) + "h "@ + decimal(minutes as nat) + "m"@
    } else {
        decimal(minutes as nat) + "m"@
    }
}

/// Formats a play time of `total_secs` seconds.
pub fn format_play_time(total_secs: u64) -> (text: String)
    ensures
        text@ == play_time_text(total_secs),
{
    let hours = total_secs / 3600;
    let minutes = (total_secs % 3600) / 60;
    let mut text = String::new();
    if hours > 0 {
        push_decimal(&mut text, hours);
        text.append("h ");
        push_decimal(&mut text, minutes);
        text.append("m");
    } else {
        push_decimal(&mut text, minutes);
        text.append("m");
    }
    text
}

// ---------------------------------------------------------------------------
// Silksong
// ---------------------------------------------------------------------------

/// The movement abilities a Silksong player holds, in display order.
pub open spec fn ss_items_text(d: ss::SaveData) -> Seq<Seq<char>> {
    when(d.has_dash, "Dash"@) + when(d.has_wall_jump, "Wall Jump"@) + when(d.has_double_jump, "Double Jump"@)
}

/// Lists the movement abilities that the Silksong save holds.
pub fn ss_items(data: &ss::SaveData) -> (items: Vec<String>)
    ensures
        texts(items@) == ss_items_text(*data),
{
    let mut items: Vec<String> = Vec::new();
    if data.has_dash {
        push_text(&mut items, "Dash");
    }
    if data.has_wall_jump {
        push_text(&mut items, "Wall Jump");
    }
    if data.has_double_jump {
        push_text(&mut items, "Double Jump");
    }
    assert(texts(items@) =~= ss_items_text(*data));
    items
}

pub const SS_DASH_TITLE: &'static str = "Find the Dash";
pub const SS_DASH_DETAIL: &'static str = "Push through Pharloom's early areas — the Dash is the first big movement upgrade and lets you close gaps.";
pub const SS_WALL_JUMP_TITLE: &'static str = "Find the Wall Jump";
pub const SS_WALL_JUMP_DETAIL: &'static str = "Search Pharloom's ancient structures for the Wall Jump to climb vertical spaces and reach new heights.";
pub const SS_DOUBLE_JUMP_TITLE: &'static str = "Find the Double Jump";
pub const SS_DOUBLE_JUMP_DETAIL: &'static str = "Explore the deeper reaches of Pharloom to find the Double Jump and reach high platforms.";
pub const SS_EXPLORE_TITLE: &'static str = "Keep Exploring";
pub const SS_EXPLORE_DETAIL: &'static str = "With all movement abilities in hand, hunt down hidden rooms, collectibles, and bosses toward 100% completion.";

/// Suggestions to find each movement ability a Silksong player lacks.
pub open spec fn ss_missing_steps(d: ss::SaveData) -> Seq<StepText> {
    when(!d.has_dash, (SS_DASH_TITLE@, SS_DASH_DETAIL@))
        + when(!d.has_wall_jump, (SS_WALL_JUMP_TITLE@, SS_WALL_JUMP_DETAIL@))
        + when(!d.has_double_jump, (SS_DOUBLE_JUMP_TITLE@, SS_DOUBLE_JUMP_DETAIL@))
}

/// Suggestions for a Silksong player: each missing movement ability, or, with
/// all of them, to keep exploring.
pub open spec fn ss_next_steps_text(d: ss::SaveData) -> Seq<StepText> {
    let missing = ss_missing_steps(d);
    if missing.len() == 0 {
        seq![(SS_EXPLORE_TITLE@, SS_EXPLORE_DETAIL@)]
    } else {
        missing
    }
}

/// Suggests what a Silksong player could do next.
pub fn ss_next_steps(data: &ss::SaveData) -> (steps: Vec<NextStep>)
    ensures
        step_texts(steps@) == ss_next_steps_text(*data),
{
    let mut steps: Vec<NextStep> = Vec::new();
    if !data.has_dash {
        push_step(&mut steps, SS_DASH_TITLE, SS_DASH_DETAIL);
    }
    if !data.has_wall_jump {
        push_step(&mut steps, SS_WALL_JUMP_TITLE, SS_WALL_JUMP_DETAIL);
    }
    if !data.has_double_jump {
        push_step(&mut steps, SS_DOUBLE_JUMP_TITLE, SS_DOUBLE_JUMP_DETAIL);
    }
    if steps.len() == 0 {
        push_step(&mut steps, SS_EXPLORE_TITLE, SS_EXPLORE_DETAIL);
    }
    assert(step_texts(steps@) =~= ss_next_steps_text(*data));
    steps
}

// ---------------------------------------------------------------------------
// Hollow Knight
// ---------------------------------------------------------------------------

/// The movement and traversal items a Hollow Knight player holds, in display order.
pub open spec fn hk_items_text(d: hk::SaveData) -> Seq<Seq<char>> {
    when(d.has_dash, "Mothwing Cloak"@) + when(d.has_wall_jump, "Mantis Claw"@) + when(
        d.has_double_jump,
        "Monarch Wings"@,
    ) + when(d.has_super_jump, "Crystal Heart"@) + when(d.has_acid_armour, "Isma's Tear"@)
        + when(d.has_dream_nail, "Dream Nail"@)
}

/// Lists the items that the Hollow Knight save holds.
pub fn hk_items(data: &hk::SaveData) -> (items: Vec<String>)
    ensures
        texts(items@) == hk_items_text(*data),
{
    let mut items: Vec<String> = Vec::new();
    if data.has_dash {
        push_text(&mut items, "Mothwing Cloak");
    }
    if data.has_wall_jump {
        push_text(&mut items, "Mantis Claw");
    }
    if data.has_double_jump {
        push_text(&mut items, "Monarch Wings");
    }
    if data.has_super_jump {
        push_text(&mut items, "Crystal Heart");
    }
    if data.has_acid_armour {
        push_text(&mut items, "Isma's Tear");
    }
    if data.has_dream_nail {
        push_text(&mut items, "Dream Nail");
    }
    assert(texts(items@) =~= hk_items_text(*data));
    items
}

/// When a boss hint may be shown.
pub enum BossGate {
    /// From the start.
    Always,
    /// Once the player holds the Dream Nail.
    Dream,
    /// Once the player holds the Monarch Wings.
    Endgame,
}

/// Number of boss hints.
pub const BOSS_HINT_COUNT: usize = 11;

pub const HINT_SOUL_MASTER_TITLE: &'static str = "Defeat the Soul Master";
pub const HINT_SOUL_MASTER_DETAIL: &'static str = "Climb the Soul Sanctum in the City of Tears. Beating him grants Desolate Dive and unlocks the city's shortcuts.";
pub const HINT_DUNG_DEFENDER_TITLE: &'static str = "Defeat the Dung Defender";
pub const HINT_DUNG_DEFENDER_DETAIL: &'static str = "Find him in the Royal Waterways — he guards the path toward the Beast's Den and the second Dreamer.";
pub const HINT_ZOTE_TITLE: &'static str = "Beat Grey Prince Zote";
pub const HINT_ZOTE_DETAIL: &'static str = "A dream boss fought in Bretta's house in Dirtmouth. Beware — he gets stronger with every rematch.";
pub const HINT_TRAITOR_LORD_TITLE: &'static str = "Defeat the Traitor Lord";
pub const HINT_TRAITOR_LORD_DETAIL: &'static str = "In the deepest part of Queen's Gardens. Beating him opens a path to the White Lady and an ending piece.";
pub const HINT_GRIMM_TITLE: &'static str = "Summon and defeat Troupe Master Grimm";
pub const HINT_GRIMM_DETAIL: &'static str = "Burn the three Grimmkin flames to summon the Grimm Troupe's master in the Howling Cliffs and Dirtmouth.";
pub const HINT_SLY_TITLE: &'static str = "Defeat Nailsage Sly";
pub const HINT_SLY_DETAIL: &'static str = "Dream-fight Sly in the shed beneath the Crossroads' Nailsmith. He's blindingly fast — attack once, then dodge.";
pub const HINT_SHEO_TITLE: &'static str = "Defeat Paintmaster Sheo";
pub const HINT_SHEO_DETAIL: &'static str = "Dream-fight Sheo in his workshop above the Fungal Wastes. Three graceful phases with a big paintbrush.";
pub const HINT_WHITE_DEFENDER_TITLE: &'static str = "Defeat the White Defender";
pub const HINT_WHITE_DEFENDER_DETAIL: &'static str = "Dream-fight Dung Defender in the Royal Waterways. Every win earns a fragment of a pale secret.";
pub const HINT_HIVE_KNIGHT_TITLE: &'static str = "Defeat the Hive Knight";
pub const HINT_HIVE_KNIGHT_DETAIL: &'static str = "At the heart of the Hive, past Queen's Gardens. Defeating him secures the Hiveblood charm.";
pub const HINT_OBLOBBLES_TITLE: &'static str = "Defeat the Oblobbles";
pub const HINT_OBLOBBLES_DETAIL: &'static str = "Two floating juggernauts in Queen's Gardens — keep moving to slip between their spit volleys.";
pub const HINT_NKG_TITLE: &'static str = "Defeat Nightmare King Grimm";
pub const HINT_NKG_DETAIL: &'static str = "The true form of the Grimm Troupe's master. A brutal dance — learn the pufferfish pattern and the fight is yours.";

/// The boss that hint `i` is about.
pub open spec fn hint_boss(i: int) -> Seq<char> {
    if i == 0 { "Soul Master"@ }
    else if i == 1 { "Dung Defender"@ }
    else if i == 2 { "Grey Prince Zote"@ }
    else if i == 3 { "Traitor Lord"@ }
    else if i == 4 { "Troupe Master Grimm"@ }
    else if i == 5 { "Nailsage Sly"@ }
    else if i == 6 { "Paintmaster Sheo"@ }
    else if i == 7 { "White Defender"@ }
    else if i == 8 { "Hive Knight"@ }
    else if i == 9 { "Oblobbles"@ }
    else { "Nightmare King Grimm"@ }
}

/// When hint `i` may be shown.
pub open spec fn hint_gate(i: int) -> BossGate {
    if i <= 1 {
        BossGate::Always
    } else if i == 2 {
        BossGate::Dream
    } else {
        BossGate::Endgame
    }
}

/// The suggestion that hint `i` makes.
pub open spec fn hint_step(i: int) -> StepText {
    if i == 0 { (HINT_SOUL_MASTER_TITLE@, HINT_SOUL_MASTER_DETAIL@) }
    else if i == 1 { (HINT_DUNG_DEFENDER_TITLE@, HINT_DUNG_DEFENDER_DETAIL@) }
    else if i == 2 { (HINT_ZOTE_TITLE@, HINT_ZOTE_DETAIL@) }
    else if i == 3 { (HINT_TRAITOR_LORD_TITLE@, HINT_TRAITOR_LORD_DETAIL@) }
    else if i == 4 { (HINT_GRIMM_TITLE@, HINT_GRIMM_DETAIL@) }
    else if i == 5 { (HINT_SLY_TITLE@, HINT_SLY_DETAIL@) }
    else if i == 6 { (HINT_SHEO_TITLE@, HINT_SHEO_DETAIL@) }
    else if i == 7 { (HINT_WHITE_DEFENDER_TITLE@, HINT_WHITE_DEFENDER_DETAIL@) }
    else if i == 8 { (HINT_HIVE_KNIGHT_TITLE@, HINT_HIVE_KNIGHT_DETAIL@) }
    else if i == 9 { (HINT_OBLOBBLES_TITLE@, HINT_OBLOBBLES_DETAIL@) }
    else { (HINT_NKG_TITLE@, HINT_NKG_DETAIL@) }
}

/// Boss hint `i`: the boss's name, when it may be shown, and the suggestion.
pub fn boss_hint(i: usize) -> (hint: (&'static str, BossGate, &'static str, &'static str))
    requires
        i < BOSS_HINT_COUNT,
    ensures
        hint.0@ == hint_boss(i as int),
        hint.1 == hint_gate(i as int),
        (hint.2@, hint.3@) == hint_step(i as int),
{
    match i {
        0 => ("Soul Master", BossGate::Always, HINT_SOUL_MASTER_TITLE, HINT_SOUL_MASTER_DETAIL),
        1 => ("Dung Defender", BossGate::Always, HINT_DUNG_DEFENDER_TITLE, HINT_DUNG_DEFENDER_DETAIL),
        2 => ("Grey Prince Zote", BossGate::Dream, HINT_ZOTE_TITLE, HINT_ZOTE_DETAIL),
        3 => ("Traitor Lord", BossGate::Endgame, HINT_TRAITOR_LORD_TITLE, HINT_TRAITOR_LORD_DETAIL),
        4 => ("Troupe Master Grimm", BossGate::Endgame, HINT_GRIMM_TITLE, HINT_GRIMM_DETAIL),
        5 => ("Nailsage Sly", BossGate::Endgame, HINT_SLY_TITLE, HINT_SLY_DETAIL),
        6 => ("Paintmaster Sheo", BossGate::Endgame, HINT_SHEO_TITLE, HINT_SHEO_DETAIL),
        7 => ("White Defender", BossGate::Endgame, HINT_WHITE_DEFENDER_TITLE, HINT_WHITE_DEFENDER_DETAIL),
        8 => ("Hive Knight", BossGate::Endgame, HINT_HIVE_KNIGHT_TITLE, HINT_HIVE_KNIGHT_DETAIL),
        9 => ("Oblobbles", BossGate::Endgame, HINT_OBLOBBLES_TITLE, HINT_OBLOBBLES_DETAIL),
        _ => ("Nightmare King Grimm", BossGate::Endgame, HINT_NKG_TITLE, HINT_NKG_DETAIL),
    }
}

/// Whether a hint with gate `gate` may be shown to the player of `d`.
pub open spec fn gate_open(d: hk::SaveData, gate: BossGate) -> bool {
    match gate {
        BossGate::Always => true,
        BossGate::Dream => d.has_dream_nail,
        BossGate::Endgame => d.has_double_jump,
    }
}

/// Whether hint `i` applies to the player of `d`: its boss is one of the
/// tracked bosses not yet defeated, and its gate is open.
pub open spec fn hint_applies(d: hk::SaveData, i: int) -> bool {
    &&& undefeated_names(texts(d.bosses_defeated@), BOSS_COUNT as nat).contains(hint_boss(i))
    &&& gate_open(d, hint_gate(i))
}

/// The suggestions of the first `n` hints that apply, in hint order.
pub open spec fn applicable_hints(d: hk::SaveData, n: nat) -> Seq<StepText>
    decreases n,
{
    if n == 0 {
        seq![]
    } else {
        applicable_hints(d, (n - 1) as nat) + when(hint_applies(d, n - 1), hint_step(n - 1))
    }
}

/// At most the first three entries of `s`.
pub open spec fn first_three<T>(s: Seq<T>) -> Seq<T> {
    if s.len() <= 3 {
        s
    } else {
        s.take(3)
    }
}

/// Boss suggestions for a Hollow Knight player: the first three hints that apply.
pub open spec fn hk_boss_steps_text(d: hk::SaveData) -> Seq<StepText> {
    first_three(applicable_hints(d, BOSS_HINT_COUNT as nat))
}

proof fn lemma_applicable_hints_prefix(d: hk::SaveData, i: nat, j: nat)
    requires
        i <= j,
    ensures
        applicable_hints(d, i).len() <= applicable_hints(d, j).len(),
        applicable_hints(d, j).take(applicable_hints(d, i).len() as int) == applicable_hints(d, i),
    decreases j,
{
    if i < j {
        lemma_applicable_hints_prefix(d, i, (j - 1) as nat);
        let a = applicable_hints(d, (j - 1) as nat);
        let b = applicable_hints(d, j);
        let k = applicable_hints(d, i).len() as int;
        assert(b.take(k) =~= a.take(k));
    } else {
        assert(applicable_hints(d, j).take(applicable_hints(d, j).len() as int) =~= applicable_hints(d, j));
    }
}

/// Suggests up to three bosses for a Hollow Knight player to take on next.
pub fn hk_boss_steps(data: &hk::SaveData) -> (steps: Vec<NextStep>)
    ensures
        step_texts(steps@) == hk_boss_steps_text(*data),
{
    let undefeated = undefeated_bosses(data);
    let mut steps: Vec<NextStep> = Vec::new();
    let mut i: usize = 0;
    while i < BOSS_HINT_COUNT
        invariant_except_break
            i <= BOSS_HINT_COUNT,
            str_texts(undefeated@) == undefeated_names(texts(data.bosses_defeated@), BOSS_COUNT as nat),
            step_texts(steps@) == applicable_hints(*data, i as nat),
            steps@.len() <= 3,
        ensures
            step_texts(steps@) == hk_boss_steps_text(*data),
        decreases BOSS_HINT_COUNT - i,
    {
        if steps.len() >= 3 {
            proof {
                lemma_applicable_hints_prefix(*data, i as nat, BOSS_HINT_COUNT as nat);
                let all = applicable_hints(*data, BOSS_HINT_COUNT as nat);
                assert(all.take(3) =~= applicable_hints(*data, i as nat));
            }
            break;
        }
        let (name, gate, title, detail) = boss_hint(i);
        let ghost before = steps@;
        if contains_slice_text(&undefeated, name) {
            let unlocked = match gate {
                BossGate::Always => true,
                BossGate::Dream => data.has_dream_nail,
                BossGate::Endgame => data.has_double_jump,
            };
            if unlocked {
                push_step(&mut steps, title, detail);
            }
        }
        proof {
            assert(step_texts(steps@) =~= applicable_hints(*data, i as nat) + when(
                hint_applies(*data, i as int),
                hint_step(i as int),
            ));
        }
        i += 1;
        if i == BOSS_HINT_COUNT {
            proof {
                assert(applicable_hints(*data, BOSS_HINT_COUNT as nat).len() <= 3);
            }
        }
    }
    steps
}

pub const HK_DASH_TITLE: &'static str = "Get the Mothwing Cloak (Dash)";
pub const HK_DASH_DETAIL: &'static str = "Reach Greenpath and defeat Hornet for the first time. The dash lets you cross gaps and open up the world.";
pub const HK_CLAW_TITLE: &'static str = "Get the Mantis Claw (Wall Jump)";
pub const HK_CLAW_DETAIL: &'static str = "Travel to the Mantis Village in the Fungal Wastes and win the trial to earn the wall jump — you'll need it to climb most of Hallownest.";
pub const HK_CRYSTAL_HEART_TITLE: &'static str = "Get the Crystal Heart (Super Dash)";
pub const HK_CRYSTAL_HEART_DETAIL: &'static str = "In Crystal Peak, take the west path past the Crystal Guardian's room to claim the super dash and blaze across open areas.";
pub const HK_TEAR_TITLE: &'static str = "Get Isma's Tear (Acid Immunity)";
pub const HK_TEAR_DETAIL: &'static str = "Explore the Royal Waterways and follow the southern route to Isma's Grove to earn acid immunity and safely cross acid lakes.";
pub const HK_WINGS_TITLE: &'static str = "Get the Monarch Wings (Double Jump)";
pub const HK_WINGS_DETAIL: &'static str = "Defeat Broken Vessel in the Ancient Basin, then climb the ruined path into Kingdom's Edge to claim the wings.";
pub const HK_DREAM_NAIL_TITLE: &'static str = "Get the Dream Nail";
pub const HK_DREAM_NAIL_DETAIL: &'static str = "After gaining Soul powers, visit the Seer in the Resting Grounds to receive the Dream Nail — it reveals hidden lore, dream bosses, and the true ending.";
pub const HK_AWAKEN_TITLE: &'static str = "Awaken the Dream Nail";
pub const HK_AWAKEN_BEFORE: &'static str = "Collect dream essence (";
pub const HK_AWAKEN_AFTER: &'static str = "/2400) from dream warriors, dream bosses, and glowing trees to fully awaken it and unlock the final ending.";
pub const HK_GRUBS_TITLE: &'static str = "Rescue the Remaining Grubs";
pub const HK_GRUBS_BEFORE: &'static str = "You've freed ";
pub const HK_GRUBS_AFTER: &'static str = " of 46 grubs. Find the rest and return them to the Grubfather in the Forgotten Crossroads for rewards.";
pub const HK_CHARMS_TITLE: &'static str = "Collect More Charms";
pub const HK_CHARMS_BEFORE: &'static str = "You own ";
pub const HK_CHARMS_AFTER: &'static str = " of 40 charms. Buy from shops, explore secret rooms, and defeat optional bosses to complete the set.";
pub const HK_RADIANCE_TITLE: &'static str = "Challenge the Radiance";
pub const HK_RADIANCE_DETAIL: &'static str = "Face the Hollow Knight in the Black Egg, then strike the Radiance with the Dream Nail for the final showdown.";
pub const HK_COMPLETION_TITLE: &'static str = "Hunt for 112% Completion";
pub const HK_COMPLETION_DETAIL: &'static str = "Hollow Knight maxes out at 112% with the DLC. Track down remaining grubs, charms, dream bosses, and Godhome content.";

/// Dream essence the Dream Nail needs to awaken.
pub const DREAM_ESSENCE_GOAL: u32 = 2400;
/// Grubs there are to rescue.
pub const GRUB_TOTAL: u32 = 46;
/// Charms there are to collect.
pub const CHARM_TOTAL: u32 = 40;

/// `before`, then `n` in decimal, then `after`.
pub open spec fn with_count(before: Seq<char>, n: u32, after: Seq<char>) -> Seq<char> {
    before + decimal(n as nat) + after
}

/// Suggestions to pick up each movement item a Hollow Knight player lacks.
pub open spec fn hk_ability_steps(d: hk::SaveData) -> Seq<StepText> {
    when(!d.has_dash, (HK_DASH_TITLE@, HK_DASH_DETAIL@))
        + when(!d.has_wall_jump, (HK_CLAW_TITLE@, HK_CLAW_DETAIL@))
        + when(!d.has_super_jump, (HK_CRYSTAL_HEART_TITLE@, HK_CRYSTAL_HEART_DETAIL@))
        + when(!d.has_acid_armour, (HK_TEAR_TITLE@, HK_TEAR_DETAIL@))
        + when(!d.has_double_jump, (HK_WINGS_TITLE@, HK_WINGS_DETAIL@))
        + when(!d.has_dream_nail, (HK_DREAM_NAIL_TITLE@, HK_DREAM_NAIL_DETAIL@))
}

/// Suggestions about collections a Hollow Knight player has started but not finished.
pub open spec fn hk_collection_steps(d: hk::SaveData) -> Seq<StepText> {
    when(
        d.has_dream_nail && d.dream_essence < DREAM_ESSENCE_GOAL,
        (HK_AWAKEN_TITLE@, with_count(HK_AWAKEN_BEFORE@, d.dream_essence, HK_AWAKEN_AFTER@)),
    ) + when(
        0 < d.grub_count < GRUB_TOTAL,
        (HK_GRUBS_TITLE@, with_count(HK_GRUBS_BEFORE@, d.grub_count, HK_GRUBS_AFTER@)),
    ) + when(
        0 < d.charms_count < CHARM_TOTAL,
        (HK_CHARMS_TITLE@, with_count(HK_CHARMS_BEFORE@, d.charms_count, HK_CHARMS_AFTER@)),
    )
}

/// Suggestions for a Hollow Knight player: missing items, unfinished
/// collections and bosses; with none of those, the final fight, and the hunt
/// for full completion while completion is below its maximum.
pub open spec fn hk_next_steps_text(d: hk::SaveData) -> Seq<StepText> {
    let steps = hk_ability_steps(d) + hk_collection_steps(d) + hk_boss_steps_text(d);
    if steps.len() == 0 {
        seq![(HK_RADIANCE_TITLE@, HK_RADIANCE_DETAIL@)] + when(
            d.completion_below_max,
            (HK_COMPLETION_TITLE@, HK_COMPLETION_DETAIL@),
        )
    } else {
        steps
    }
}

fn push_counted_step(steps: &mut Vec<NextStep>, title: &str, before: &str, n: u32, after: &str)
    ensures
        step_texts(final(steps)@) == step_texts(old(steps)@).push(
            (title@, with_count(before@, n, after@)),
        ),
{
    let mut detail = String::from_str(before);
    push_decimal(&mut detail, n as u64);
    detail.append(after);
    let ghost prior = steps@;
    steps.push(NextStep::new(String::from_str(title), detail));
    assert(step_texts(steps@) =~= step_texts(prior).push((title@, with_count(before@, n, after@))));
}

fn push_ability_steps(steps: &mut Vec<NextStep>, data: &hk::SaveData)
    ensures
        step_texts(final(steps)@) == step_texts(old(steps)@) + hk_ability_steps(*data),
{
    let ghost start = step_texts(steps@);
    if !data.has_dash {
        push_step(steps, HK_DASH_TITLE, HK_DASH_DETAIL);
    }
    if !data.has_wall_jump {
        push_step(steps, HK_CLAW_TITLE, HK_CLAW_DETAIL);
    }
    if !data.has_super_jump {
        push_step(steps, HK_CRYSTAL_HEART_TITLE, HK_CRYSTAL_HEART_DETAIL);
    }
    if !data.has_acid_armour {
        push_step(steps, HK_TEAR_TITLE, HK_TEAR_DETAIL);
    }
    if !data.has_double_jump {
        push_step(steps, HK_WINGS_TITLE, HK_WINGS_DETAIL);
    }
    if !data.has_dream_nail {
        push_step(steps, HK_DREAM_NAIL_TITLE, HK_DREAM_NAIL_DETAIL);
    }
    assert(step_texts(steps@) =~= start + hk_ability_steps(*data));
}

fn push_collection_steps(steps: &mut Vec<NextStep>, data: &hk::SaveData)
    ensures
        step_texts(final(steps)@) == step_texts(old(steps)@) + hk_collection_steps(*data),
{
    let ghost start = step_texts(steps@);
    if data.has_dream_nail && data.dream_essence < DREAM_ESSENCE_GOAL {
        push_counted_step(steps, HK_AWAKEN_TITLE, HK_AWAKEN_BEFORE, data.dream_essence, HK_AWAKEN_AFTER);
    }
    if data.grub_count > 0 && data.grub_count < GRUB_TOTAL {
        push_counted_step(steps, HK_GRUBS_TITLE, HK_GRUBS_BEFORE, data.grub_count, HK_GRUBS_AFTER);
    }
    if data.charms_count > 0 && data.charms_count < CHARM_TOTAL {
        push_counted_step(steps, HK_CHARMS_TITLE, HK_CHARMS_BEFORE, data.charms_count, HK_CHARMS_AFTER);
    }
    assert(step_texts(steps@) =~= start + hk_collection_steps(*data));
}

/// Suggests what a Hollow Knight player could do next.
pub fn hk_next_steps(data: &hk::SaveData) -> (steps: Vec<NextStep>)
    ensures
        step_texts(steps@) == hk_next_steps_text(*data),
{
    let mut steps: Vec<NextStep> = Vec::new();
    push_ability_steps(&mut steps, data);
    push_collection_steps(&mut steps, data);
    let mut boss_steps = hk_boss_steps(data);
    let ghost prior = steps@;
    let ghost bosses = boss_steps@;
    steps.append(&mut boss_steps);
    proof {
        assert(step_texts(steps@) =~= step_texts(prior) + step_texts(bosses));
        assert(step_texts(Seq::<NextStep>::empty()) =~= Seq::<StepText>::empty());
    }
    if steps.len() == 0 {
        push_step(&mut steps, HK_RADIANCE_TITLE, HK_RADIANCE_DETAIL);
        if data.completion_below_max {
            push_step(&mut steps, HK_COMPLETION_TITLE, HK_COMPLETION_DETAIL);
        }
    }
    assert(step_texts(steps@) =~= hk_next_steps_text(*data));
    steps
}

// ---------------------------------------------------------------------------
// Progress summary
// ---------------------------------------------------------------------------

/// The summary of a save that the companion window shows.
///
/// The completion percentage is shown too; it is a floating-point number and
/// is added to this summary by the caller.
pub struct Progress {
    pub game: String,
    pub running: bool,
    pub geo: i64,
    pub items: Vec<String>,
    pub next_steps: Vec<NextStep>,
    pub play_time_formatted: String,
    pub max_health: u32,
    pub soul_vessels: u32,
    pub dream_essence: u32,
    pub grubs: u32,
    pub nail_damage: u32,
    pub nail_name: String,
    pub bosses: Vec<String>,
    pub charms_count: u32,
    pub has_save: bool,
}

/// Whether `p` summarises the Hollow Knight save `save` under the game name
/// `game`, with the given running state, items and suggestions.
pub open spec fn summarises_hk(
    p: Progress,
    game: Seq<char>,
    running: bool,
    save: hk::SaveData,
    items: Seq<Seq<char>>,
    steps: Seq<StepText>,
) -> bool {
    &&& p.game@ == game
    &&& p.running == running
    &&& p.geo == save.geo
    &&& texts(p.items@) == items
    &&& step_texts(p.next_steps@) == steps
    &&& p.play_time_formatted@ == play_time_text(save.play_time_secs)
    &&& p.max_health == save.max_health
    &&& p.soul_vessels == save.soul_vessels
    &&& p.dream_essence == save.dream_essence
    &&& p.grubs == save.grub_count
    &&& p.nail_damage == save.nail_damage
    &&& p.nail_name@ == nail_name_text(save.nail_damage)
    &&& texts(p.bosses@) == texts(save.bosses_defeated@)
    &&& p.charms_count == save.charms_count
    &&& p.has_save
}

/// Whether `p` summarises the Silksong save `save` under the game name `game`,
/// with the given running state, items and suggestions; Silksong has no nail
/// name to show.
pub open spec fn summarises_ss(
    p: Progress,
    game: Seq<char>,
    running: bool,
    save: ss::SaveData,
    items: Seq<Seq<char>>,
    steps: Seq<StepText>,
) -> bool {
    &&& p.game@ == game
    &&& p.running == running
    &&& p.geo == save.geo
    &&& texts(p.items@) == items
    &&& step_texts(p.next_steps@) == steps
    &&& p.play_time_formatted@ == play_time_text(save.play_time_secs)
    &&& p.max_health == save.max_health
    &&& p.soul_vessels == save.soul_vessels
    &&& p.dream_essence == save.dream_essence
    &&& p.grubs == save.grub_count
    &&& p.nail_damage == save.nail_damage
    &&& p.nail_name@ == NO_VALUE@
    &&& texts(p.bosses@) == texts(save.bosses_defeated@)
    &&& p.charms_count == save.charms_count
    &&& p.has_save
}

/// What is shown where there is no value.
pub const NO_VALUE: &'static str = "—";

fn copy_texts(v: &Vec<String>) -> (copy: Vec<String>)
    ensures
        texts(copy@) == texts(v@),
{
    let mut copy: Vec<String> = Vec::new();
    let mut i: usize = 0;
    while i < v.len()
        invariant
            i <= v@.len(),
            texts(copy@) == texts(v@).take(i as int),
        decreases v@.len() - i,
    {
        let ghost before = copy@;
        let item = v[i].clone();
        assert(item@ == v@[i as int]@);
        copy.push(item);
        assert(texts(copy@) =~= texts(before).push(item@));
        assert(texts(copy@) =~= texts(v@).take(i + 1));
        i += 1;
    }
    assert(texts(v@).take(i as int) =~= texts(v@));
    copy
}

/// Summarises a Hollow Knight save.
pub fn build_progress(
    game: String,
    running: bool,
    save: &hk::SaveData,
    items: Vec<String>,
    next_steps: Vec<NextStep>,
) -> (p: Progress)
    ensures
        summarises_hk(p, game@, running, *save, texts(items@), step_texts(next_steps@)),
{
    Progress {
        game,
        running,
        geo: save.geo,
        items,
        next_steps,
        play_time_formatted: format_play_time(save.play_time_secs),
        max_health: save.max_health,
        soul_vessels: save.soul_vessels,
        dream_essence: save.dream_essence,
        grubs: save.grub_count,
        nail_damage: save.nail_damage,
        nail_name: String::from_str(nail_name(save.nail_damage)),
        bosses: copy_texts(&save.bosses_defeated),
        charms_count: save.charms_count,
        has_save: true,
    }
}

/// Summarises a Silksong save.
pub fn build_progress_ss(
    game: String,
    running: bool,
    save: &ss::SaveData,
    items: Vec<String>,
    next_steps: Vec<NextStep>,
) -> (p: Progress)
    ensures
        summarises_ss(p, game@, running, *save, texts(items@), step_texts(next_steps@)),
{
    Progress {
        game,
        running,
        geo: save.geo,
        items,
        next_steps,
        play_time_formatted: format_play_time(save.play_time_secs),
        max_health: save.max_health,
        soul_vessels: save.soul_vessels,
        dream_essence: save.dream_essence,
        grubs: save.grub_count,
        nail_damage: save.nail_damage,
        nail_name: String::from_str(NO_VALUE),
        bosses: copy_texts(&save.bosses_defeated),
        charms_count: save.charms_count,
        has_save: true,
    }
}

pub const HOLLOW_KNIGHT: &'static str = "Hollow Knight";
pub const SILKSONG: &'static str = "Silksong";
pub const NO_SAVE_ITEM: &'static str = "No save file found";
pub const NEW_GAME_TITLE: &'static str = "Start a new game!";
pub const NEW_GAME_DETAIL: &'static str = "Create a save in Hollow Knight and begin your journey through Hallownest.";

/// Whether `p` is the summary shown when no save was found.
pub open spec fn is_no_save_progress(p: Progress) -> bool {
    &&& p.game@ == HOLLOW_KNIGHT@
    &&& !p.running
    &&& p.geo == 0
    &&& texts(p.items@) == seq![NO_SAVE_ITEM@]
    &&& step_texts(p.next_steps@) == seq![(NEW_GAME_TITLE@, NEW_GAME_DETAIL@)]
    &&& p.play_time_formatted@ == NO_VALUE@
    &&& p.max_health == 0
    &&& p.soul_vessels == 0
    &&& p.dream_essence == 0
    &&& p.grubs == 0
    &&& p.nail_damage == 0
    &&& p.nail_name@ == NO_VALUE@
    &&& p.bosses@.len() == 0
    &&& p.charms_count == 0
    &&& !p.has_save
}

/// The summary shown when no save was found.
pub fn no_save_progress() -> (p: Progress)
    ensures
        is_no_save_progress(p),
{
    let mut items: Vec<String> = Vec::new();
    assert(texts(items@) =~= Seq::<Seq<char>>::empty());
    push_text(&mut items, NO_SAVE_ITEM);
    assert(texts(items@) =~= seq![NO_SAVE_ITEM@]);
    let mut next_steps: Vec<NextStep> = Vec::new();
    assert(step_texts(next_steps@) =~= Seq::<StepText>::empty());
    push_step(&mut next_steps, NEW_GAME_TITLE, NEW_GAME_DETAIL);
    assert(step_texts(next_steps@) =~= seq![(NEW_GAME_TITLE@, NEW_GAME_DETAIL@)]);
    Progress {
        game: String::from_str(HOLLOW_KNIGHT),
        running: false,
        geo: 0,
        items,
        next_steps,
        play_time_formatted: String::from_str(NO_VALUE),
        max_health: 0,
        soul_vessels: 0,
        dream_essence: 0,
        grubs: 0,
        nail_damage: 0,
        nail_name: String::from_str(NO_VALUE),
        bosses: Vec::new(),
        charms_count: 0,
        has_save: false,
    }
}

/// Which save a summary was made from.
pub enum ProgressSource {
    HollowKnight,
    Silksong,
    NoSave,
}

/// Summarises a Hollow Knight save with its own items and suggestions.
fn hk_progress(running: bool, save: &hk::SaveData) -> (p: Progress)
    ensures
        summarises_hk(p, HOLLOW_KNIGHT@, running, *save, hk_items_text(*save), hk_next_steps_text(*save)),
{
    build_progress(String::from_str(HOLLOW_KNIGHT), running, save, hk_items(save), hk_next_steps(save))
}

/// Summarises a Silksong save with its own items and suggestions.
fn ss_progress(running: bool, save: &ss::SaveData) -> (p: Progress)
    ensures
        summarises_ss(p, SILKSONG@, running, *save, ss_items_text(*save), ss_next_steps_text(*save)),
{
    build_progress_ss(String::from_str(SILKSONG), running, save, ss_items(save), ss_next_steps(save))
}

/// Chooses what to show from the state of both games: a running game with a
/// save first (Hollow Knight before Silksong), then any save (in the same
/// order), and otherwise the summary for no save.
///
/// `hk_save` and `ss_save` are each game's most recent save, where one was found.
pub fn current_progress(
    hk_running: bool,
    hk_save: &Option<hk::SaveData>,
    ss_running: bool,
    ss_save: &Option<ss::SaveData>,
) -> (shown: (Progress, ProgressSource))
    ensures
        hk_running && hk_save is Some ==> shown.1 is HollowKnight && summarises_hk(
            shown.0,
            HOLLOW_KNIGHT@,
            true,
            hk_save->0,
            hk_items_text(hk_save->0),
            hk_next_steps_text(hk_save->0),
        ),
        !(hk_running && hk_save is Some) && ss_running && ss_save is Some ==> shown.1 is Silksong
            && summarises_ss(
            shown.0,
            SILKSONG@,
            true,
            ss_save->0,
            ss_items_text(ss_save->0),
            ss_next_steps_text(ss_save->0),
        ),
        !hk_running && hk_save is Some && !(ss_running && ss_save is Some) ==> shown.1 is HollowKnight
            && summarises_hk(
            shown.0,
            HOLLOW_KNIGHT@,
            false,
            hk_save->0,
            hk_items_text(hk_save->0),
            hk_next_steps_text(hk_save->0),
        ),
        hk_save is None && ss_save is Some && !ss_running ==> shown.1 is Silksong && summarises_ss(
            shown.0,
            SILKSONG@,
            false,
            ss_save->0,
            ss_items_text(ss_save->0),
            ss_next_steps_text(ss_save->0),
        ),
        hk_save is None && ss_save is None ==> shown.1 is NoSave && is_no_save_progress(shown.0),
{
    if hk_running {
        if let Some(save) = hk_save {
            return (hk_progress(true, save), ProgressSource::HollowKnight);
        }
    }
    if ss_running {
        if let Some(save) = ss_save {
            return (ss_progress(true, save), ProgressSource::Silksong);
        }
    }
    if let Some(save) = hk_save {
        return (hk_progress(false, save), ProgressSource::HollowKnight);
    }
    if let Some(save) = ss_save {
        return (ss_progress(false, save), ProgressSource::Silksong);
    }
    (no_save_progress(), ProgressSource::NoSave)
}

// ---------------------------------------------------------------------------
// Properties of the suggestions
// ---------------------------------------------------------------------------

/// A Hollow Knight player is always given at least one suggestion.
pub proof fn hk_next_steps_nonempty(d: hk::SaveData)
    ensures
        hk_next_steps_text(d).len() >= 1,
{
}

/// A Silksong player is always given at least one suggestion.
pub proof fn ss_next_steps_nonempty(d: ss::SaveData)
    ensures
        ss_next_steps_text(d).len() >= 1,
{
}

/// At most three bosses are suggested at a time.
pub proof fn hk_boss_steps_at_most_three(d: hk::SaveData)
    ensures
        hk_boss_steps_text(d).len() <= 3,
{
}

/// Items held and items suggested add up to the six movement items: each
/// flag puts its item in one list or the other.
pub proof fn hk_items_and_item_steps_complement(d: hk::SaveData)
    ensures
        hk_items_text(d).len() + hk_ability_steps(d).len() == 6,
{
}

/// A Silksong player is shown every movement ability either as held or as a
/// suggestion; holding all three, the only suggestion is to keep exploring.
pub proof fn ss_items_and_steps_complement(d: ss::SaveData)
    ensures
        ss_items_text(d).len() < 3 ==> ss_items_text(d).len() + ss_next_steps_text(d).len() == 3,
        ss_items_text(d).len() == 3 ==> ss_next_steps_text(d) == seq![(SS_EXPLORE_TITLE@, SS_EXPLORE_DETAIL@)],
{
}

/// Whether one of `steps` has the title `title`.
pub open spec fn has_title(steps: Seq<StepText>, title: Seq<char>) -> bool {
    exists|i: int| 0 <= i < steps.len() && (#[trigger] steps[i]).0 == title
}

proof fn lemma_contains_concat<T>(a: Seq<T>, b: Seq<T>, x: T)
    ensures
        (a + b).contains(x) == (a.contains(x) || b.contains(x)),
{
    if a.contains(x) {
        let i = choose|i: int| 0 <= i < a.len() && a[i] == x;
        assert((a + b)[i] == x);
    }
    if b.contains(x) {
        let j = choose|j: int| 0 <= j < b.len() && b[j] == x;
        assert((a + b)[a.len() + j] == x);
    }
    if (a + b).contains(x) {
        let k = choose|k: int| 0 <= k < (a + b).len() && (a + b)[k] == x;
        if k < a.len() {
            assert(a[k] == x);
        } else {
            assert(b[k - a.len()] == x);
        }
    }
}

proof fn lemma_contains_when<T>(c: bool, y: T, x: T)
    ensures
        self::when(c, y).contains(x) == (c && y == x),
{
    if c {
        assert(when(c, y)[0] == y);
    }
}

proof fn lemma_has_title_concat(a: Seq<StepText>, b: Seq<StepText>, t: Seq<char>)
    ensures
        has_title(a + b, t) == (has_title(a, t) || has_title(b, t)),
{
    if has_title(a, t) {
        let i = choose|i: int| 0 <= i < a.len() && (#[trigger] a[i]).0 == t;
        assert((a + b)[i] == a[i]);
    }
    if has_title(b, t) {
        let j = choose|j: int| 0 <= j < b.len() && (#[trigger] b[j]).0 == t;
        assert((a + b)[a.len() + j] == b[j]);
    }
    if has_title(a + b, t) {
        let k = choose|k: int| 0 <= k < (a + b).len() && (#[trigger] (a + b)[k]).0 == t;
        if k < a.len() {
            assert(a[k] == (a + b)[k]);
        } else {
            assert(b[k - a.len()] == (a + b)[k]);
        }
    }
}

proof fn lemma_has_title_when(c: bool, step: StepText, t: Seq<char>)
    ensures
        has_title(self::when(c, step), t) == (c && step.0 == t),
{
    if c {
        assert(when(c, step)[0] == step);
    }
}

/// Whether `title` begins with a capital G, as every suggestion to pick up an item does.
spec fn starts_with_g(title: Seq<char>) -> bool {
    title.len() > 0 && title[0] == 'G'
}

/// No title among `steps` begins with a capital G.
spec fn no_item_titles(steps: Seq<StepText>) -> bool {
    forall|i: int| 0 <= i < steps.len() ==> !starts_with_g((#[trigger] steps[i]).0)
}

proof fn lemma_no_item_titles_concat(a: Seq<StepText>, b: Seq<StepText>)
    requires
        no_item_titles(a),
        no_item_titles(b),
    ensures
        no_item_titles(a + b),
{
    assert forall|i: int| 0 <= i < (a + b).len() implies !starts_with_g((#[trigger] (a + b)[i]).0) by {
        if i < a.len() {
            assert((a + b)[i] == a[i]);
        } else {
            assert((a + b)[i] == b[i - a.len()]);
        }
    }
}

proof fn lemma_hint_titles(i: int)
    ensures
        !starts_with_g(hint_step(i).0),
{
    reveal_strlit("Defeat the Soul Master");
    reveal_strlit("Defeat the Dung Defender");
    reveal_strlit("Beat Grey Prince Zote");
    reveal_strlit("Defeat the Traitor Lord");
    reveal_strlit("Summon and defeat Troupe Master Grimm");
    reveal_strlit("Defeat Nailsage Sly");
    reveal_strlit("Defeat Paintmaster Sheo");
    reveal_strlit("Defeat the White Defender");
    reveal_strlit("Defeat the Hive Knight");
    reveal_strlit("Defeat the Oblobbles");
    reveal_strlit("Defeat Nightmare King Grimm");
}

proof fn lemma_applicable_hints_no_item_titles(d: hk::SaveData, n: nat)
    ensures
        no_item_titles(applicable_hints(d, n)),
    decreases n,
{
    if n > 0 {
        lemma_applicable_hints_no_item_titles(d, (n - 1) as nat);
        let w = when(hint_applies(d, n - 1), hint_step(n - 1));
        lemma_hint_titles(n - 1);
        assert(no_item_titles(w)) by {
            if hint_applies(d, n - 1) {
                assert(w[0] == hint_step(n - 1));
            }
        }
        lemma_no_item_titles_concat(applicable_hints(d, (n - 1) as nat), w);
    }
}

proof fn lemma_other_steps_no_item_titles(d: hk::SaveData)
    ensures
        no_item_titles(hk_collection_steps(d)),
        no_item_titles(hk_boss_steps_text(d)),
        no_item_titles(seq![(HK_RADIANCE_TITLE@, HK_RADIANCE_DETAIL@)] + self::when(
            d.completion_below_max,
            (HK_COMPLETION_TITLE@, HK_COMPLETION_DETAIL@),
        )),
{
    reveal_strlit("Awaken the Dream Nail");
    reveal_strlit("Rescue the Remaining Grubs");
    reveal_strlit("Collect More Charms");
    reveal_strlit("Challenge the Radiance");
    reveal_strlit("Hunt for 112% Completion");
    let awaken = when(
        d.has_dream_nail && d.dream_essence < DREAM_ESSENCE_GOAL,
        (HK_AWAKEN_TITLE@, with_count(HK_AWAKEN_BEFORE@, d.dream_essence, HK_AWAKEN_AFTER@)),
    );
    let grubs = when(
        0 < d.grub_count < GRUB_TOTAL,
        (HK_GRUBS_TITLE@, with_count(HK_GRUBS_BEFORE@, d.grub_count, HK_GRUBS_AFTER@)),
    );
    let charms = when(
        0 < d.charms_count < CHARM_TOTAL,
        (HK_CHARMS_TITLE@, with_count(HK_CHARMS_BEFORE@, d.charms_count, HK_CHARMS_AFTER@)),
    );
    assert(no_item_titles(awaken)) by {
        if awaken.len() > 0 {
            assert(awaken[0].0 == HK_AWAKEN_TITLE@);
        }
    }
    assert(no_item_titles(grubs)) by {
        if grubs.len() > 0 {
            assert(grubs[0].0 == HK_GRUBS_TITLE@);
        }
    }
    assert(no_item_titles(charms)) by {
        if charms.len() > 0 {
            assert(charms[0].0 == HK_CHARMS_TITLE@);
        }
    }
    lemma_no_item_titles_concat(awaken, grubs);
    lemma_no_item_titles_concat(awaken + grubs, charms);
    let all = applicable_hints(d, BOSS_HINT_COUNT as nat);
    lemma_applicable_hints_no_item_titles(d, BOSS_HINT_COUNT as nat);
    assert(no_item_titles(first_three(all))) by {
        if all.len() > 3 {
            assert forall|i: int| 0 <= i < all.take(3).len() implies !starts_with_g(
                (#[trigger] all.take(3)[i]).0,
            ) by {
                assert(all.take(3)[i] == all[i]);
            }
        }
    }
    let radiance = seq![(HK_RADIANCE_TITLE@, HK_RADIANCE_DETAIL@)];
    let completion = when(d.completion_below_max, (HK_COMPLETION_TITLE@, HK_COMPLETION_DETAIL@));
    assert(no_item_titles(radiance)) by {
        assert(radiance[0].0 == HK_RADIANCE_TITLE@);
    }
    assert(no_item_titles(completion)) by {
        if completion.len() > 0 {
            assert(completion[0].0 == HK_COMPLETION_TITLE@);
        }
    }
    lemma_no_item_titles_concat(radiance, completion);
}

proof fn lemma_no_item_titles_has_title(steps: Seq<StepText>, t: Seq<char>)
    requires
        no_item_titles(steps),
        starts_with_g(t),
    ensures
        !has_title(steps, t),
{
    if has_title(steps, t) {
        let i = choose|i: int| 0 <= i < steps.len() && (#[trigger] steps[i]).0 == t;
        assert(!starts_with_g(steps[i].0));
    }
}

/// Whether `title` is suggested to the Hollow Knight player of `d` exactly
/// when the suggestions to pick up items suggest it.
proof fn lemma_item_title_suggested(d: hk::SaveData, t: Seq<char>)
    requires
        starts_with_g(t),
    ensures
        has_title(hk_next_steps_text(d), t) == has_title(hk_ability_steps(d), t),
{
    lemma_other_steps_no_item_titles(d);
    lemma_no_item_titles_has_title(hk_collection_steps(d), t);
    lemma_no_item_titles_has_title(hk_boss_steps_text(d), t);
    let a = hk_ability_steps(d);
    let c = hk_collection_steps(d);
    let b = hk_boss_steps_text(d);
    lemma_has_title_concat(a, c, t);
    lemma_has_title_concat(a + c, b, t);
    let fin = seq![(HK_RADIANCE_TITLE@, HK_RADIANCE_DETAIL@)] + when(
        d.completion_below_max,
        (HK_COMPLETION_TITLE@, HK_COMPLETION_DETAIL@),
    );
    lemma_no_item_titles_has_title(fin, t);
    if (a + c + b).len() == 0 {
        assert(a.len() == 0);
        assert(!has_title(a, t));
    }
}

proof fn lemma_ability_titles(d: hk::SaveData)
    ensures
        has_title(hk_ability_steps(d), HK_DASH_TITLE@) == !d.has_dash,
        has_title(hk_ability_steps(d), HK_CLAW_TITLE@) == !d.has_wall_jump,
        has_title(hk_ability_steps(d), HK_CRYSTAL_HEART_TITLE@) == !d.has_super_jump,
        has_title(hk_ability_steps(d), HK_TEAR_TITLE@) == !d.has_acid_armour,
        has_title(hk_ability_steps(d), HK_WINGS_TITLE@) == !d.has_double_jump,
        has_title(hk_ability_steps(d), HK_DREAM_NAIL_TITLE@) == !d.has_dream_nail,
        starts_with_g(HK_DASH_TITLE@),
        starts_with_g(HK_CLAW_TITLE@),
        starts_with_g(HK_CRYSTAL_HEART_TITLE@),
        starts_with_g(HK_TEAR_TITLE@),
        starts_with_g(HK_WINGS_TITLE@),
        starts_with_g(HK_DREAM_NAIL_TITLE@),
{
    reveal_strlit("Get the Mothwing Cloak (Dash)");
    reveal_strlit("Get the Mantis Claw (Wall Jump)");
    reveal_strlit("Get the Crystal Heart (Super Dash)");
    reveal_strlit("Get Isma's Tear (Acid Immunity)");
    reveal_strlit("Get the Monarch Wings (Double Jump)");
    reveal_strlit("Get the Dream Nail");
    assert(HK_CLAW_TITLE@[4] != HK_TEAR_TITLE@[4]);
    let s0 = when(!d.has_dash, (HK_DASH_TITLE@, HK_DASH_DETAIL@));
    let s1 = when(!d.has_wall_jump, (HK_CLAW_TITLE@, HK_CLAW_DETAIL@));
    let s2 = when(!d.has_super_jump, (HK_CRYSTAL_HEART_TITLE@, HK_CRYSTAL_HEART_DETAIL@));
    let s3 = when(!d.has_acid_armour, (HK_TEAR_TITLE@, HK_TEAR_DETAIL@));
    let s4 = when(!d.has_double_jump, (HK_WINGS_TITLE@, HK_WINGS_DETAIL@));
    let s5 = when(!d.has_dream_nail, (HK_DREAM_NAIL_TITLE@, HK_DREAM_NAIL_DETAIL@));
    let titles = seq![HK_DASH_TITLE@, HK_CLAW_TITLE@, HK_CRYSTAL_HEART_TITLE@, HK_TEAR_TITLE@,
        HK_WINGS_TITLE@, HK_DREAM_NAIL_TITLE@];
    assert forall|k: int| 0 <= k < 6 implies has_title(hk_ability_steps(d), #[trigger] titles[k]) == (
        (!d.has_dash && HK_DASH_TITLE@ == titles[k])
        || (!d.has_wall_jump && HK_CLAW_TITLE@ == titles[k])
        || (!d.has_super_jump && HK_CRYSTAL_HEART_TITLE@ == titles[k])
        || (!d.has_acid_armour && HK_TEAR_TITLE@ == titles[k])
        || (!d.has_double_jump && HK_WINGS_TITLE@ == titles[k])
        || (!d.has_dream_nail && HK_DREAM_NAIL_TITLE@ == titles[k])
    ) by {
        let t = titles[k];
        lemma_has_title_when(!d.has_dash, (HK_DASH_TITLE@, HK_DASH_DETAIL@), t);
        lemma_has_title_when(!d.has_wall_jump, (HK_CLAW_TITLE@, HK_CLAW_DETAIL@), t);
        lemma_has_title_when(!d.has_super_jump, (HK_CRYSTAL_HEART_TITLE@, HK_CRYSTAL_HEART_DETAIL@), t);
        lemma_has_title_when(!d.has_acid_armour, (HK_TEAR_TITLE@, HK_TEAR_DETAIL@), t);
        lemma_has_title_when(!d.has_double_jump, (HK_WINGS_TITLE@, HK_WINGS_DETAIL@), t);
        lemma_has_title_when(!d.has_dream_nail, (HK_DREAM_NAIL_TITLE@, HK_DREAM_NAIL_DETAIL@), t);
        lemma_has_title_concat(s0, s1, t);
        lemma_has_title_concat(s0 + s1, s2, t);
        lemma_has_title_concat(s0 + s1 + s2, s3, t);
        lemma_has_title_concat(s0 + s1 + s2 + s3, s4, t);
        lemma_has_title_concat(s0 + s1 + s2 + s3 + s4, s5, t);
    }
    assert(titles[0] == HK_DASH_TITLE@);
    assert(titles[1] == HK_CLAW_TITLE@);
    assert(titles[2] == HK_CRYSTAL_HEART_TITLE@);
    assert(titles[3] == HK_TEAR_TITLE@);
    assert(titles[4] == HK_WINGS_TITLE@);
    assert(titles[5] == HK_DREAM_NAIL_TITLE@);
}

proof fn lemma_hk_items_contains(d: hk::SaveData, x: Seq<char>)
    ensures
        hk_items_text(d).contains(x) == ((d.has_dash && "Mothwing Cloak"@ == x) || (d.has_wall_jump
            && "Mantis Claw"@ == x) || (d.has_double_jump && "Monarch Wings"@ == x) || (
        d.has_super_jump && "Crystal Heart"@ == x) || (d.has_acid_armour && "Isma's Tear"@ == x)
            || (d.has_dream_nail && "Dream Nail"@ == x)),
{
    let i0 = when(d.has_dash, "Mothwing Cloak"@);
    let i1 = when(d.has_wall_jump, "Mantis Claw"@);
    let i2 = when(d.has_double_jump, "Monarch Wings"@);
    let i3 = when(d.has_super_jump, "Crystal Heart"@);
    let i4 = when(d.has_acid_armour, "Isma's Tear"@);
    let i5 = when(d.has_dream_nail, "Dream Nail"@);
    lemma_contains_when(d.has_dash, "Mothwing Cloak"@, x);
    lemma_contains_when(d.has_wall_jump, "Mantis Claw"@, x);
    lemma_contains_when(d.has_double_jump, "Monarch Wings"@, x);
    lemma_contains_when(d.has_super_jump, "Crystal Heart"@, x);
    lemma_contains_when(d.has_acid_armour, "Isma's Tear"@, x);
    lemma_contains_when(d.has_dream_nail, "Dream Nail"@, x);
    lemma_contains_concat(i0, i1, x);
    lemma_contains_concat(i0 + i1, i2, x);
    lemma_contains_concat(i0 + i1 + i2, i3, x);
    lemma_contains_concat(i0 + i1 + i2 + i3, i4, x);
    lemma_contains_concat(i0 + i1 + i2 + i3 + i4, i5, x);
}

proof fn lemma_hk_item_names(d: hk::SaveData)
    ensures
        hk_items_text(d).contains("Mothwing Cloak"@) == d.has_dash,
        hk_items_text(d).contains("Mantis Claw"@) == d.has_wall_jump,
        hk_items_text(d).contains("Monarch Wings"@) == d.has_double_jump,
        hk_items_text(d).contains("Crystal Heart"@) == d.has_super_jump,
        hk_items_text(d).contains("Isma's Tear"@) == d.has_acid_armour,
        hk_items_text(d).contains("Dream Nail"@) == d.has_dream_nail,
{
    reveal_strlit("Mothwing Cloak");
    reveal_strlit("Mantis Claw");
    reveal_strlit("Monarch Wings");
    reveal_strlit("Crystal Heart");
    reveal_strlit("Isma's Tear");
    reveal_strlit("Dream Nail");
    let names = seq!["Mothwing Cloak"@, "Mantis Claw"@, "Monarch Wings"@, "Crystal Heart"@,
        "Isma's Tear"@, "Dream Nail"@];
    assert(names[0].len() == 14 && names[1].len() == 11 && names[2].len() == 13);
    assert(names[3].len() == 13 && names[4].len() == 11 && names[5].len() == 10);
    assert(names[1][0] != names[4][0]);
    assert(names[2][0] != names[3][0]);
    assert forall|a: int, b: int| 0 <= a < 6 && 0 <= b < 6 && a != b implies #[trigger] names[a]
        != #[trigger] names[b] by {
        if names[a] == names[b] {
            assert(names[a].len() == names[b].len());
            assert(names[a][0] == names[b][0]);
        }
    }
    lemma_hk_items_contains(d, names[0]);
    lemma_hk_items_contains(d, names[1]);
    lemma_hk_items_contains(d, names[2]);
    lemma_hk_items_contains(d, names[3]);
    lemma_hk_items_contains(d, names[4]);
    lemma_hk_items_contains(d, names[5]);
}

/// Each of the six movement items is either held, and listed among the
/// items, or suggested, by the suggestion to get it (whose title names it and
/// begins with "Get"), and never both.
pub proof fn hk_items_and_item_steps_agree(d: hk::SaveData)
    ensures
        hk_items_text(d).contains("Mothwing Cloak"@) == !has_title(hk_next_steps_text(d), HK_DASH_TITLE@),
        hk_items_text(d).contains("Mantis Claw"@) == !has_title(hk_next_steps_text(d), HK_CLAW_TITLE@),
        hk_items_text(d).contains("Monarch Wings"@) == !has_title(hk_next_steps_text(d), HK_WINGS_TITLE@),
        hk_items_text(d).contains("Crystal Heart"@) == !has_title(
            hk_next_steps_text(d),
            HK_CRYSTAL_HEART_TITLE@,
        ),
        hk_items_text(d).contains("Isma's Tear"@) == !has_title(hk_next_steps_text(d), HK_TEAR_TITLE@),
        hk_items_text(d).contains("Dream Nail"@) == !has_title(hk_next_steps_text(d), HK_DREAM_NAIL_TITLE@),
{
    lemma_hk_item_names(d);
    lemma_ability_titles(d);
    lemma_item_title_suggested(d, HK_DASH_TITLE@);
    lemma_item_title_suggested(d, HK_CLAW_TITLE@);
    lemma_item_title_suggested(d, HK_WINGS_TITLE@);
    lemma_item_title_suggested(d, HK_CRYSTAL_HEART_TITLE@);
    lemma_item_title_suggested(d, HK_TEAR_TITLE@);
    lemma_item_title_suggested(d, HK_DREAM_NAIL_TITLE@);
}

proof fn lemma_ss_missing_titles(d: ss::SaveData, t: Seq<char>)
    ensures
        has_title(ss_missing_steps(d), t) == ((!d.has_dash && SS_DASH_TITLE@ == t) || (
        !d.has_wall_jump && SS_WALL_JUMP_TITLE@ == t) || (!d.has_double_jump
            && SS_DOUBLE_JUMP_TITLE@ == t)),
{
    let s0 = when(!d.has_dash, (SS_DASH_TITLE@, SS_DASH_DETAIL@));
    let s1 = when(!d.has_wall_jump, (SS_WALL_JUMP_TITLE@, SS_WALL_JUMP_DETAIL@));
    let s2 = when(!d.has_double_jump, (SS_DOUBLE_JUMP_TITLE@, SS_DOUBLE_JUMP_DETAIL@));
    lemma_has_title_when(!d.has_dash, (SS_DASH_TITLE@, SS_DASH_DETAIL@), t);
    lemma_has_title_when(!d.has_wall_jump, (SS_WALL_JUMP_TITLE@, SS_WALL_JUMP_DETAIL@), t);
    lemma_has_title_when(!d.has_double_jump, (SS_DOUBLE_JUMP_TITLE@, SS_DOUBLE_JUMP_DETAIL@), t);
    lemma_has_title_concat(s0, s1, t);
    lemma_has_title_concat(s0 + s1, s2, t);
}

proof fn lemma_ss_items_contains(d: ss::SaveData, x: Seq<char>)
    ensures
        ss_items_text(d).contains(x) == ((d.has_dash && "Dash"@ == x) || (d.has_wall_jump
            && "Wall Jump"@ == x) || (d.has_double_jump && "Double Jump"@ == x)),
{
    let i0 = when(d.has_dash, "Dash"@);
    let i1 = when(d.has_wall_jump, "Wall Jump"@);
    let i2 = when(d.has_double_jump, "Double Jump"@);
    lemma_contains_when(d.has_dash, "Dash"@, x);
    lemma_contains_when(d.has_wall_jump, "Wall Jump"@, x);
    lemma_contains_when(d.has_double_jump, "Double Jump"@, x);
    lemma_contains_concat(i0, i1, x);
    lemma_contains_concat(i0 + i1, i2, x);
}

/// Each Silksong movement ability is either held, and listed, or suggested by
/// the step that finds it, and never both; the only suggestion is to keep
/// exploring exactly when all three are held.
pub proof fn ss_items_and_steps_agree(d: ss::SaveData)
    ensures
        ss_items_text(d).contains("Dash"@) == !has_title(ss_next_steps_text(d), SS_DASH_TITLE@),
        ss_items_text(d).contains("Wall Jump"@) == !has_title(ss_next_steps_text(d), SS_WALL_JUMP_TITLE@),
        ss_items_text(d).contains("Double Jump"@) == !has_title(ss_next_steps_text(d), SS_DOUBLE_JUMP_TITLE@),
        (ss_next_steps_text(d) == seq![(SS_EXPLORE_TITLE@, SS_EXPLORE_DETAIL@)]) == (ss_items_text(d).len() == 3),
{
    reveal_strlit("Dash");
    reveal_strlit("Wall Jump");
    reveal_strlit("Double Jump");
    reveal_strlit("Find the Dash");
    reveal_strlit("Find the Wall Jump");
    reveal_strlit("Find the Double Jump");
    reveal_strlit("Keep Exploring");
    let items = seq!["Dash"@, "Wall Jump"@, "Double Jump"@];
    let titles = seq![SS_DASH_TITLE@, SS_WALL_JUMP_TITLE@, SS_DOUBLE_JUMP_TITLE@, SS_EXPLORE_TITLE@];
    assert(items[0].len() == 4 && items[1].len() == 9 && items[2].len() == 11);
    assert(titles[0].len() == 13 && titles[1].len() == 18 && titles[2].len() == 20 && titles[3].len() == 14);
    let missing = ss_missing_steps(d);
    let explore = seq![(SS_EXPLORE_TITLE@, SS_EXPLORE_DETAIL@)];
    assert(has_title(explore, SS_EXPLORE_TITLE@)) by {
        assert(explore[0].0 == SS_EXPLORE_TITLE@);
    }
    assert forall|k: int| 0 <= k < 3 implies !has_title(explore, #[trigger] titles[k]) by {
        if has_title(explore, titles[k]) {
            let i = choose|i: int| 0 <= i < explore.len() && (#[trigger] explore[i]).0 == titles[k];
            assert(explore[i].0 == SS_EXPLORE_TITLE@);
        }
    }
    lemma_ss_missing_titles(d, titles[0]);
    lemma_ss_missing_titles(d, titles[1]);
    lemma_ss_missing_titles(d, titles[2]);
    lemma_ss_missing_titles(d, titles[3]);
    lemma_ss_items_contains(d, items[0]);
    lemma_ss_items_contains(d, items[1]);
    lemma_ss_items_contains(d, items[2]);
    if missing.len() > 0 {
        assert(!has_title(missing, SS_EXPLORE_TITLE@));
        if missing == explore {
            assert(false);
        }
    }
}

/// The boss hints, in order: the boss each is about, when it may be shown,
/// and the title of its suggestion, which names that boss.
pub proof fn boss_hint_table()
    ensures
        hint_boss(0) == "Soul Master"@ && hint_gate(0) is Always && hint_step(0).0 == "Defeat the Soul Master"@,
        hint_boss(1) == "Dung Defender"@ && hint_gate(1) is Always && hint_step(1).0 == "Defeat the Dung Defender"@,
        hint_boss(2) == "Grey Prince Zote"@ && hint_gate(2) is Dream && hint_step(2).0 == "Beat Grey Prince Zote"@,
        hint_boss(3) == "Traitor Lord"@ && hint_gate(3) is Endgame && hint_step(3).0 == "Defeat the Traitor Lord"@,
        hint_boss(4) == "Troupe Master Grimm"@ && hint_gate(4) is Endgame && hint_step(4).0 == "Summon and defeat Troupe Master Grimm"@,
        hint_boss(5) == "Nailsage Sly"@ && hint_gate(5) is Endgame && hint_step(5).0 == "Defeat Nailsage Sly"@,
        hint_boss(6) == "Paintmaster Sheo"@ && hint_gate(6) is Endgame && hint_step(6).0 == "Defeat Paintmaster Sheo"@,
        hint_boss(7) == "White Defender"@ && hint_gate(7) is Endgame && hint_step(7).0 == "Defeat the White Defender"@,
        hint_boss(8) == "Hive Knight"@ && hint_gate(8) is Endgame && hint_step(8).0 == "Defeat the Hive Knight"@,
        hint_boss(9) == "Oblobbles"@ && hint_gate(9) is Endgame && hint_step(9).0 == "Defeat the Oblobbles"@,
        hint_boss(10) == "Nightmare King Grimm"@ && hint_gate(10) is Endgame && hint_step(10).0 == "Defeat Nightmare King Grimm"@,
{
}

proof fn lemma_hint_titles_distinct()
    ensures
        forall|i: int, j: int|
            0 <= i < BOSS_HINT_COUNT && 0 <= j < BOSS_HINT_COUNT && i != j ==> #[trigger] hint_step(i).0
                != #[trigger] hint_step(j).0,
{
    reveal_strlit("Defeat the Soul Master");
    reveal_strlit("Defeat the Dung Defender");
    reveal_strlit("Beat Grey Prince Zote");
    reveal_strlit("Defeat the Traitor Lord");
    reveal_strlit("Summon and defeat Troupe Master Grimm");
    reveal_strlit("Defeat Nailsage Sly");
    reveal_strlit("Defeat Paintmaster Sheo");
    reveal_strlit("Defeat the White Defender");
    reveal_strlit("Defeat the Hive Knight");
    reveal_strlit("Defeat the Oblobbles");
    reveal_strlit("Defeat Nightmare King Grimm");
    assert forall|i: int, j: int|
        0 <= i < BOSS_HINT_COUNT && 0 <= j < BOSS_HINT_COUNT && i != j implies #[trigger] hint_step(i).0
            != #[trigger] hint_step(j).0 by {
        let a = hint_step(i).0;
        let b = hint_step(j).0;
        if a == b {
            assert(a.len() == b.len());
            assert(a[7] == b[7]);
            assert(a[11] == b[11]);
        }
    }
}

proof fn lemma_undefeated_names_member(defeated: Seq<Seq<char>>, n: nat, x: Seq<char>, j: int)
    ensures
        undefeated_names(defeated, n).contains(x) ==> !defeated.contains(x),
        0 <= j < n && hk::boss_name(j) == x && !defeated.contains(x) ==> undefeated_names(defeated, n).contains(x),
    decreases n,
{
    if n > 0 {
        lemma_undefeated_names_member(defeated, (n - 1) as nat, x, j);
        let before = undefeated_names(defeated, (n - 1) as nat);
        let name = hk::boss_name(n - 1);
        if !defeated.contains(name) {
            let after = before.push(name);
            assert(undefeated_names(defeated, n) == after);
            if after.contains(x) {
                let k = choose|k: int| 0 <= k < after.len() && after[k] == x;
                if k < before.len() {
                    assert(before[k] == x);
                }
            }
            if before.contains(x) {
                let k = choose|k: int| 0 <= k < before.len() && before[k] == x;
                assert(after[k] == x);
            }
            if name == x {
                assert(after[before.len() as int] == x);
            }
        }
    }
}

proof fn lemma_applicable_titles(d: hk::SaveData, n: nat, k: int)
    requires
        0 <= k < BOSS_HINT_COUNT,
        n <= BOSS_HINT_COUNT,
    ensures
        has_title(applicable_hints(d, n), hint_step(k).0) == (k < n && hint_applies(d, k)),
    decreases n,
{
    lemma_hint_titles_distinct();
    if n == 0 {
        assert(applicable_hints(d, 0).len() == 0);
    } else {
        lemma_applicable_titles(d, (n - 1) as nat, k);
        lemma_has_title_concat(
            applicable_hints(d, (n - 1) as nat),
            when(hint_applies(d, n - 1), hint_step(n - 1)),
            hint_step(k).0,
        );
        lemma_has_title_when(hint_applies(d, n - 1), hint_step(n - 1), hint_step(k).0);
        if k != n - 1 {
            assert(hint_step(n - 1).0 != hint_step(k).0);
        }
    }
}

/// Hint `k` is among the boss suggestions exactly when it applies and fewer
/// than three earlier hints do.
proof fn lemma_boss_step_shown(d: hk::SaveData, k: int)
    requires
        0 <= k < BOSS_HINT_COUNT,
    ensures
        has_title(hk_boss_steps_text(d), hint_step(k).0) == (hint_applies(d, k) && applicable_hints(
            d,
            k as nat,
        ).len() < 3),
{
    let t = hint_step(k).0;
    let all = applicable_hints(d, BOSS_HINT_COUNT as nat);
    let upto = applicable_hints(d, (k + 1) as nat);
    let before = applicable_hints(d, k as nat);
    lemma_applicable_hints_prefix(d, (k + 1) as nat, BOSS_HINT_COUNT as nat);
    lemma_applicable_titles(d, BOSS_HINT_COUNT as nat, k);
    lemma_applicable_titles(d, k as nat, k);
    assert(upto == before + when(hint_applies(d, k), hint_step(k)));
    let shown = hk_boss_steps_text(d);
    assert(forall|m: int| 0 <= m < shown.len() ==> shown[m] == all[m] && m < 3);
    assert(forall|m: int| 0 <= m < upto.len() ==> #[trigger] all[m] == upto[m]);
    if hint_applies(d, k) && before.len() < 3 {
        let m = before.len() as int;
        assert(upto[m] == hint_step(k));
        assert(all[m] == hint_step(k));
        assert(shown[m] == all[m]);
    }
    if has_title(shown, t) {
        let m = choose|m: int| 0 <= m < shown.len() && (#[trigger] shown[m]).0 == t;
        assert(all[m].0 == t);
        assert(has_title(all, t));
        if before.len() >= 3 {
            assert(upto[m] == before[m]);
            assert(all[m] == upto[m]);
            assert(has_title(before, t));
        }
    }
}

/// A boss is suggested only while it is undefeated and its hint's gate is
/// open (the Dream Nail for Grey Prince Zote, the Monarch Wings for the late
/// bosses), and then exactly when fewer than three earlier hints apply; each
/// suggestion's title names its boss.
pub proof fn boss_suggestions_name_undefeated_bosses(d: hk::SaveData)
    ensures
        has_title(hk_boss_steps_text(d), "Defeat the Soul Master"@) == (!texts(d.bosses_defeated@).contains("Soul Master"@) && true
            && applicable_hints(d, 0).len() < 3),
        has_title(hk_boss_steps_text(d), "Defeat the Dung Defender"@) == (!texts(d.bosses_defeated@).contains("Dung Defender"@) && true
            && applicable_hints(d, 1).len() < 3),
        has_title(hk_boss_steps_text(d), "Beat Grey Prince Zote"@) == (!texts(d.bosses_defeated@).contains("Grey Prince Zote"@) && d.has_dream_nail
            && applicable_hints(d, 2).len() < 3),
        has_title(hk_boss_steps_text(d), "Defeat the Traitor Lord"@) == (!texts(d.bosses_defeated@).contains("Traitor Lord"@) && d.has_double_jump
            && applicable_hints(d, 3).len() < 3),
        has_title(hk_boss_steps_text(d), "Summon and defeat Troupe Master Grimm"@) == (!texts(d.bosses_defeated@).contains("Troupe Master Grimm"@) && d.has_double_jump
            && applicable_hints(d, 4).len() < 3),
        has_title(hk_boss_steps_text(d), "Defeat Nailsage Sly"@) == (!texts(d.bosses_defeated@).contains("Nailsage Sly"@) && d.has_double_jump
            && applicable_hints(d, 5).len() < 3),
        has_title(hk_boss_steps_text(d), "Defeat Paintmaster Sheo"@) == (!texts(d.bosses_defeated@).contains("Paintmaster Sheo"@) && d.has_double_jump
            && applicable_hints(d, 6).len() < 3),
        has_title(hk_boss_steps_text(d), "Defeat the White Defender"@) == (!texts(d.bosses_defeated@).contains("White Defender"@) && d.has_double_jump
            && applicable_hints(d, 7).len() < 3),
        has_title(hk_boss_steps_text(d), "Defeat the Hive Knight"@) == (!texts(d.bosses_defeated@).contains("Hive Knight"@) && d.has_double_jump
            && applicable_hints(d, 8).len() < 3),
        has_title(hk_boss_steps_text(d), "Defeat the Oblobbles"@) == (!texts(d.bosses_defeated@).contains("Oblobbles"@) && d.has_double_jump
            && applicable_hints(d, 9).len() < 3),
        has_title(hk_boss_steps_text(d), "Defeat Nightmare King Grimm"@) == (!texts(d.bosses_defeated@).contains("Nightmare King Grimm"@) && d.has_double_jump
            && applicable_hints(d, 10).len() < 3),
{
    lemma_boss_step_shown(d, 0);
    lemma_undefeated_names_member(texts(d.bosses_defeated@), BOSS_COUNT as nat, "Soul Master"@, 3);
    assert(hk::boss_name(3) == "Soul Master"@);
    lemma_boss_step_shown(d, 1);
    lemma_undefeated_names_member(texts(d.bosses_defeated@), BOSS_COUNT as nat, "Dung Defender"@, 14);
    assert(hk::boss_name(14) == "Dung Defender"@);
    lemma_boss_step_shown(d, 2);
    lemma_undefeated_names_member(texts(d.bosses_defeated@), BOSS_COUNT as nat, "Grey Prince Zote"@, 6);
    assert(hk::boss_name(6) == "Grey Prince Zote"@);
    lemma_boss_step_shown(d, 3);
    lemma_undefeated_names_member(texts(d.bosses_defeated@), BOSS_COUNT as nat, "Traitor Lord"@, 10);
    assert(hk::boss_name(10) == "Traitor Lord"@);
    lemma_boss_step_shown(d, 4);
    lemma_undefeated_names_member(texts(d.bosses_defeated@), BOSS_COUNT as nat, "Troupe Master Grimm"@, 7);
    assert(hk::boss_name(7) == "Troupe Master Grimm"@);
    lemma_boss_step_shown(d, 5);
    lemma_undefeated_names_member(texts(d.bosses_defeated@), BOSS_COUNT as nat, "Nailsage Sly"@, 12);
    assert(hk::boss_name(12) == "Nailsage Sly"@);
    lemma_boss_step_shown(d, 6);
    lemma_undefeated_names_member(texts(d.bosses_defeated@), BOSS_COUNT as nat, "Paintmaster Sheo"@, 13);
    assert(hk::boss_name(13) == "Paintmaster Sheo"@);
    lemma_boss_step_shown(d, 7);
    lemma_undefeated_names_member(texts(d.bosses_defeated@), BOSS_COUNT as nat, "White Defender"@, 11);
    assert(hk::boss_name(11) == "White Defender"@);
    lemma_boss_step_shown(d, 8);
    lemma_undefeated_names_member(texts(d.bosses_defeated@), BOSS_COUNT as nat, "Hive Knight"@, 9);
    assert(hk::boss_name(9) == "Hive Knight"@);
    lemma_boss_step_shown(d, 9);
    lemma_undefeated_names_member(texts(d.bosses_defeated@), BOSS_COUNT as nat, "Oblobbles"@, 15);
    assert(hk::boss_name(15) == "Oblobbles"@);
    lemma_boss_step_shown(d, 10);
    lemma_undefeated_names_member(texts(d.bosses_defeated@), BOSS_COUNT as nat, "Nightmare King Grimm"@, 8);
    assert(hk::boss_name(8) == "Nightmare King Grimm"@);
}

/// `(title, detail)` alone where `cond` holds, nothing otherwise.
pub open spec fn step_if(cond: bool, title: Seq<char>, detail: Seq<char>) -> Seq<StepText> {
    if cond {
        seq![(title, detail)]
    } else {
        seq![]
    }
}

/// `name` alone where `cond` holds, nothing otherwise.
pub open spec fn item_if(cond: bool, name: Seq<char>) -> Seq<Seq<char>> {
    if cond {
        seq![name]
    } else {
        seq![]
    }
}

/// The details of the boss hints' suggestions, in hint order.
pub proof fn boss_hint_details()
    ensures
        hint_step(0).1 == "Climb the Soul Sanctum in the City of Tears. Beating him grants Desolate Dive and unlocks the city's shortcuts."@,
        hint_step(1).1 == "Find him in the Royal Waterways — he guards the path toward the Beast's Den and the second Dreamer."@,
        hint_step(2).1 == "A dream boss fought in Bretta's house in Dirtmouth. Beware — he gets stronger with every rematch."@,
        hint_step(3).1 == "In the deepest part of Queen's Gardens. Beating him opens a path to the White Lady and an ending piece."@,
        hint_step(4).1 == "Burn the three Grimmkin flames to summon the Grimm Troupe's master in the Howling Cliffs and Dirtmouth."@,
        hint_step(5).1 == "Dream-fight Sly in the shed beneath the Crossroads' Nailsmith. He's blindingly fast — attack once, then dodge."@,
        hint_step(6).1 == "Dream-fight Sheo in his workshop above the Fungal Wastes. Three graceful phases with a big paintbrush."@,
        hint_step(7).1 == "Dream-fight Dung Defender in the Royal Waterways. Every win earns a fragment of a pale secret."@,
        hint_step(8).1 == "At the heart of the Hive, past Queen's Gardens. Defeating him secures the Hiveblood charm."@,
        hint_step(9).1 == "Two floating juggernauts in Queen's Gardens — keep moving to slip between their spit volleys."@,
        hint_step(10).1 == "The true form of the Grimm Troupe's master. A brutal dance — learn the pufferfish pattern and the fight is yours."@,
{
}

/// What a Hollow Knight player is told, suggestion by suggestion: the item
/// each missing ability is, each unfinished collection with its count in
/// decimal (dream essence up to 2400, grubs from 1 to 45, charms from 1 to 39),
/// then the boss suggestions; with none of those, the final fight, and the
/// hunt for 112% while completion is below it. Items held are listed by name.
pub proof fn hk_suggestion_table(d: hk::SaveData)
    ensures
        hk_items_text(d) == item_if(d.has_dash, "Mothwing Cloak"@) + item_if(d.has_wall_jump, "Mantis Claw"@) + item_if(d.has_double_jump, "Monarch Wings"@) + item_if(d.has_super_jump, "Crystal Heart"@) + item_if(d.has_acid_armour, "Isma's Tear"@) + item_if(d.has_dream_nail, "Dream Nail"@),
        hk_ability_steps(d) == step_if(!d.has_dash, "Get the Mothwing Cloak (Dash)"@, "Reach Greenpath and defeat Hornet for the first time. The dash lets you cross gaps and open up the world."@)
            + step_if(!d.has_wall_jump, "Get the Mantis Claw (Wall Jump)"@, "Travel to the Mantis Village in the Fungal Wastes and win the trial to earn the wall jump — you'll need it to climb most of Hallownest."@)
            + step_if(!d.has_super_jump, "Get the Crystal Heart (Super Dash)"@, "In Crystal Peak, take the west path past the Crystal Guardian's room to claim the super dash and blaze across open areas."@)
            + step_if(!d.has_acid_armour, "Get Isma's Tear (Acid Immunity)"@, "Explore the Royal Waterways and follow the southern route to Isma's Grove to earn acid immunity and safely cross acid lakes."@)
            + step_if(!d.has_double_jump, "Get the Monarch Wings (Double Jump)"@, "Defeat Broken Vessel in the Ancient Basin, then climb the ruined path into Kingdom's Edge to claim the wings."@)
            + step_if(!d.has_dream_nail, "Get the Dream Nail"@, "After gaining Soul powers, visit the Seer in the Resting Grounds to receive the Dream Nail — it reveals hidden lore, dream bosses, and the true ending."@),
        hk_collection_steps(d) == step_if(d.has_dream_nail && d.dream_essence < 2400, "Awaken the Dream Nail"@, "Collect dream essence ("@ + decimal(d.dream_essence as nat) + "/2400) from dream warriors, dream bosses, and glowing trees to fully awaken it and unlock the final ending."@)
            + step_if(0 < d.grub_count && d.grub_count < 46, "Rescue the Remaining Grubs"@, "You've freed "@ + decimal(d.grub_count as nat) + " of 46 grubs. Find the rest and return them to the Grubfather in the Forgotten Crossroads for rewards."@)
            + step_if(0 < d.charms_count && d.charms_count < 40, "Collect More Charms"@, "You own "@ + decimal(d.charms_count as nat) + " of 40 charms. Buy from shops, explore secret rooms, and defeat optional bosses to complete the set."@),
        (hk_ability_steps(d) + hk_collection_steps(d) + hk_boss_steps_text(d)).len() == 0 ==> hk_next_steps_text(d)
            == seq![("Challenge the Radiance"@, "Face the Hollow Knight in the Black Egg, then strike the Radiance with the Dream Nail for the final showdown."@)] + step_if(
            d.completion_below_max,
            "Hunt for 112% Completion"@,
            "Hollow Knight maxes out at 112% with the DLC. Track down remaining grubs, charms, dream bosses, and Godhome content."@,
        ),
        (hk_ability_steps(d) + hk_collection_steps(d) + hk_boss_steps_text(d)).len() > 0 ==> hk_next_steps_text(d)
            == hk_ability_steps(d) + hk_collection_steps(d) + hk_boss_steps_text(d),
{
}

/// What a Silksong player is shown: the abilities held by name, a suggestion
/// to find each missing one, and, holding all three, only the suggestion to
/// keep exploring.
pub proof fn ss_suggestion_table(e: ss::SaveData)
    ensures
        ss_items_text(e) == item_if(e.has_dash, "Dash"@) + item_if(e.has_wall_jump, "Wall Jump"@) + item_if(e.has_double_jump, "Double Jump"@),
        ss_missing_steps(e) == step_if(!e.has_dash, "Find the Dash"@, "Push through Pharloom's early areas — the Dash is the first big movement upgrade and lets you close gaps."@)
            + step_if(!e.has_wall_jump, "Find the Wall Jump"@, "Search Pharloom's ancient structures for the Wall Jump to climb vertical spaces and reach new heights."@)
            + step_if(!e.has_double_jump, "Find the Double Jump"@, "Explore the deeper reaches of Pharloom to find the Double Jump and reach high platforms."@),
        ss_missing_steps(e).len() == 0 ==> ss_next_steps_text(e) == seq![("Keep Exploring"@, "With all movement abilities in hand, hunt down hidden rooms, collectibles, and bosses toward 100% completion."@)],
        ss_missing_steps(e).len() > 0 ==> ss_next_steps_text(e) == ss_missing_steps(e),
{
}

/// The nail's name by upgrade level, the Pure Nail from level four up.
pub proof fn nail_name_table(level: u32)
    ensures
        level == 0 ==> nail_name_text(level) == "Old Nail"@,
        level == 1 ==> nail_name_text(level) == "Sharpened Nail"@,
        level == 2 ==> nail_name_text(level) == "Channelled Nail"@,
        level == 3 ==> nail_name_text(level) == "Coiled Nail"@,
        level >= 4 ==> nail_name_text(level) == "Pure Nail"@,
{
}

/// Play time shows whole hours and the whole minutes past them from one hour
/// up, and whole minutes below an hour.
pub proof fn play_time_shows_hours_and_minutes(secs: u64)
    ensures
        secs >= 3600 ==> play_time_text(secs) == decimal((secs / 3600) as nat) + "h "@ + decimal(
            ((secs - 3600 * (secs / 3600)) / 60) as nat,
        ) + "m"@,
        secs < 3600 ==> play_time_text(secs) == decimal((secs / 60) as nat) + "m"@,
{
}

/// A Hollow Knight summary copies each statistic of the save, names its nail,
/// and shows its play time.
pub proof fn hk_summary_copies_the_save(
    p: Progress,
    game: Seq<char>,
    running: bool,
    save: hk::SaveData,
    items: Seq<Seq<char>>,
    steps: Seq<StepText>,
)
    requires
        summarises_hk(p, game, running, save, items, steps),
    ensures
        p.game@ == game && p.running == running && p.has_save,
        texts(p.items@) == items && step_texts(p.next_steps@) == steps,
        p.geo == save.geo && p.max_health == save.max_health && p.soul_vessels == save.soul_vessels,
        p.dream_essence == save.dream_essence && p.grubs == save.grub_count,
        p.nail_damage == save.nail_damage && p.charms_count == save.charms_count,
        texts(p.bosses@) == texts(save.bosses_defeated@),
        p.nail_name@ == nail_name_text(save.nail_damage),
        p.play_time_formatted@ == play_time_text(save.play_time_secs),
{
}

/// A Silksong summary copies each statistic of the save and shows "—" for the nail.
pub proof fn ss_summary_copies_the_save(
    p: Progress,
    game: Seq<char>,
    running: bool,
    save: ss::SaveData,
    items: Seq<Seq<char>>,
    steps: Seq<StepText>,
)
    requires
        summarises_ss(p, game, running, save, items, steps),
    ensures
        p.game@ == game && p.running == running && p.has_save,
        texts(p.items@) == items && step_texts(p.next_steps@) == steps,
        p.geo == save.geo && p.max_health == save.max_health && p.soul_vessels == save.soul_vessels,
        p.dream_essence == save.dream_essence && p.grubs == save.grub_count,
        p.nail_damage == save.nail_damage && p.charms_count == save.charms_count,
        texts(p.bosses@) == texts(save.bosses_defeated@),
        p.nail_name@ == "—"@,
        p.play_time_formatted@ == play_time_text(save.play_time_secs),
{
}

/// The summary without a save: Hollow Knight, not running, every statistic
/// zero, "No save file found" as the only item and the invitation to start a
/// new game as the only suggestion.
pub proof fn no_save_summary(p: Progress)
    requires
        is_no_save_progress(p),
    ensures
        p.game@ == "Hollow Knight"@ && !p.running && !p.has_save,
        p.geo == 0 && p.max_health == 0 && p.soul_vessels == 0 && p.dream_essence == 0,
        p.grubs == 0 && p.nail_damage == 0 && p.charms_count == 0 && p.bosses@.len() == 0,
        texts(p.items@) == seq!["No save file found"@],
        step_texts(p.next_steps@) == seq![("Start a new game!"@, "Create a save in Hollow Knight and begin your journey through Hallownest."@)],
        p.play_time_formatted@ == "—"@ && p.nail_name@ == "—"@,
{
}

/// The names under which the two games are shown.
pub proof fn game_names()
    ensures
        HOLLOW_KNIGHT@ == "Hollow Knight"@,
        SILKSONG@ == "Silksong"@,
{
}

} // verus!
