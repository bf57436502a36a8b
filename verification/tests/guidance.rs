use questbuddy::plugins::hollow_knight::{undefeated_bosses, SaveData as HkSave};
use questbuddy::plugins::silksong::SaveData as SsSave;
use questbuddy::progress::{
    build_progress, build_progress_ss, current_progress, format_play_time, hk_boss_steps, hk_items,
    hk_next_steps, nail_name, no_save_progress, ss_items, ss_next_steps, NextStep, ProgressSource,
};
use questbuddy::text::{decimal_string, push_decimal, str_eq};
use questbuddy::watch::{initial_watch_state, keep_waiting, on_refresh, WaitEvent};

fn fresh_hk() -> HkSave {
    HkSave {
        geo: 0,
        completion_below_max: true,
        has_dash: false,
        has_super_jump: false,
        has_double_jump: false,
        has_wall_jump: false,
        has_acid_armour: false,
        has_dream_nail: false,
        play_time_secs: 0,
        max_health: 5,
        soul_vessels: 0,
        dream_essence: 0,
        grub_count: 0,
        nail_damage: 0,
        bosses_defeated: Vec::new(),
        charms_count: 0,
    }
}

fn all_boss_names() -> Vec<String> {
    [
        "False Knight",
        "Hornet",
        "Mantis Lords",
        "Soul Master",
        "The Hollow Knight",
        "The Radiance",
        "Grey Prince Zote",
        "Troupe Master Grimm",
        "Nightmare King Grimm",
        "Hive Knight",
        "Traitor Lord",
        "White Defender",
        "Nailsage Sly",
        "Paintmaster Sheo",
        "Dung Defender",
        "Oblobbles",
    ]
    .iter()
    .map(|s| s.to_string())
    .collect()
}

fn finished_hk() -> HkSave {
    HkSave {
        geo: 9999,
        completion_below_max: true,
        has_dash: true,
        has_super_jump: true,
        has_double_jump: true,
        has_wall_jump: true,
        has_acid_armour: true,
        has_dream_nail: true,
        play_time_secs: 200_000,
        max_health: 9,
        soul_vessels: 3,
        dream_essence: 2400,
        grub_count: 46,
        nail_damage: 4,
        bosses_defeated: all_boss_names(),
        charms_count: 40,
    }
}

fn fresh_ss() -> SsSave {
    SsSave {
        geo: 12,
        has_dash: false,
        has_double_jump: false,
        has_wall_jump: false,
        play_time_secs: 90,
        max_health: 5,
        soul_vessels: 0,
        dream_essence: 0,
        grub_count: 0,
        nail_damage: 0,
        bosses_defeated: Vec::new(),
        charms_count: 0,
    }
}

fn titles(steps: &[NextStep]) -> Vec<String> {
    steps.iter().map(|s| s.title.clone()).collect()
}

#[test]
fn next_step_new_keeps_title_and_detail() {
    let s = NextStep::new("Title".to_string(), "Detail".to_string());
    assert_eq!(s.title, "Title");
    assert_eq!(s.detail, "Detail");
}

#[test]
fn nail_names_by_level() {
    assert_eq!(nail_name(0), "Old Nail");
    assert_eq!(nail_name(1), "Sharpened Nail");
    assert_eq!(nail_name(2), "Channelled Nail");
    assert_eq!(nail_name(3), "Coiled Nail");
    assert_eq!(nail_name(4), "Pure Nail");
    assert_eq!(nail_name(21), "Pure Nail");
    assert_eq!(nail_name(u32::MAX), "Pure Nail");
}

#[test]
fn play_time_formats() {
    assert_eq!(format_play_time(0), "0m");
    assert_eq!(format_play_time(59), "0m");
    assert_eq!(format_play_time(60), "1m");
    assert_eq!(format_play_time(3599), "59m");
    assert_eq!(format_play_time(3600), "1h 0m");
    assert_eq!(format_play_time(3725), "1h 2m");
    assert_eq!(format_play_time(7199), "1h 59m");
    assert_eq!(format_play_time(360_000), "100h 0m");
}

#[test]
fn decimal_rendering() {
    assert_eq!(decimal_string(0), "0");
    assert_eq!(decimal_string(7), "7");
    assert_eq!(decimal_string(10), "10");
    assert_eq!(decimal_string(2400), "2400");
    assert_eq!(decimal_string(u64::MAX), "18446744073709551615");
    let mut s = String::from("x=");
    push_decimal(&mut s, 305);
    assert_eq!(s, "x=305");
}

#[test]
fn str_eq_compares_text() {
    assert!(str_eq("Hornet", "Hornet"));
    assert!(!str_eq("Hornet", "hornet"));
    assert!(!str_eq("Hornet", "Horne"));
    assert!(str_eq("", ""));
}

#[test]
fn hk_items_in_display_order() {
    let mut d = fresh_hk();
    assert!(hk_items(&d).is_empty());
    d.has_dream_nail = true;
    d.has_dash = true;
    d.has_super_jump = true;
    assert_eq!(hk_items(&d), vec!["Mothwing Cloak", "Crystal Heart", "Dream Nail"]);
    let all = finished_hk();
    assert_eq!(
        hk_items(&all),
        vec!["Mothwing Cloak", "Mantis Claw", "Monarch Wings", "Crystal Heart", "Isma's Tear", "Dream Nail"]
    );
}

#[test]
fn hk_next_steps_for_a_fresh_save() {
    let steps = hk_next_steps(&fresh_hk());
    assert_eq!(
        titles(&steps),
        vec![
            "Get the Mothwing Cloak (Dash)",
            "Get the Mantis Claw (Wall Jump)",
            "Get the Crystal Heart (Super Dash)",
            "Get Isma's Tear (Acid Immunity)",
            "Get the Monarch Wings (Double Jump)",
            "Get the Dream Nail",
            "Defeat the Soul Master",
            "Defeat the Dung Defender",
        ]
    );
    assert_eq!(
        steps[0].detail,
        "Reach Greenpath and defeat Hornet for the first time. The dash lets you cross gaps and open up the world."
    );
}

#[test]
fn hk_next_steps_counts_collections() {
    let mut d = finished_hk();
    d.dream_essence = 500;
    d.grub_count = 10;
    d.charms_count = 12;
    let steps = hk_next_steps(&d);
    assert_eq!(
        titles(&steps),
        vec!["Awaken the Dream Nail", "Rescue the Remaining Grubs", "Collect More Charms"]
    );
    assert_eq!(
        steps[0].detail,
        "Collect dream essence (500/2400) from dream warriors, dream bosses, and glowing trees to fully awaken it and unlock the final ending."
    );
    assert_eq!(
        steps[1].detail,
        "You've freed 10 of 46 grubs. Find the rest and return them to the Grubfather in the Forgotten Crossroads for rewards."
    );
    assert_eq!(
        steps[2].detail,
        "You own 12 of 40 charms. Buy from shops, explore secret rooms, and defeat optional bosses to complete the set."
    );
}

#[test]
fn hk_next_steps_skip_unstarted_collections() {
    let mut d = finished_hk();
    d.grub_count = 0;
    d.charms_count = 0;
    d.has_dream_nail = false;
    d.dream_essence = 0;
    assert_eq!(titles(&hk_next_steps(&d)), vec!["Get the Dream Nail"]);
}

#[test]
fn hk_next_steps_when_everything_is_done() {
    let d = finished_hk();
    assert_eq!(titles(&hk_next_steps(&d)), vec!["Challenge the Radiance", "Hunt for 112% Completion"]);
    let mut maxed = finished_hk();
    maxed.completion_below_max = false;
    let steps = hk_next_steps(&maxed);
    assert_eq!(titles(&steps), vec!["Challenge the Radiance"]);
    assert_eq!(
        steps[0].detail,
        "Face the Hollow Knight in the Black Egg, then strike the Radiance with the Dream Nail for the final showdown."
    );
}

#[test]
fn hk_boss_steps_stop_at_three() {
    let mut d = finished_hk();
    d.bosses_defeated = Vec::new();
    let steps = hk_boss_steps(&d);
    assert_eq!(
        titles(&steps),
        vec!["Defeat the Soul Master", "Defeat the Dung Defender", "Beat Grey Prince Zote"]
    );
}

#[test]
fn hk_boss_steps_respect_gates() {
    let mut d = fresh_hk();
    d.bosses_defeated = vec!["Soul Master".to_string()];
    assert_eq!(titles(&hk_boss_steps(&d)), vec!["Defeat the Dung Defender"]);
    d.has_dream_nail = true;
    assert_eq!(titles(&hk_boss_steps(&d)), vec!["Defeat the Dung Defender", "Beat Grey Prince Zote"]);
    let mut late = fresh_hk();
    late.has_double_jump = true;
    late.bosses_defeated = vec!["Soul Master".to_string(), "Dung Defender".to_string()];
    assert_eq!(
        titles(&hk_boss_steps(&late)),
        vec!["Defeat the Traitor Lord", "Summon and defeat Troupe Master Grimm", "Defeat Nailsage Sly"]
    );
}

#[test]
fn hk_boss_steps_skip_defeated_bosses() {
    let mut d = finished_hk();
    d.bosses_defeated = all_boss_names();
    d.bosses_defeated.retain(|b| b != "Nightmare King Grimm" && b != "Oblobbles");
    assert_eq!(
        titles(&hk_boss_steps(&d)),
        vec!["Defeat the Oblobbles", "Defeat Nightmare King Grimm"]
    );
}

#[test]
fn undefeated_bosses_in_table_order() {
    let mut d = fresh_hk();
    assert_eq!(undefeated_bosses(&d).len(), 16);
    d.bosses_defeated = all_boss_names();
    assert!(undefeated_bosses(&d).is_empty());
    d.bosses_defeated.retain(|b| b != "Hornet" && b != "Oblobbles");
    assert_eq!(undefeated_bosses(&d), vec!["Hornet", "Oblobbles"]);
}

#[test]
fn ss_items_and_steps() {
    let mut d = fresh_ss();
    assert!(ss_items(&d).is_empty());
    assert_eq!(
        titles(&ss_next_steps(&d)),
        vec!["Find the Dash", "Find the Wall Jump", "Find the Double Jump"]
    );
    d.has_wall_jump = true;
    assert_eq!(ss_items(&d), vec!["Wall Jump"]);
    assert_eq!(titles(&ss_next_steps(&d)), vec!["Find the Dash", "Find the Double Jump"]);
    d.has_dash = true;
    d.has_double_jump = true;
    assert_eq!(ss_items(&d), vec!["Dash", "Wall Jump", "Double Jump"]);
    let steps = ss_next_steps(&d);
    assert_eq!(titles(&steps), vec!["Keep Exploring"]);
    assert_eq!(
        steps[0].detail,
        "With all movement abilities in hand, hunt down hidden rooms, collectibles, and bosses toward 100% completion."
    );
}

#[test]
fn suggestions_are_never_empty() {
    let mut d = fresh_hk();
    for mask in 0u32..64 {
        d.has_dash = mask & 1 != 0;
        d.has_wall_jump = mask & 2 != 0;
        d.has_super_jump = mask & 4 != 0;
        d.has_acid_armour = mask & 8 != 0;
        d.has_double_jump = mask & 16 != 0;
        d.has_dream_nail = mask & 32 != 0;
        d.bosses_defeated = all_boss_names();
        let steps = hk_next_steps(&d);
        assert!(!steps.is_empty());
        assert!(hk_boss_steps(&d).len() <= 3);
        let item_steps = steps.iter().filter(|s| s.title.starts_with("Get ")).count();
        assert_eq!(hk_items(&d).len() + item_steps, 6);
    }
    let mut s = fresh_ss();
    for mask in 0u32..8 {
        s.has_dash = mask & 1 != 0;
        s.has_wall_jump = mask & 2 != 0;
        s.has_double_jump = mask & 4 != 0;
        assert!(!ss_next_steps(&s).is_empty());
        let held = ss_items(&s).len();
        if held < 3 {
            assert_eq!(held + ss_next_steps(&s).len(), 3);
        }
    }
}

#[test]
fn build_progress_summarises_a_hk_save() {
    let mut d = finished_hk();
    d.nail_damage = 2;
    d.play_time_secs = 3725;
    let p = build_progress("Hollow Knight".to_string(), true, &d, vec!["x".to_string()], Vec::new());
    assert_eq!(p.game, "Hollow Knight");
    assert!(p.running);
    assert_eq!(p.geo, 9999);
    assert_eq!(p.items, vec!["x"]);
    assert!(p.next_steps.is_empty());
    assert_eq!(p.play_time_formatted, "1h 2m");
    assert_eq!(p.max_health, 9);
    assert_eq!(p.soul_vessels, 3);
    assert_eq!(p.dream_essence, 2400);
    assert_eq!(p.grubs, 46);
    assert_eq!(p.nail_damage, 2);
    assert_eq!(p.nail_name, "Channelled Nail");
    assert_eq!(p.bosses, all_boss_names());
    assert_eq!(p.charms_count, 40);
    assert!(p.has_save);
}

#[test]
fn build_progress_ss_has_no_nail_name() {
    let d = fresh_ss();
    let p = build_progress_ss("Silksong".to_string(), false, &d, Vec::new(), Vec::new());
    assert_eq!(p.game, "Silksong");
    assert!(!p.running);
    assert_eq!(p.geo, 12);
    assert_eq!(p.play_time_formatted, "1m");
    assert_eq!(p.nail_name, "—");
    assert_eq!(p.max_health, 5);
    assert!(p.has_save);
}

#[test]
fn no_save_progress_invites_a_new_game() {
    let p = no_save_progress();
    assert_eq!(p.game, "Hollow Knight");
    assert!(!p.running);
    assert_eq!(p.items, vec!["No save file found"]);
    assert_eq!(titles(&p.next_steps), vec!["Start a new game!"]);
    assert_eq!(
        p.next_steps[0].detail,
        "Create a save in Hollow Knight and begin your journey through Hallownest."
    );
    assert_eq!(p.play_time_formatted, "—");
    assert_eq!(p.nail_name, "—");
    assert!(p.bosses.is_empty());
    assert!(!p.has_save);
}

#[test]
fn current_progress_prefers_a_running_game() {
    let (p, src) = current_progress(false, &Some(finished_hk()), true, &Some(fresh_ss()));
    assert!(matches!(src, ProgressSource::Silksong));
    assert_eq!(p.game, "Silksong");
    assert!(p.running);
    let (p, src) = current_progress(true, &Some(finished_hk()), true, &Some(fresh_ss()));
    assert!(matches!(src, ProgressSource::HollowKnight));
    assert!(p.running);
    assert_eq!(titles(&p.next_steps), vec!["Challenge the Radiance", "Hunt for 112% Completion"]);
}

#[test]
fn current_progress_falls_back_to_any_save() {
    let (p, src) = current_progress(false, &Some(fresh_hk()), false, &Some(fresh_ss()));
    assert!(matches!(src, ProgressSource::HollowKnight));
    assert!(!p.running);
    assert_eq!(p.nail_name, "Old Nail");
    let (p, src) = current_progress(true, &None, false, &Some(fresh_ss()));
    assert!(matches!(src, ProgressSource::Silksong));
    assert!(!p.running);
    let (p, src) = current_progress(true, &None, true, &None);
    assert!(matches!(src, ProgressSource::NoSave));
    assert!(!p.has_save);
}

#[test]
fn refresh_announces_only_status_changes() {
    let s = initial_watch_state();
    assert!(!s.was_running);
    let (s, changed) = on_refresh(s, false);
    assert!(!changed);
    let (s, changed) = on_refresh(s, true);
    assert!(changed);
    assert!(s.was_running);
    let (s, changed) = on_refresh(s, true);
    assert!(!changed);
    let (s, changed) = on_refresh(s, false);
    assert!(changed);
    assert!(!s.was_running);
}

#[test]
fn wait_ends_on_everything_but_other_changes() {
    assert!(keep_waiting(WaitEvent::OtherChange));
    assert!(!keep_waiting(WaitEvent::SaveChanged));
    assert!(!keep_waiting(WaitEvent::WatchError));
    assert!(!keep_waiting(WaitEvent::TimedOut));
    assert!(!keep_waiting(WaitEvent::Closed));
}

#[test]
fn items_held_are_never_suggested() {
    let pairs = [
        ("Mothwing Cloak", "Get the Mothwing Cloak (Dash)"),
        ("Mantis Claw", "Get the Mantis Claw (Wall Jump)"),
        ("Monarch Wings", "Get the Monarch Wings (Double Jump)"),
        ("Crystal Heart", "Get the Crystal Heart (Super Dash)"),
        ("Isma's Tear", "Get Isma's Tear (Acid Immunity)"),
        ("Dream Nail", "Get the Dream Nail"),
    ];
    let mut d = fresh_hk();
    for mask in 0u32..64 {
        d.has_dash = mask & 1 != 0;
        d.has_wall_jump = mask & 2 != 0;
        d.has_double_jump = mask & 4 != 0;
        d.has_super_jump = mask & 8 != 0;
        d.has_acid_armour = mask & 16 != 0;
        d.has_dream_nail = mask & 32 != 0;
        let items = hk_items(&d);
        let steps = titles(&hk_next_steps(&d));
        for (item, title) in pairs {
            assert_eq!(items.iter().any(|i| i == item), !steps.iter().any(|t| t == title));
        }
    }
    let mut s = fresh_ss();
    let ss_pairs = [("Dash", "Find the Dash"), ("Wall Jump", "Find the Wall Jump"), ("Double Jump", "Find the Double Jump")];
    for mask in 0u32..8 {
        s.has_dash = mask & 1 != 0;
        s.has_wall_jump = mask & 2 != 0;
        s.has_double_jump = mask & 4 != 0;
        let items = ss_items(&s);
        let steps = titles(&ss_next_steps(&s));
        for (item, title) in ss_pairs {
            assert_eq!(items.iter().any(|i| i == item), !steps.iter().any(|t| t == title));
        }
        assert_eq!(steps == vec!["Keep Exploring".to_string()], items.len() == 3);
    }
}
