use questbuddy::editor::{checked_update_save_field, read_save_fields, set_player_field, update_save_field};
use questbuddy::plugins::discovery::{
    latest_index, process_listed, HOLLOW_KNIGHT_PROCESS, SILKSONG_PROCESS,
};
use questbuddy::plugins::hollow_knight::{parse_json as parse_hk, parse_json_checked};
use questbuddy::plugins::json::{
    insert_member, member_bool, member_i64, parse_value, section_is_object, section_present, value_text,
};
use serde_json::Value;

fn doc(text: &str) -> Value {
    serde_json::from_str(text).expect("test JSON parses")
}
use questbuddy::plugins::save_crypto::{decrypt_save, encrypt_save};
use questbuddy::plugins::silksong::parse_json as parse_ss;

const HK_JSON: &str = r#"{"playerData":{"geo":1200,"hasDash":true,"hasWalljump":true,"hasSuperDash":false,"hasDoubleJump":"yes","heartPieces":6,"maxHealth":5,"MPReserveMax":66,"charmsOwned":12,"grubsCollected":10,"nailDamage":2,"killedHornet":true,"killedMageLord":true,"killedFalseKnight":false,"killedOblobble":true,"dreamOrbs":350.0,"playTime":3725.5}}"#;

fn save_file(json: &str) -> Vec<u8> {
    let header: Vec<u8> = vec![0x00, 0x01, 0x00, 0x00, 0x00, 0xff, 0xff, 0xff, 0xff, 0x01, 0x00, 0x00, 0x00, 0x00, 0x00,
        0x00, 0x00, 0x06, 0x01, 0x00, 0x00, 0x00];
    encrypt_save(json, &header).expect("header present")
}

#[test]
fn json_members_are_read_from_the_section() {
    assert!(section_present(HK_JSON, "playerData"));
    assert!(!section_present(HK_JSON, "sceneData"));
    assert!(!section_present("not json", "playerData"));
    assert_eq!(member_bool(HK_JSON, "playerData", "hasDash"), Some(true));
    assert_eq!(member_bool(HK_JSON, "playerData", "hasDoubleJump"), None);
    assert_eq!(member_i64(HK_JSON, "playerData", "geo"), Some(1200));
    assert_eq!(member_i64(HK_JSON, "playerData", "dreamOrbs"), None);
    assert_eq!(member_i64(HK_JSON, "playerData", "missing"), None);
}

#[test]
fn json_value_wrappers() {
    let mut root = parse_value(HK_JSON).expect("parses");
    assert!(parse_value("{oops").is_err());
    assert!(section_is_object(&root, "playerData"));
    assert!(!section_is_object(&root, "sceneData"));
    assert!(!section_is_object(&doc(r#"{"playerData":[1]}"#), "playerData"));
    insert_member(&mut root, "playerData", "geo", doc("77"));
    let text = value_text(&root);
    assert_eq!(member_i64(&text, "playerData", "geo"), Some(77));
    assert_eq!(member_i64(&text, "playerData", "grubsCollected"), Some(10));
    assert_eq!(value_text(&doc(r#"{ "a" : [1, 2] }"#)), r#"{"a":[1,2]}"#);
}

#[test]
fn set_player_field_edits_only_an_object() {
    let edited = set_player_field(HK_JSON, "geo", doc("77")).expect("parses");
    assert_eq!(member_i64(&edited, "playerData", "geo"), Some(77));
    assert_eq!(member_i64(&edited, "playerData", "grubsCollected"), Some(10));
    let added = set_player_field(r#"{"playerData":{}}"#, "hasDash", doc("true")).unwrap();
    assert_eq!(added, r#"{"playerData":{"hasDash":true}}"#);
    let untouched = set_player_field(r#"{ "playerData" : 3, "x": null }"#, "geo", doc("1")).unwrap();
    assert_eq!(untouched, r#"{"playerData":3,"x":null}"#);
    let missing = set_player_field(r#"{"other":{}}"#, "geo", doc("1")).unwrap();
    assert_eq!(missing, r#"{"other":{}}"#);
    let message = serde_json::from_str::<Value>("{").unwrap_err().to_string();
    assert_eq!(set_player_field("{", "geo", doc("1")).unwrap_err(), message);
}

#[test]
fn parse_hollow_knight_save() {
    let d = parse_hk(HK_JSON, 350, 3725, true).expect("playerData present");
    assert_eq!(d.geo, 1200);
    assert!(d.completion_below_max);
    assert!(d.has_dash);
    assert!(d.has_wall_jump);
    assert!(!d.has_super_jump);
    assert!(!d.has_double_jump);
    assert!(!d.has_acid_armour);
    assert!(!d.has_dream_nail);
    assert_eq!(d.play_time_secs, 3725);
    assert_eq!(d.max_health, 6);
    assert_eq!(d.soul_vessels, 2);
    assert_eq!(d.dream_essence, 350);
    assert_eq!(d.grub_count, 10);
    assert_eq!(d.nail_damage, 2);
    assert_eq!(d.bosses_defeated, vec!["Hornet", "Soul Master", "Oblobbles"]);
    assert_eq!(d.charms_count, 12);
}

#[test]
fn parse_hollow_knight_defaults() {
    let d = parse_hk(r#"{"playerData":{}}"#, 0, 0, false).expect("playerData present");
    assert_eq!(d.geo, 0);
    assert_eq!(d.max_health, 5);
    assert_eq!(d.soul_vessels, 0);
    assert!(d.bosses_defeated.is_empty());
    assert!(!d.completion_below_max);
}

#[test]
fn parse_hollow_knight_rounds_toward_zero() {
    let d = parse_hk(r#"{"playerData":{"heartPieces":-5,"MPReserveMax":-40}}"#, 0, 0, true).unwrap();
    assert_eq!(d.max_health, 4);
    assert_eq!(d.soul_vessels, u32::MAX);
}

#[test]
fn parse_hollow_knight_needs_player_data() {
    assert!(parse_hk(r#"{"sceneData":{}}"#, 0, 0, true).is_none());
    assert!(parse_hk("not json at all", 0, 0, true).is_none());
}

#[test]
fn parse_json_checked_refuses_overflowing_health() {
    let big = r#"{"playerData":{"maxHealth":9223372036854775807,"heartPieces":8}}"#;
    assert!(parse_json_checked(big, 0, 0, true).is_none());
    let edge = r#"{"playerData":{"maxHealth":9223372036854775807,"heartPieces":3}}"#;
    let d = parse_json_checked(edge, 0, 0, true).expect("fits").expect("playerData present");
    assert_eq!(d.max_health, u32::MAX);
    assert!(parse_json_checked("[]", 0, 0, true).expect("fits").is_none());
}

#[test]
fn parse_silksong_save() {
    let json = r#"{"playerData":{"geo":77,"hasDash":true,"hasWallJump":true,"hasWalljump":false,"hasDoubleJump":false}}"#;
    let d = parse_ss(json, 61).expect("playerData present");
    assert_eq!(d.geo, 77);
    assert!(d.has_dash);
    assert!(d.has_wall_jump);
    assert!(!d.has_double_jump);
    assert_eq!(d.play_time_secs, 61);
    assert_eq!(d.max_health, 5);
    assert_eq!(d.soul_vessels, 0);
    assert!(d.bosses_defeated.is_empty());
    assert!(parse_ss("{}", 0).is_none());
}

#[test]
fn process_listing() {
    let listing = b"\r\nImage Name                     PID Session Name        Session#    Mem Usage\r\n========================= ======== ================ =========== ============\r\nHollowKnight.exe             12345 Console                    1    812,340 K\r\n";
    assert!(process_listed(listing, HOLLOW_KNIGHT_PROCESS));
    assert!(!process_listed(listing, SILKSONG_PROCESS));
    assert!(!process_listed(b"INFO: No tasks are running which match the specified criteria.", HOLLOW_KNIGHT_PROCESS));
    let mut garbled = vec![0xffu8, 0xfe];
    garbled.extend_from_slice(b"Silksong.exe");
    assert!(process_listed(&garbled, SILKSONG_PROCESS));
    assert!(!process_listed(b"Silksong.ex", SILKSONG_PROCESS));
    assert!(process_listed(b"", ""));
}

#[test]
fn latest_index_takes_the_last_of_the_newest() {
    assert_eq!(latest_index(&Vec::new()), None);
    assert_eq!(latest_index(&vec![42]), Some(0));
    assert_eq!(latest_index(&vec![5, 9, 9, 3]), Some(2));
    assert_eq!(latest_index(&vec![-1, -7, i128::MIN]), Some(0));
    assert_eq!(latest_index(&vec![1, 2, 3]), Some(2));
}

#[test]
fn read_save_fields_returns_player_data() {
    let raw = save_file(HK_JSON);
    let fields = read_save_fields(&raw).expect("save decrypts");
    assert_eq!(fields.get("geo").and_then(|v| v.as_i64()), Some(1200));
    assert_eq!(fields.get("hasDash").and_then(|v| v.as_bool()), Some(true));
}

#[test]
fn read_save_fields_returns_exactly_the_player_member() {
    let raw = save_file(r#"{"sceneData":{"x":1},"playerData":{"geo":5,"hasDash":true},"z":[]}"#);
    assert_eq!(read_save_fields(&raw).unwrap().to_string(), r#"{"geo":5,"hasDash":true}"#);
}

#[test]
fn read_save_fields_errors() {
    assert_eq!(read_save_fields(&[1, 2, 3]).unwrap_err(), "Failed to decrypt save");
    assert_eq!(read_save_fields(&save_file(r#"{"other":1}"#)).unwrap_err(), "No playerData in save");
    let message = read_save_fields(&save_file("{not json")).unwrap_err();
    let expected = serde_json::from_str::<serde_json::Value>("{not json").unwrap_err().to_string();
    assert_eq!(message, expected);
}

#[test]
fn update_save_field_writes_the_member() {
    let raw = save_file(HK_JSON);
    let edited = update_save_field(&raw, "geo", doc("4321")).expect("save parses");
    assert_eq!(edited[..22].to_vec(), raw[..22].to_vec());
    let edited_json = set_player_field(HK_JSON, "geo", doc("4321")).expect("parses");
    assert_eq!(encrypt_save(&edited_json, &raw), Some(edited.clone()));
    let json = decrypt_save(&edited).expect("still decrypts");
    assert_eq!(member_i64(&json, "playerData", "geo"), Some(4321));
    assert_eq!(member_bool(&json, "playerData", "hasDash"), Some(true));
    let edited = update_save_field(&raw, "hasDreamNail", doc("true")).expect("save parses");
    let json = decrypt_save(&edited).expect("still decrypts");
    assert_eq!(member_bool(&json, "playerData", "hasDreamNail"), Some(true));
}

#[test]
fn update_save_field_errors() {
    assert_eq!(update_save_field(&[0u8; 30], "geo", doc("1")).unwrap_err(), "Failed to decrypt save");
    let broken = save_file("{\"playerData\":");
    let bad_save = serde_json::from_str::<Value>("{\"playerData\":").unwrap_err().to_string();
    assert_eq!(update_save_field(&broken, "geo", doc("1")).unwrap_err(), bad_save);
}

#[test]
fn update_save_field_leaves_a_non_object_player_section() {
    let raw = save_file(r#"{"playerData":"none"}"#);
    let edited = update_save_field(&raw, "geo", doc("1")).expect("save parses");
    assert_eq!(decrypt_save(&edited), Some(r#"{"playerData":"none"}"#.to_string()));
}

#[test]
fn checked_update_save_field_on_an_ordinary_save() {
    let raw = save_file(HK_JSON);
    let edited = checked_update_save_field(&raw, "geo", doc("9")).expect("fits").expect("save parses");
    let json = decrypt_save(&edited).expect("still decrypts");
    assert_eq!(member_i64(&json, "playerData", "geo"), Some(9));
}
