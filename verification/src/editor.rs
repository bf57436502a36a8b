//! The save editor: reading the player's raw state out of a save, and writing
//! one member of it back.
use vstd::prelude::*;
use vstd::utf8::*;

use crate::plugins::hollow_knight::player_section;
use crate::plugins::json::{
    insert_member, json_normal_text, json_parse_message, json_parses, json_section_is_object,
    json_section_present, json_section_text, json_value_text, json_with_member, parse_error_message,
    parse_value, section_is_object, section_value, value_text,
};
use crate::plugins::save_crypto::{
    decrypt_save, decrypted_save, encrypt_fits, encrypt_fits_len, encrypt_save, encrypted_save,
    save_framing_fits,
};

use serde_json::Value;

verus! {

pub const DECRYPT_FAILED: &'static str = "Failed to decrypt save";
pub const NO_PLAYER_DATA: &'static str = "No playerData in save";
pub const ENCRYPT_FAILED: &'static str = "Failed to encrypt save";

/// The parser's message for `json`, which does not parse.
fn parse_failure(json: &str) -> (message: String)
    requires
        !json_parses(json@),
    ensures
        message@ == json_parse_message(json@),
{
    match parse_error_message(json) {
        Some(m) => m,
        None => {
            proof {
                assert(false);
            }
            String::new()
        },
    }
}

/// The `playerData` member of the save file `raw`.
///
/// Fails with `DECRYPT_FAILED` where the save does not decrypt, with the JSON
/// parser's message where its text does not parse, and with `NO_PLAYER_DATA`
/// where it has no `playerData` member.
pub fn read_save_fields(raw: &[u8]) -> (fields: Result<Value, String>)
    requires
        save_framing_fits(raw@),
    ensures
        match decrypted_save(raw@) {
            None => fields is Err && fields->Err_0@ == DECRYPT_FAILED@,
            Some(j) => if !json_parses(j) {
                fields is Err && fields->Err_0@ == json_parse_message(j)
            } else if !json_section_present(j, player_section()) {
                fields is Err && fields->Err_0@ == NO_PLAYER_DATA@
            } else {
                fields is Ok && json_value_text(fields->Ok_0) == json_section_text(j, player_section())
            },
        },
{
    let json = match decrypt_save(raw) {
        Some(j) => j,
        None => return Err(String::from_str(DECRYPT_FAILED)),
    };
    match section_value(json.as_str(), "playerData") {
        Err(_) => Err(parse_failure(json.as_str())),
        Ok(None) => Err(String::from_str(NO_PLAYER_DATA)),
        Ok(Some(pd)) => Ok(pd),
    }
}

/// The JSON text that setting member `field` of `playerData` to the document
/// written as `value` makes of the JSON text `json`: where `playerData` is an
/// object, the document with the member set; otherwise the document unchanged.
/// Either way it is written back out in `serde_json`'s compact form.
pub open spec fn edited_json(json: Seq<char>, field: Seq<char>, value: Seq<char>) -> Seq<char> {
    let doc = json_normal_text(json);
    if json_section_is_object(doc, player_section()) {
        json_with_member(doc, player_section(), field, value)
    } else {
        doc
    }
}

/// The JSON text `json` with member `field` of its `playerData` set to `value`
/// (where `playerData` is an object; otherwise the document is written back
/// unchanged). Fails with the parser's message where `json` does not parse.
pub fn set_player_field(json: &str, field: &str, value: Value) -> (edited: Result<String, String>)
    ensures
        (edited is Err) == !json_parses(json@),
        edited matches Err(m) ==> m@ == json_parse_message(json@),
        edited matches Ok(t) ==> t@ == edited_json(json@, field@, json_value_text(value)),
{
    let mut root = match parse_value(json) {
        Ok(v) => v,
        Err(_) => return Err(parse_failure(json)),
    };
    if section_is_object(&root, "playerData") {
        insert_member(&mut root, "playerData", field, value);
    }
    Ok(value_text(&root))
}

/// Whether writing `value` into member `field` of `playerData` of the save
/// file `raw` gives a JSON text small enough to encrypt.
pub open spec fn edit_fits(raw: Seq<u8>, field: Seq<char>, value: Seq<char>) -> bool {
    match decrypted_save(raw) {
        Some(j) => json_parses(j) ==> encrypt_fits(encode_utf8(edited_json(j, field, value)).len() as int),
        None => true,
    }
}

/// Whether `edited` is what writing the document written as `value` into
/// member `field` of `playerData` of the save file `raw` gives:
/// `DECRYPT_FAILED` where the save does not decrypt; the parser's message
/// where its text does not parse; and otherwise the encryption of the edited
/// JSON text behind `raw`'s header, which keeps that header and decrypts to
/// the edited text.
pub open spec fn updates_save(raw: Seq<u8>, field: Seq<char>, value: Seq<char>, edited: Result<Vec<u8>, String>) -> bool {
    match decrypted_save(raw) {
        None => edited is Err && edited->Err_0@ == DECRYPT_FAILED@,
        Some(j) => {
            &&& (edited is Ok) == json_parses(j)
            &&& !json_parses(j) ==> edited is Err && edited->Err_0@ == json_parse_message(j)
            &&& edited matches Ok(data) ==> {
                let text = edited_json(j, field, value);
                &&& encrypted_save(text, raw) == Some(data@)
                &&& decrypted_save(data@) == Some(text)
                &&& data@.take(22) == raw.take(22)
            }
        },
    }
}

/// The save file `raw` with member `field` of its `playerData` set to `value`
/// (where `playerData` is an object), keeping `raw`'s header; `None` where the
/// edited JSON text is too large to encrypt.
///
/// Fails with `DECRYPT_FAILED` where the save does not decrypt, and with the
/// JSON parser's message where its text does not parse. The new save is the
/// encryption of the edited JSON text behind `raw`'s header.
pub fn checked_update_save_field(raw: &[u8], field: &str, value: Value) -> (edited: Option<Result<Vec<u8>, String>>)
    requires
        save_framing_fits(raw@),
    ensures
        edited is None == !edit_fits(raw@, field@, json_value_text(value)),
        edited matches Some(r) ==> updates_save(raw@, field@, json_value_text(value), r),
{
    let json = match decrypt_save(raw) {
        Some(j) => j,
        None => return Some(Err(String::from_str(DECRYPT_FAILED))),
    };
    let modified = match set_player_field(json.as_str(), field, value) {
        Ok(m) => m,
        Err(e) => return Some(Err(e)),
    };
    if !encrypt_fits_len(modified.as_str().as_bytes().len()) {
        return None;
    }
    proof {
        assert(raw@.len() >= 22);
    }
    match encrypt_save(modified.as_str(), raw) {
        Some(data) => {
            proof {
                assert(data@.take(22) =~= raw@.take(22));
            }
            Some(Ok(data))
        },
        None => Some(Err(String::from_str(ENCRYPT_FAILED))),
    }
}

/// `checked_update_save_field` where the edited JSON text is known to be small
/// enough to encrypt.
pub fn update_save_field(raw: &[u8], field: &str, value: Value) -> (edited: Result<Vec<u8>, String>)
    requires
        save_framing_fits(raw@),
        edit_fits(raw@, field@, json_value_text(value)),
    ensures
        updates_save(raw@, field@, json_value_text(value), edited),
{
    match checked_update_save_field(raw, field, value) {
        Some(r) => r,
        None => {
            proof {
                assert(false);
            }
            Err(String::from_str(ENCRYPT_FAILED))
        },
    }
}

/// The editor works on the `playerData` member: an edit sets the field there
/// where that member is an object and otherwise writes the document back as
/// it was; and its messages are the fixed texts below.
pub proof fn editor_works_on_player_data(json: Seq<char>, field: Seq<char>, value: Seq<char>)
    ensures
        player_section() == "playerData"@,
        json_section_is_object(json_normal_text(json), "playerData"@) ==> edited_json(json, field, value)
            == json_with_member(json_normal_text(json), "playerData"@, field, value),
        !json_section_is_object(json_normal_text(json), "playerData"@) ==> edited_json(json, field, value)
            == json_normal_text(json),
        DECRYPT_FAILED@ == "Failed to decrypt save"@,
        NO_PLAYER_DATA@ == "No playerData in save"@,
{
}

} // verus!
