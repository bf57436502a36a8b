use questbuddy::plugins::codec::{
    aes256_decrypt_padded, aes256_encrypt_padded, base64_decode, base64_encode, string_from_utf8,
    string_from_utf8_lossy,
};
use questbuddy::plugins::save_crypto::{
    decrypt_save, encrypt_fits_len, encrypt_save, framing_fits, is_save_slot, read_vlq, write_vlq,
    HEADER_LEN, TRAILER,
};

const SAVE_KEY: &[u8; 32] = b"UKu52ePUBwetZ9wNX88o54dnfKRu0T1l";
const SMALL_JSON: &str = "{\"playerData\":{\"geo\":5}}";
const SMALL_JSON_TEXT: &str = "TFeIrTZDQKsiH54bCLkFLckZVBh/iU6mwgEleIB5mIU=";

fn sample_header() -> Vec<u8> {
    (0u8..22).map(|b| b.wrapping_mul(7).wrapping_add(3)).collect()
}

fn framed(header: &[u8], text: &[u8], trailer: bool) -> Vec<u8> {
    let mut data = header.to_vec();
    data.extend_from_slice(&write_vlq(text.len()));
    data.extend_from_slice(text);
    if trailer {
        data.push(TRAILER);
    }
    data
}

#[test]
fn write_vlq_small_values_take_one_byte() {
    assert_eq!(write_vlq(0), vec![0x00]);
    assert_eq!(write_vlq(1), vec![0x01]);
    assert_eq!(write_vlq(127), vec![0x7f]);
}

#[test]
fn write_vlq_sets_the_continuation_bit() {
    assert_eq!(write_vlq(128), vec![0x80, 0x01]);
    assert_eq!(write_vlq(300), vec![0xac, 0x02]);
    assert_eq!(write_vlq(16384), vec![0x80, 0x80, 0x01]);
}

#[test]
fn read_vlq_stops_after_the_last_byte() {
    assert_eq!(read_vlq(&[0xac, 0x02, 0xff, 0x01]), (300, 2));
    assert_eq!(read_vlq(&[0x05, 0x80]), (5, 1));
}

#[test]
fn read_vlq_of_nothing_is_zero() {
    assert_eq!(read_vlq(&[]), (0, 0));
}

#[test]
fn read_vlq_runs_to_the_end_without_a_final_byte() {
    assert_eq!(read_vlq(&[0x81, 0x81]), (129, 2));
}

#[test]
fn vlq_round_trip_on_values() {
    for v in [0usize, 1, 44, 127, 128, 255, 300, 16383, 16384, 1 << 20, 123_456_789, usize::MAX] {
        let mut bytes = write_vlq(v);
        let n = bytes.len();
        bytes.extend_from_slice(&[0x0b, 0x80, 0x41]);
        assert_eq!(read_vlq(&bytes), (v, n));
    }
}

#[test]
fn base64_encode_uses_the_standard_alphabet_with_padding() {
    assert_eq!(base64_encode(b"Man"), b"TWFu".to_vec());
    assert_eq!(base64_encode(b"Ma"), b"TWE=".to_vec());
    assert_eq!(base64_encode(b"M"), b"TQ==".to_vec());
    assert_eq!(base64_encode(b""), Vec::<u8>::new());
    assert_eq!(base64_encode(&[0xfb, 0xff]), b"+/8=".to_vec());
}

#[test]
fn base64_decode_inverts_encode_and_rejects_bad_text() {
    assert_eq!(base64_decode(b"TWFu"), Some(b"Man".to_vec()));
    assert_eq!(base64_decode(b"TQ=="), Some(b"M".to_vec()));
    assert_eq!(base64_decode(b"T!Fu"), None);
    assert_eq!(base64_decode(b"TWF"), None);
}

#[test]
fn aes_encryption_matches_the_standard_vector() {
    let key: Vec<u8> = (0u8..32).collect();
    let plain: Vec<u8> = vec![
        0x00, 0x11, 0x22, 0x33, 0x44, 0x55, 0x66, 0x77, 0x88, 0x99, 0xaa, 0xbb, 0xcc, 0xdd, 0xee,
        0xff,
    ];
    let mut buf = plain.clone();
    buf.extend_from_slice(&[0u8; 16]);
    let ct = aes256_encrypt_padded(&key, buf, 16).expect("room for padding");
    assert_eq!(ct.len(), 32);
    let expected_first_block: Vec<u8> = vec![
        0x8e, 0xa2, 0xb7, 0xca, 0x51, 0x67, 0x45, 0xbf, 0xea, 0xfc, 0x49, 0x90, 0x4b, 0x49, 0x60,
        0x89,
    ];
    assert_eq!(ct[..16].to_vec(), expected_first_block);
    assert_eq!(aes256_decrypt_padded(&key, ct), Some(plain));
}

#[test]
fn aes_encryption_needs_room_for_the_padding() {
    let key: Vec<u8> = (0u8..32).collect();
    assert_eq!(aes256_encrypt_padded(&key, vec![1u8; 16], 16), None);
    assert!(aes256_encrypt_padded(&key, vec![1u8; 16], 15).is_some());
}

#[test]
fn aes_decryption_rejects_partial_blocks() {
    assert_eq!(aes256_decrypt_padded(SAVE_KEY, vec![0u8; 15]), None);
    assert_eq!(aes256_decrypt_padded(SAVE_KEY, Vec::new()), None);
}

#[test]
fn utf8_conversions() {
    assert_eq!(string_from_utf8(b"geo".to_vec()), Some("geo".to_string()));
    assert_eq!(string_from_utf8(vec![0x67, 0xff]), None);
    assert_eq!(string_from_utf8_lossy(&[0x67, 0xff, 0x6f]), "g\u{fffd}o".to_string());
}

#[test]
fn encrypt_save_matches_the_game_format() {
    let header = sample_header();
    let data = encrypt_save(SMALL_JSON, &header).expect("header present");
    let expected = framed(&header, SMALL_JSON_TEXT.as_bytes(), true);
    assert_eq!(data, expected);
    assert_eq!(data[HEADER_LEN], 44);
    assert_eq!(*data.last().unwrap(), 0x0b);
}

#[test]
fn decrypt_save_reads_a_game_save() {
    let data = framed(&sample_header(), SMALL_JSON_TEXT.as_bytes(), true);
    assert_eq!(decrypt_save(&data), Some(SMALL_JSON.to_string()));
}

#[test]
fn decrypt_save_accepts_a_save_without_trailer() {
    let data = framed(&sample_header(), SMALL_JSON_TEXT.as_bytes(), false);
    assert_eq!(decrypt_save(&data), Some(SMALL_JSON.to_string()));
}

#[test]
fn decrypt_save_drops_a_trailer_inside_the_announced_length() {
    let mut text = SMALL_JSON_TEXT.as_bytes().to_vec();
    text.push(TRAILER);
    let data = framed(&sample_header(), &text, false);
    assert_eq!(decrypt_save(&data), Some(SMALL_JSON.to_string()));
}

#[test]
fn decrypt_save_rejects_short_data() {
    assert_eq!(decrypt_save(&[]), None);
    assert_eq!(decrypt_save(&sample_header()[..21]), None);
    assert_eq!(decrypt_save(&sample_header()), None);
}

#[test]
fn decrypt_save_rejects_a_length_past_the_end() {
    let mut data = sample_header();
    data.push(50);
    data.extend_from_slice(SMALL_JSON_TEXT.as_bytes());
    assert_eq!(decrypt_save(&data), None);
}

#[test]
fn decrypt_save_rejects_bad_base64() {
    let data = framed(&sample_header(), b"not*base64", true);
    assert_eq!(decrypt_save(&data), None);
}

#[test]
fn decrypt_save_rejects_wrong_ciphertext_length() {
    let data = framed(&sample_header(), b"TWFu", true);
    assert_eq!(decrypt_save(&data), None);
}

#[test]
fn encrypt_save_needs_a_header() {
    assert_eq!(encrypt_save(SMALL_JSON, &[1u8; 21]), None);
}

#[test]
fn encrypt_then_decrypt_gives_the_json_back() {
    let header = sample_header();
    for json in ["", "{}", SMALL_JSON, "{\"playerData\":{\"name\":\"Ghost — the Knight\",\"geo\":123456}}"] {
        let data = encrypt_save(json, &header).expect("header present");
        assert!(framing_fits(&data));
        assert_eq!(decrypt_save(&data), Some(json.to_string()));
        assert_eq!(data[..HEADER_LEN].to_vec(), header);
    }
}

#[test]
fn encrypt_save_long_text_uses_a_two_byte_length() {
    let json = format!("{{\"playerData\":{{\"pad\":\"{}\"}}}}", "x".repeat(400));
    let data = encrypt_save(&json, &sample_header()).expect("header present");
    assert!(data[HEADER_LEN] >= 0x80);
    assert!(data[HEADER_LEN + 1] < 0x80);
    assert_eq!(decrypt_save(&data), Some(json));
}

#[test]
fn framing_fits_on_ordinary_and_short_data() {
    assert!(framing_fits(&[]));
    assert!(framing_fits(&framed(&sample_header(), b"TWFu", true)));
    let mut endless = sample_header();
    endless.extend_from_slice(&[0xff; 12]);
    assert!(!framing_fits(&endless));
}

#[test]
fn encrypt_fits_len_bounds() {
    assert!(encrypt_fits_len(0));
    assert!(encrypt_fits_len(1 << 20));
    assert!(!encrypt_fits_len(usize::MAX));
}

#[test]
fn is_save_slot_names() {
    assert!(is_save_slot("user1.dat"));
    assert!(is_save_slot("user4.dat"));
    assert!(is_save_slot("user.dat"));
    assert!(!is_save_slot("user1.dat.bak"));
    assert!(!is_save_slot("save1.dat"));
    assert!(!is_save_slot("user"));
    assert!(!is_save_slot(".dat"));
    assert!(!is_save_slot(""));
    assert!(!is_save_slot("User1.dat"));
}

#[test]
fn encrypt_save_reads_only_the_header_of_the_original() {
    let mut first = sample_header();
    first.extend_from_slice(b"old body one");
    let mut second = sample_header();
    second.extend_from_slice(&[0xff; 40]);
    assert_eq!(encrypt_save(SMALL_JSON, &first), encrypt_save(SMALL_JSON, &second));
    assert_eq!(encrypt_save(SMALL_JSON, &first), encrypt_save(SMALL_JSON, &sample_header()));
}

#[test]
fn encrypt_save_length_follows_the_padded_ciphertext() {
    for n in [0usize, 1, 15, 16, 17, 100, 500] {
        let json = "x".repeat(n);
        let data = encrypt_save(&json, &sample_header()).expect("header present");
        let padded = 16 * (n / 16 + 1);
        let text_len = 4 * ((padded + 2) / 3);
        assert_eq!(data.len(), HEADER_LEN + write_vlq(text_len).len() + text_len + 1);
    }
}
