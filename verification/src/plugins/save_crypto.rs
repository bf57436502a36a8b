//! The encrypted save format.
//!
//! A save file is a fixed 22-byte header, then the length of a base64 text
//! written as a little-endian base-128 integer (seven bits per byte, high bit set
//! on every byte but the last), then that base64 text, then a single `0x0B`
//! byte. The base64 text encodes the AES-256/ECB/PKCS#7 encryption of the save's
//! JSON under a fixed key.
use vstd::prelude::*;
use vstd::arithmetic::power2::*;
use vstd::bits::{lemma_usize_pow2_no_overflow, lemma_usize_shl_is_mul};
use vstd::slice::{slice_subrange, slice_to_vec};
use vstd::utf8::*;

use super::codec::{
    aes256_decrypt_padded, aes256_ecb_pkcs7_decrypt, aes256_ecb_pkcs7_encrypt, aes256_encrypt_padded,
    base64_decode, base64_decode_of_encoding, base64_encode, base64_encoding, base64_standard_decode, is_base64_text_byte,
    base64_symbol, pkcs7_padded_len, string_from_utf8,
};

verus! {

// ---------------------------------------------------------------------------
// Length header: little-endian base 128
// ---------------------------------------------------------------------------

/// How many bytes of `s` the length header occupies: up to and including the
/// first byte whose high bit is clear, or all of `s` when there is none.
pub open spec fn vlq_len(s: Seq<u8>) -> nat
    decreases s.len(),
{
    if s.len() == 0 {
        0
    } else if s[0] < 0x80 {
        1
    } else {
        1 + vlq_len(s.drop_first())
    }
}

/// The little-endian base-128 number whose digits are the low seven bits of the
/// bytes of `s`.
pub open spec fn digits_value(s: Seq<u8>) -> nat
    decreases s.len(),
{
    if s.len() == 0 {
        0
    } else {
        (s[0] % 128) as nat + 128 * digits_value(s.drop_first())
    }
}

/// The length that a header at the start of `s` denotes.
pub open spec fn vlq_value(s: Seq<u8>) -> nat {
    digits_value(s.take(vlq_len(s) as int))
}

/// Whether reading a header from `s` keeps every shift within a `usize`: each
/// byte that is read moves seven bits further up.
pub open spec fn vlq_shifts_fit(s: Seq<u8>) -> bool {
    vlq_len(s) == 0 || 7 * (vlq_len(s) - 1) < usize::BITS
}

/// The header that denotes `v`: its base-128 digits, least significant first,
/// with the high bit set on every byte but the last.
pub open spec fn vlq_encoding(v: nat) -> Seq<u8>
    decreases v,
{
    if v < 128 {
        seq![v as u8]
    } else {
        seq![(v % 128 + 128) as u8] + vlq_encoding(v / 128)
    }
}

proof fn lemma_pow2_le(e1: nat, e2: nat)
    requires
        e1 <= e2,
    ensures
        pow2(e1) <= pow2(e2),
{
    if e1 < e2 {
        lemma_pow2_strictly_increases(e1, e2);
    }
}

proof fn lemma_low_seven_bits(b: u8)
    ensures
        (b & 0x7f) == b % 128,
        ((b & 0x80) == 0) == (b < 0x80),
{
    assert((b & 0x7f) == b % 128) by (bit_vector);
    assert(((b & 0x80) == 0) == (b < 0x80)) by (bit_vector);
}

proof fn lemma_vlq_len_bound(s: Seq<u8>)
    ensures
        vlq_len(s) <= s.len(),
        s.len() > 0 ==> vlq_len(s) > 0,
    decreases s.len(),
{
    if s.len() > 0 && s[0] >= 0x80 {
        lemma_vlq_len_bound(s.drop_first());
    }
}

/// Reading one more digit adds it at the next seven-bit position.
proof fn lemma_digits_value_push(s: Seq<u8>, b: u8)
    ensures
        digits_value(s.push(b)) == digits_value(s) + (b % 128) as nat * pow2(7 * s.len()),
    decreases s.len(),
{
    lemma2_to64();
    let t = s.push(b);
    if s.len() == 0 {
        assert(t.drop_first() =~= Seq::<u8>::empty());
        assert(digits_value(t.drop_first()) == 0);
        assert(t[0] == b);
        assert(pow2(0) == 1);
        assert(digits_value(t) == (t[0] % 128) as nat + 128 * digits_value(t.drop_first()));
        assert(digits_value(s) == 0);
        assert(digits_value(t) == (b % 128) as nat);
        assert(7 * s.len() == 0);
        assert(pow2(7 * s.len()) == 1);
        let g = (b % 128) as nat;
        assert(g * 1 == g);
    } else {
        assert(t.drop_first() =~= s.drop_first().push(b));
        assert(t[0] == s[0]);
        lemma_digits_value_push(s.drop_first(), b);
        lemma_pow2_adds(7, 7 * (s.len() - 1) as nat);
        assert(7 + 7 * (s.len() - 1) as nat == 7 * s.len());
        let p = pow2(7 * (s.len() - 1) as nat);
        assert(pow2(7 * s.len()) == 128 * p);
        let g = (b % 128) as nat;
        assert(128 * (g * p) == g * (128 * p)) by (nonlinear_arith);
        let d = digits_value(s.drop_first());
        assert(digits_value(t) == (t[0] % 128) as nat + 128 * digits_value(t.drop_first()));
        assert(digits_value(t.drop_first()) == d + g * p);
        assert(digits_value(s) == (s[0] % 128) as nat + 128 * d);
        assert(128 * (d + g * p) == 128 * d + 128 * (g * p)) by (nonlinear_arith);
        assert(digits_value(t) == digits_value(s) + g * (128 * p));
        assert(digits_value(t) == digits_value(s) + (b % 128) as nat * pow2(7 * s.len()));
    }
}

proof fn lemma_digits_value_bound(s: Seq<u8>)
    ensures
        digits_value(s) < pow2(7 * s.len()),
    decreases s.len(),
{
    lemma2_to64();
    if s.len() > 0 {
        lemma_digits_value_bound(s.drop_first());
        lemma_pow2_adds(7, 7 * (s.len() - 1) as nat);
        let p = pow2(7 * (s.len() - 1) as nat);
        let d = digits_value(s.drop_first());
        assert((s[0] % 128) as nat + 128 * d < 128 * p) by (nonlinear_arith)
            requires d < p, s[0] % 128 < 128;
    }
}

/// OR-ing a digit in above the bits already read adds it, modulo the width of `usize`.
proof fn lemma_or_digit(acc: usize, g: usize, s: usize)
    requires
        (acc as nat) < pow2(s as nat),
        g < 128,
        s < usize::BITS,
        s % 7 == 0,
    ensures
        (acc | (g << s)) as int == (acc as int + g as int * pow2(s as nat) as int) % (pow2(
            usize::BITS as nat,
        ) as int),
{
    let w = usize::BITS as nat;
    lemma2_to64();
    lemma_pow2_pos(s as nat);
    lemma_usize_pow2_no_overflow(s as nat);
    assert(usize::MAX == pow2(w) - 1) by {
        if usize::BITS == 64 {
            assert(usize::MAX == 0xffff_ffff_ffff_ffff);
        } else {
            assert(usize::MAX == 0xffff_ffff);
        }
        lemma2_to64_rest();
    }
    assert(acc < (1usize << s)) by {
        lemma_usize_shl_is_mul(1, s);
    }
    assert((acc | (g << s)) == acc + (g << s)) by (bit_vector)
        requires
            acc < (1usize << s),
            s < usize::BITS,
    ;
    lemma_pow2_strictly_increases(s as nat, w);
    lemma_pow2_adds(s as nat, 7);
    assert(pow2(s as nat + 7) == 128 * pow2(s as nat));
    assert(g * pow2(s as nat) <= 127 * pow2(s as nat)) by (nonlinear_arith)
        requires
            g < 128,
    ;
    if s as nat + 7 <= w {
        lemma_pow2_le(s as nat + 7, w);
        lemma_usize_shl_is_mul(g, s);
        vstd::arithmetic::div_mod::lemma_small_mod((acc + g * pow2(s as nat)) as nat, pow2(w));
    } else {
        // Only the topmost digit position can lose bits: 63 on 64-bit targets,
        // 28 on 32-bit ones.
        let p: int = pow2(s as nat) as int;
        let k: nat = (w - s) as nat;
        let m: int = pow2(k) as int;
        if usize::BITS == 64 {
            assert(s == 63);
            assert(k == 1);
            assert((g << s) == ((g & 1) << s)) by (bit_vector)
                requires
                    usize::BITS == 64,
                    s == 63,
            ;
            assert((g & 1) == g % 2) by (bit_vector);
        } else {
            assert(s == 28);
            assert(k == 4);
            assert((g << s) == ((g & 15) << s)) by (bit_vector)
                requires
                    usize::BITS == 32,
                    s == 28,
            ;
            assert((g & 15) == g % 16) by (bit_vector);
        }
        lemma_pow2_adds(k, s as nat);
        assert(pow2(w) == m * p);
        assert((g % (m as usize)) * pow2(s as nat) <= usize::MAX) by {
            assert((g % (m as usize)) < m);
            assert((g % (m as usize)) * p <= (m - 1) * p) by (nonlinear_arith)
                requires
                    (g % (m as usize)) < m,
                    p > 0,
            ;
        }
        lemma_usize_shl_is_mul(g % (m as usize), s);
        // acc + g * p == (g / m) * (m * p) + (acc + (g % m) * p), and the last term is below m * p.
        let q: int = g as int / m;
        let r: int = g as int % m;
        assert(g as int == m * q + r) by {
            vstd::arithmetic::div_mod::lemma_fundamental_div_mod(g as int, m);
        }
        assert(acc as int + g as int * p == (m * p) * q + (acc as int + r * p)) by (nonlinear_arith)
            requires
                g as int == m * q + r,
        ;
        assert(0 <= r < m);
        assert(acc as int + r * p < m * p) by (nonlinear_arith)
            requires
                acc < p,
                0 <= r < m,
        ;
        assert(acc as int + r * p >= 0) by (nonlinear_arith)
            requires
                0 <= r,
                p > 0,
        ;
        vstd::arithmetic::div_mod::lemma_mod_multiples_vanish(q, acc as int + r * p, m * p);
        vstd::arithmetic::div_mod::lemma_small_mod((acc as int + r * p) as nat, (m * p) as nat);
    }
}

/// Reads the length header at the start of `data`: the length it denotes
/// (reduced to the width of `usize`) and the number of bytes it occupies.
pub fn read_vlq(data: &[u8]) -> (res: (usize, usize))
    requires
        vlq_shifts_fit(data@),
    ensures
        res.1 == vlq_len(data@),
        res.0 as nat == vlq_value(data@) % pow2(usize::BITS as nat),
{
    let mut len: usize = 0;
    let mut shift: usize = 0;
    let mut offset: usize = 0;
    proof {
        lemma_vlq_len_bound(data@);
        lemma2_to64();
        assert(data@.take(0) =~= Seq::<u8>::empty());
        assert(data@.skip(0) =~= data@);
        lemma_pow2_pos(usize::BITS as nat);
        vstd::arithmetic::div_mod::lemma_small_mod(0, pow2(usize::BITS as nat));
    }
    while offset < data.len()
        invariant
            offset <= data@.len(),
            vlq_shifts_fit(data@),
            shift == 7 * offset,
            vlq_len(data@) == offset + vlq_len(data@.skip(offset as int)),
            len as nat == digits_value(data@.take(offset as int)) % pow2(usize::BITS as nat),
            digits_value(data@.take(offset as int)) < pow2(7 * offset as nat),
        decreases data@.len() - offset,
    {
        let byte = data[offset];
        proof {
            lemma_low_seven_bits(byte);
            let rest = data@.skip(offset as int);
            assert(rest[0] == byte);
            assert(vlq_len(rest) >= 1);
            assert(7 * offset < usize::BITS);
            lemma_pow2_le(7 * offset as nat, usize::BITS as nat);
            vstd::arithmetic::div_mod::lemma_small_mod(
                digits_value(data@.take(offset as int)),
                pow2(usize::BITS as nat),
            );
            lemma_or_digit(len, (byte & 0x7f) as usize, shift);
            lemma_digits_value_push(data@.take(offset as int), byte);
            assert(data@.take(offset as int).push(byte) =~= data@.take(offset + 1));
        }
        offset += 1;
        len |= ((byte & 0x7F) as usize) << shift;
        proof {
            lemma_digits_value_bound(data@.take(offset as int));
        }
        if byte & 0x80 == 0 {
            proof {
                let rest = data@.skip(offset - 1);
                assert(vlq_len(rest) == 1);
            }
            return (len, offset);
        }
        proof {
            let rest = data@.skip(offset - 1);
            assert(rest.drop_first() =~= data@.skip(offset as int));
        }
        shift += 7;
    }
    proof {
        assert(data@.take(offset as int) =~= data@);
        assert(data@.skip(offset as int) =~= Seq::<u8>::empty());
    }
    (len, offset)
}

/// Writes `value` as a length header.
pub fn write_vlq(value: usize) -> (bytes: Vec<u8>)
    ensures
        bytes@ == vlq_encoding(value as nat),
{
    let ghost v0 = value;
    let mut value = value;
    let mut result: Vec<u8> = Vec::new();
    proof {
        assert(result@ + vlq_encoding(value as nat) =~= vlq_encoding(v0 as nat));
    }
    loop
        invariant_except_break
            result@ + vlq_encoding(value as nat) == vlq_encoding(v0 as nat),
        ensures
            result@ == vlq_encoding(v0 as nat),
        decreases value,
    {
        let ghost w = value;
        proof {
            assert((value & 0x7f) < 128) by (bit_vector);
        }
        let mut byte = (value & 0x7F) as u8;
        value >>= 7;
        proof {
            assert((w & 0x7f) as u8 == w % 128) by (bit_vector);
            assert(w >> 7 == w / 128) by (bit_vector);
        }
        if value > 0 {
            proof {
                assert(byte < 128);
                assert((byte | 0x80) == byte + 128) by (bit_vector)
                    requires
                        byte < 128,
                ;
            }
            byte |= 0x80;
        }
        let ghost before = result@;
        result.push(byte);
        if value == 0 {
            proof {
                assert(w < 128);
                assert(vlq_encoding(w as nat) == seq![w as u8]);
                assert(result@ =~= before + vlq_encoding(w as nat));
            }
            break;
        }
        proof {
            assert(w >= 128);
            assert(vlq_encoding(w as nat) == seq![byte] + vlq_encoding(value as nat));
            assert(result@ + vlq_encoding(value as nat) =~= before + vlq_encoding(w as nat));
        }
    }
    result
}

/// A header's digits give back the value it was written for.
proof fn lemma_vlq_encoding_digits(v: nat)
    ensures
        digits_value(vlq_encoding(v)) == v,
        vlq_encoding(v).len() >= 1,
    decreases v,
{
    if v < 128 {
        let e = vlq_encoding(v);
        assert(e.drop_first() =~= Seq::<u8>::empty());
        assert(digits_value(e.drop_first()) == 0);
    } else {
        lemma_vlq_encoding_digits(v / 128);
        let e = vlq_encoding(v);
        assert(e.drop_first() =~= vlq_encoding(v / 128));
    }
}

/// A header is read back to its own end, whatever follows it.
proof fn lemma_vlq_encoding_len(v: nat, rest: Seq<u8>)
    ensures
        vlq_len(vlq_encoding(v) + rest) == vlq_encoding(v).len(),
    decreases v,
{
    let e = vlq_encoding(v);
    if v < 128 {
        assert((e + rest)[0] == v as u8);
    } else {
        lemma_vlq_encoding_len(v / 128, rest);
        assert((e + rest).drop_first() =~= vlq_encoding(v / 128) + rest);
        assert((e + rest)[0] >= 0x80);
    }
}

/// A value below 128 to the power `k` takes at most `k` header bytes.
proof fn lemma_vlq_encoding_short(v: nat, k: nat)
    requires
        k >= 1,
        v < pow2(7 * k),
    ensures
        vlq_encoding(v).len() <= k,
    decreases k,
{
    lemma2_to64();
    if v >= 128 {
        if k == 1 {
            assert(false);
        } else {
            lemma_pow2_adds(7, 7 * (k - 1) as nat);
            assert(7 + 7 * (k - 1) as nat == 7 * k);
            let p = pow2(7 * (k - 1) as nat);
            assert(v / 128 < p) by {
                vstd::arithmetic::div_mod::lemma_multiply_divide_lt(v as int, 128, p as int);
            }
            lemma_vlq_encoding_short(v / 128, (k - 1) as nat);
            assert(vlq_encoding(v).len() == 1 + vlq_encoding(v / 128).len());
        }
    }
}

/// Reading the header that `write_vlq` writes for `value`, followed by anything,
/// gives back `value` and the header's own length, without overflowing a shift.
pub proof fn vlq_round_trip(value: usize, rest: Seq<u8>)
    ensures
        vlq_shifts_fit(vlq_encoding(value as nat) + rest),
        vlq_len(vlq_encoding(value as nat) + rest) == vlq_encoding(value as nat).len(),
        vlq_value(vlq_encoding(value as nat) + rest) % pow2(usize::BITS as nat) == value,
        vlq_encoding(value as nat).len() <= 10,
{
    let v = value as nat;
    let e = vlq_encoding(v);
    lemma2_to64();
    lemma2_to64_rest();
    lemma_vlq_encoding_len(v, rest);
    lemma_vlq_encoding_digits(v);
    assert((e + rest).take(e.len() as int) =~= e);
    if usize::BITS == 64 {
        assert(usize::MAX == 0xffff_ffff_ffff_ffff);
        lemma_pow2_strictly_increases(64, 70);
        lemma_vlq_encoding_short(v, 10);
    } else {
        assert(usize::MAX == 0xffff_ffff);
        lemma_pow2_strictly_increases(32, 35);
        lemma_vlq_encoding_short(v, 5);
    }
    lemma_pow2_pos(usize::BITS as nat);
    vstd::arithmetic::div_mod::lemma_small_mod(v, pow2(usize::BITS as nat));
}

// ---------------------------------------------------------------------------
// Whole save files
// ---------------------------------------------------------------------------

/// Length of the fixed header that every save file starts with.
pub const HEADER_LEN: usize = 22;

/// The byte that ends every save file written by the game.
pub const TRAILER: u8 = 0x0b;

/// The AES-256 key that the game encrypts its saves with.
pub open spec fn save_key() -> Seq<u8> {
    seq![
        0x55u8, 0x4b, 0x75, 0x35, 0x32, 0x65, 0x50, 0x55, 0x42, 0x77, 0x65, 0x74, 0x5a, 0x39,
        0x77, 0x4e, 0x58, 0x38, 0x38, 0x6f, 0x35, 0x34, 0x64, 0x6e, 0x66, 0x4b, 0x52, 0x75,
        0x30, 0x54, 0x31, 0x6c,
    ]
}

fn key_bytes() -> (key: Vec<u8>)
    ensures
        key@ == save_key(),
{
    let key: Vec<u8> = vec![
        0x55u8, 0x4b, 0x75, 0x35, 0x32, 0x65, 0x50, 0x55, 0x42, 0x77, 0x65, 0x74, 0x5a, 0x39,
        0x77, 0x4e, 0x58, 0x38, 0x38, 0x6f, 0x35, 0x34, 0x64, 0x6e, 0x66, 0x4b, 0x52, 0x75,
        0x30, 0x54, 0x31, 0x6c,
    ];
    assert(key@ =~= save_key());
    key
}

/// Whether reading the framing of `data` stays within machine arithmetic: the
/// length header's shifts fit in a `usize`, and so does the end of the text it
/// announces.
pub open spec fn save_framing_fits(data: Seq<u8>) -> bool {
    data.len() < HEADER_LEN || {
        let body = data.skip(HEADER_LEN as int);
        &&& vlq_shifts_fit(body)
        &&& vlq_len(body) + vlq_value(body) % pow2(usize::BITS as nat) <= usize::MAX
    }
}

/// The base64 text that the framing of `data` holds: after the header, as many
/// bytes after the length header as it announces, less one trailing `0x0B`
/// if the text ends with one. `None` when `data` is too short for the header or
/// for the announced text.
pub open spec fn save_text(data: Seq<u8>) -> Option<Seq<u8>> {
    if data.len() < HEADER_LEN {
        None
    } else {
        let body = data.skip(HEADER_LEN as int);
        let start = vlq_len(body) as int;
        let end = start + (vlq_value(body) % pow2(usize::BITS as nat)) as int;
        if end > body.len() {
            None
        } else {
            let text = body.subrange(start, end);
            if text.len() > 0 && text.last() == TRAILER {
                Some(text.drop_last())
            } else {
                Some(text)
            }
        }
    }
}

/// The JSON text that the save file `data` holds, or `None` where the framing,
/// the base64 text, the decryption or the UTF-8 of the plaintext is rejected.
pub open spec fn decrypted_save(data: Seq<u8>) -> Option<Seq<char>> {
    match save_text(data) {
        None => None,
        Some(text) => match base64_standard_decode(text) {
            None => None,
            Some(ct) => match aes256_ecb_pkcs7_decrypt(save_key(), ct) {
                None => None,
                Some(pt) => if valid_utf8(pt) {
                    Some(decode_utf8(pt))
                } else {
                    None
                },
            },
        },
    }
}

/// The save file that holds `json`, with the header taken from `original`;
/// `None` when `original` is shorter than a header.
pub open spec fn encrypted_save(json: Seq<char>, original: Seq<u8>) -> Option<Seq<u8>> {
    if original.len() < HEADER_LEN {
        None
    } else {
        let text = base64_encoding(aes256_ecb_pkcs7_encrypt(save_key(), encode_utf8(json)));
        Some(original.take(HEADER_LEN as int) + vlq_encoding(text.len()) + text + seq![TRAILER])
    }
}

/// Only the header of `original` reaches the save that `encrypt_save` writes:
/// two originals with the same header give the same save for the same JSON.
pub proof fn encrypted_save_uses_only_the_header(json: Seq<char>, original1: Seq<u8>, original2: Seq<u8>)
    requires
        original1.len() >= HEADER_LEN,
        original2.len() >= HEADER_LEN,
        original1.take(HEADER_LEN as int) == original2.take(HEADER_LEN as int),
    ensures
        encrypted_save(json, original1) == encrypted_save(json, original2),
{
}

/// Length of the base64 text in the save file for a JSON text of `n` UTF-8
/// bytes: four characters for every three bytes of the padded ciphertext,
/// rounded up.
pub open spec fn save_text_len(n: int) -> int {
    4 * ((pkcs7_padded_len(n) + 2) / 3)
}

/// Size of the zeroed buffer that a message of `n` bytes is padded and encrypted in:
/// `n` rounded up to whole 16-byte blocks, plus one more block.
pub open spec fn cipher_buffer_len(n: int) -> int {
    ((n + 15) / 16 + 1) * 16
}

/// Whether a JSON text of `n` UTF-8 bytes can be encrypted without exceeding the
/// largest allocation (`isize::MAX` bytes) for the cipher buffer or the base64 text.
pub open spec fn encrypt_fits(n: int) -> bool {
    &&& cipher_buffer_len(n) <= isize::MAX
    &&& 4 * ((pkcs7_padded_len(n) + 2) / 3) <= isize::MAX
}

/// Whether a JSON text of `n` UTF-8 bytes can be encrypted (`encrypt_fits`).
pub fn encrypt_fits_len(n: usize) -> (fits: bool)
    ensures
        fits == encrypt_fits(n as int),
{
    let m = n as u128;
    let buffer = ((m + 15) / 16 + 1) * 16;
    let padded = (m / 16 + 1) * 16;
    let text = 4 * ((padded + 2) / 3);
    buffer <= isize::MAX as u128 && text <= isize::MAX as u128
}

/// Decrypts the save file `data` to its JSON text.
pub fn decrypt_save(data: &[u8]) -> (json: Option<String>)
    requires
        save_framing_fits(data@),
    ensures
        json matches Some(s) ==> decrypted_save(data@) == Some(s@),
        json is None ==> decrypted_save(data@) is None,
{
    if data.len() < HEADER_LEN {
        return None;
    }
    let body = slice_subrange(data, HEADER_LEN, data.len());
    assert(body@ =~= data@.skip(HEADER_LEN as int));
    let (len, offset) = read_vlq(body);
    proof {
        lemma_vlq_len_bound(body@);
    }
    let end = offset + len;
    if end > body.len() {
        return None;
    }
    let encoded_full = slice_subrange(body, offset, end);
    let encoded = if len > 0 && body[end - 1] == TRAILER {
        slice_subrange(body, offset, end - 1)
    } else {
        encoded_full
    };
    proof {
        if len > 0 && body@[end - 1] == TRAILER {
            assert(encoded@ =~= encoded_full@.drop_last());
        }
    }
    let encrypted = match base64_decode(encoded) {
        Some(e) => e,
        None => return None,
    };
    proof {
        base64_decode_of_encoding(encrypted@);
    }
    let key = key_bytes();
    let plain = match aes256_decrypt_padded(&key, encrypted) {
        Some(p) => p,
        None => return None,
    };
    string_from_utf8(plain)
}

/// Encrypts `json` into a save file that keeps the header of `original`.
///
/// Decrypting the result gives `json` back.
pub fn encrypt_save(json: &str, original: &[u8]) -> (data: Option<Vec<u8>>)
    requires
        encrypt_fits(encode_utf8(json@).len() as int),
    ensures
        data matches Some(d) ==> encrypted_save(json@, original@) == Some(d@),
        data is None ==> encrypted_save(json@, original@) is None,
        data matches Some(d) ==> save_framing_fits(d@),
        data matches Some(d) ==> decrypted_save(d@) == Some(json@),
        data matches Some(d) ==> aes256_ecb_pkcs7_encrypt(save_key(), encode_utf8(json@)).len()
            == pkcs7_padded_len(encode_utf8(json@).len() as int),
        data matches Some(d) ==> d@.len() == HEADER_LEN + vlq_encoding(
            save_text_len(encode_utf8(json@).len() as int) as nat,
        ).len() + save_text_len(encode_utf8(json@).len() as int) + 1,
{
    if original.len() < HEADER_LEN {
        return None;
    }
    let header = slice_subrange(original, 0, HEADER_LEN);
    let key = key_bytes();
    let json_bytes = json.as_bytes();
    let n = json_bytes.len();
    let block_size: usize = 16;
    let buf_len = ((n + block_size - 1) / block_size + 1) * block_size;
    let mut buf: Vec<u8> = Vec::new();
    let mut i: usize = 0;
    while i < buf_len
        invariant
            i <= buf_len,
            n <= buf_len,
            json_bytes@.len() == n,
            buf@.len() == i,
            forall|j: int| 0 <= j < i && j < n ==> buf@[j] == json_bytes@[j],
        decreases buf_len - i,
    {
        if i < n {
            buf.push(json_bytes[i]);
        } else {
            buf.push(0u8);
        }
        i += 1;
    }
    assert(buf@.take(n as int) =~= json_bytes@);
    let encrypted = match aes256_encrypt_padded(&key, buf, n) {
        Some(c) => c,
        None => return None,
    };
    let encoded = base64_encode(&encrypted);
    let vlq = write_vlq(encoded.len());
    let mut result = slice_to_vec(header);
    let mut k: usize = 0;
    while k < vlq.len()
        invariant
            result@ == header@ + vlq@.take(k as int),
            k <= vlq@.len(),
        decreases vlq@.len() - k,
    {
        result.push(vlq[k]);
        k += 1;
        assert(result@ =~= header@ + vlq@.take(k as int));
    }
    assert(vlq@.take(k as int) =~= vlq@);
    let mut k: usize = 0;
    while k < encoded.len()
        invariant
            result@ == header@ + vlq@ + encoded@.take(k as int),
            k <= encoded@.len(),
        decreases encoded@.len() - k,
    {
        result.push(encoded[k]);
        k += 1;
        assert(result@ =~= header@ + vlq@ + encoded@.take(k as int));
    }
    assert(encoded@.take(k as int) =~= encoded@);
    let ghost before = result@;
    result.push(TRAILER);
    proof {
        assert(result@ =~= before + seq![TRAILER]);
        lemma_base64_text_bytes(encrypted@);
        base64_decode_of_encoding(encrypted@);
        lemma_save_round_trip(json@, original@, header@, vlq@, encoded@, encrypted@, result@);
    }
    Some(result)
}

/// Every byte of padded base64 text belongs to the alphabet or is `=`.
proof fn lemma_base64_text_bytes(s: Seq<u8>)
    ensures
        forall|i: int| 0 <= i < base64_encoding(s).len() ==> is_base64_text_byte(
            #[trigger] base64_encoding(s)[i],
        ),
        s.len() > 0 ==> base64_encoding(s).len() > 0,
        base64_encoding(s).len() == 4 * ((s.len() + 2) / 3),
    decreases s.len(),
{
    assert forall|v: int| 0 <= v < 64 implies is_base64_text_byte(#[trigger] base64_symbol(v)) by {}
    if s.len() >= 3 {
        lemma_base64_text_bytes(s.skip(3));
        let a = s[0] as int;
        let b = s[1] as int;
        let c = s[2] as int;
        assert(0 <= a / 4 < 64);
        assert(0 <= (a % 4) * 16 + b / 16 < 64);
        assert(0 <= (b % 16) * 4 + c / 64 < 64);
        assert(0 <= c % 64 < 64);
    } else if s.len() > 0 {
        let a = s[0] as int;
        assert(0 <= a / 4 < 64);
        assert(0 <= (a % 4) * 16 < 64);
        if s.len() == 2 {
            let b = s[1] as int;
            assert(0 <= (a % 4) * 16 + b / 16 < 64);
            assert(0 <= (b % 16) * 4 < 64);
        }
    }
}

proof fn lemma_save_round_trip(
    json: Seq<char>,
    original: Seq<u8>,
    header: Seq<u8>,
    vlq: Seq<u8>,
    text: Seq<u8>,
    ct: Seq<u8>,
    data: Seq<u8>,
)
    requires
        original.len() >= HEADER_LEN,
        header == original.take(HEADER_LEN as int),
        ct == aes256_ecb_pkcs7_encrypt(save_key(), encode_utf8(json)),
        aes256_ecb_pkcs7_decrypt(save_key(), ct) == Some(encode_utf8(json)),
        ct.len() == pkcs7_padded_len(encode_utf8(json).len() as int),
        text == base64_encoding(ct),
        base64_standard_decode(text) == Some(ct),
        text.len() <= isize::MAX,
        vlq == vlq_encoding(text.len()),
        data == header + vlq + text + seq![TRAILER],
    ensures
        encrypted_save(json, original) == Some(data),
        save_framing_fits(data),
        decrypted_save(data) == Some(json),
{
    let body = data.skip(HEADER_LEN as int);
    let rest = text + seq![TRAILER];
    assert(body =~= vlq + rest);
    assert(data =~= original.take(HEADER_LEN as int) + vlq_encoding(text.len()) + text + seq![TRAILER]);
    vlq_round_trip(text.len() as usize, rest);
    let start = vlq_len(body) as int;
    let end = start + (vlq_value(body) % pow2(usize::BITS as nat)) as int;
    assert(start == vlq.len());
    assert(end == vlq.len() + text.len());
    assert(body.subrange(start, end) =~= text);
    lemma_base64_text_bytes(ct);
    assert(text.len() > 0);
    assert(is_base64_text_byte(text.last()));
    assert(save_text(data) == Some(text));
    encode_utf8_valid_utf8(json);
    encode_utf8_decode_utf8(json);
}

/// Whether reading the framing of `data` stays within machine arithmetic
/// (`save_framing_fits`); `decrypt_save` may be called exactly where this holds.
pub fn framing_fits(data: &[u8]) -> (fits: bool)
    ensures
        fits == save_framing_fits(data@),
{
    if data.len() < HEADER_LEN {
        return true;
    }
    let body = slice_subrange(data, HEADER_LEN, data.len());
    assert(body@ =~= data@.skip(HEADER_LEN as int));
    // Count the bytes of the length header before reading it.
    let mut n: usize = 0;
    proof {
        assert(body@.skip(0) =~= body@);
    }
    while n < body.len() && body[n] >= 0x80
        invariant
            n <= body@.len(),
            vlq_len(body@) == n + vlq_len(body@.skip(n as int)),
        decreases body@.len() - n,
    {
        proof {
            let rest = body@.skip(n as int);
            assert(rest[0] == body@[n as int]);
            assert(rest.drop_first() =~= body@.skip(n + 1));
        }
        n += 1;
    }
    let header_len = if n < body.len() {
        proof {
            let rest = body@.skip(n as int);
            assert(rest[0] == body@[n as int]);
        }
        n + 1
    } else {
        proof {
            assert(body@.skip(n as int) =~= Seq::<u8>::empty());
        }
        n
    };
    assert(header_len == vlq_len(body@));
    // 7 * (header_len - 1) < usize::BITS, checked without overflow.
    if header_len > 0 && (header_len - 1) > ((usize::BITS - 1) / 7) as usize {
        return false;
    }
    let (len, offset) = read_vlq(body);
    offset.checked_add(len).is_some()
}

// ---------------------------------------------------------------------------
// Save slots
// ---------------------------------------------------------------------------

/// Whether the UTF-8 file name `name` names a save slot: it starts with `user`
/// and ends with `.dat`.
pub open spec fn is_save_slot_name(name: Seq<u8>) -> bool {
    &&& name.len() >= 4
    &&& name.take(4) == seq![0x75u8, 0x73u8, 0x65u8, 0x72u8]
    &&& name.skip(name.len() - 4) == seq![0x2eu8, 0x64u8, 0x61u8, 0x74u8]
}

/// Whether the file name `name` is that of a save slot (`user*.dat`).
pub fn is_save_slot(name: &str) -> (slot: bool)
    ensures
        slot == is_save_slot_name(encode_utf8(name@)),
{
    let b = name.as_bytes();
    let n = b.len();
    if n < 4 {
        return false;
    }
    let starts = b[0] == 0x75 && b[1] == 0x73 && b[2] == 0x65 && b[3] == 0x72;
    let ends = b[n - 4] == 0x2e && b[n - 3] == 0x64 && b[n - 2] == 0x61 && b[n - 1] == 0x74;
    proof {
        let prefix = b@.take(4);
        let suffix = b@.skip(n - 4);
        if starts {
            assert(prefix =~= seq![0x75u8, 0x73u8, 0x65u8, 0x72u8]);
        } else {
            if prefix == seq![0x75u8, 0x73u8, 0x65u8, 0x72u8] {
                assert(prefix[0] == b@[0] && prefix[1] == b@[1] && prefix[2] == b@[2] && prefix[3] == b@[3]);
            }
        }
        if ends {
            assert(suffix =~= seq![0x2eu8, 0x64u8, 0x61u8, 0x74u8]);
        } else {
            if suffix == seq![0x2eu8, 0x64u8, 0x61u8, 0x74u8] {
                assert(suffix[0] == b@[n - 4] && suffix[1] == b@[n - 3] && suffix[2] == b@[n - 2]
                    && suffix[3] == b@[n - 1]);
            }
        }
    }
    starts && ends
}

} // verus!
