//! The byte codecs that the save format is built from: the standard base64
//! alphabet, AES-256 in ECB mode with PKCS#7 padding, and UTF-8 text.
//!
//! Each function here hands its work to an outside implementation (`base64`,
//! `aes` with `cipher`'s padding support, and std's UTF-8 decoder); what their
//! contracts claim is trusted, not proved.
use vstd::prelude::*;
use vstd::utf8::*;

use aes::cipher::block_padding::Pkcs7;
use aes::cipher::generic_array::GenericArray;
use aes::cipher::{BlockDecryptMut, BlockEncryptMut, KeyInit};
use aes::Aes256;
use base64::Engine;

verus! {

/// The byte of the standard base64 alphabet for a six-bit value.
pub open spec fn base64_symbol(v: int) -> u8 {
    if v < 26 {
        (0x41 + v) as u8
    } else if v < 52 {
        (0x61 + (v - 26)) as u8
    } else if v < 62 {
        (0x30 + (v - 52)) as u8
    } else if v == 62 {
        0x2b
    } else {
        0x2f
    }
}

/// Whether `b` can appear in padded standard base64 text: a symbol of the alphabet or `=`.
pub open spec fn is_base64_text_byte(b: u8) -> bool {
    (0x41 <= b <= 0x5a) || (0x61 <= b <= 0x7a) || (0x30 <= b <= 0x39) || b == 0x2b || b == 0x2f
        || b == 0x3d
}

/// Standard base64 (RFC 4648, alphabet `A-Za-z0-9+/`, `=` padding) of `s`.
pub open spec fn base64_encoding(s: Seq<u8>) -> Seq<u8>
    decreases s.len(),
{
    if s.len() == 0 {
        seq![]
    } else {
        let a = s[0] as int;
        if s.len() == 1 {
            seq![base64_symbol(a / 4), base64_symbol((a % 4) * 16), 0x3du8, 0x3du8]
        } else {
            let b = s[1] as int;
            if s.len() == 2 {
                seq![
                    base64_symbol(a / 4),
                    base64_symbol((a % 4) * 16 + b / 16),
                    base64_symbol((b % 16) * 4),
                    0x3du8,
                ]
            } else {
                let c = s[2] as int;
                seq![
                    base64_symbol(a / 4),
                    base64_symbol((a % 4) * 16 + b / 16),
                    base64_symbol((b % 16) * 4 + c / 64),
                    base64_symbol(c % 64),
                ] + base64_encoding(s.skip(3))
            }
        }
    }
}

/// What `base64`'s `STANDARD` engine decodes `text` to: the bytes whose padded
/// standard base64 text it is, and `None` where it is no such text (the engine
/// requires canonical padding and zero trailing bits, so it accepts exactly the
/// texts that its encoder writes).
pub open spec fn base64_standard_decode(text: Seq<u8>) -> Option<Seq<u8>> {
    if exists|s: Seq<u8>| base64_encoding(s) == text {
        Some(choose|s: Seq<u8>| base64_encoding(s) == text)
    } else {
        None
    }
}

proof fn lemma_symbol(v: int, w: int)
    requires
        0 <= v < 64,
        0 <= w < 64,
    ensures
        base64_symbol(v) != 0x3d,
        base64_symbol(v) == base64_symbol(w) ==> v == w,
{
}

/// Length of the encoding, and where its padding stands.
proof fn lemma_encoding_shape(s: Seq<u8>)
    ensures
        base64_encoding(s).len() == 4 * ((s.len() + 2) / 3),
        s.len() >= 1 ==> (base64_encoding(s)[2] == 0x3d) == (s.len() == 1),
        s.len() >= 1 ==> (base64_encoding(s)[3] == 0x3d) == (s.len() <= 2),
    decreases s.len(),
{
    if s.len() >= 1 {
        let a = s[0] as int;
        lemma_symbol(a / 4, 0);
        lemma_symbol((a % 4) * 16, 0);
        if s.len() >= 2 {
            let b = s[1] as int;
            lemma_symbol((a % 4) * 16 + b / 16, 0);
            lemma_symbol((b % 16) * 4, 0);
            if s.len() >= 3 {
                let c = s[2] as int;
                lemma_symbol((b % 16) * 4 + c / 64, 0);
                lemma_symbol(c % 64, 0);
                lemma_encoding_shape(s.skip(3));
            }
        }
    }
}

/// Distinct byte strings have distinct base64 texts, so decoding is unique.
pub proof fn base64_encoding_injective(s1: Seq<u8>, s2: Seq<u8>)
    requires
        base64_encoding(s1) == base64_encoding(s2),
    ensures
        s1 == s2,
    decreases s1.len(),
{
    let e = base64_encoding(s1);
    lemma_encoding_shape(s1);
    lemma_encoding_shape(s2);
    if s1.len() == 0 || s2.len() == 0 {
        assert(s1.len() == 0 && s2.len() == 0);
        assert(s1 =~= s2);
        return;
    }
    assert(s1.len() == 1 <==> s2.len() == 1);
    assert(s1.len() <= 2 <==> s2.len() <= 2);
    let a1 = s1[0] as int;
    let a2 = s2[0] as int;
    lemma_symbol(a1 / 4, a2 / 4);
    assert(e[0] == base64_symbol(a1 / 4));
    assert(a1 / 4 == a2 / 4);
    if s1.len() == 1 {
        lemma_symbol((a1 % 4) * 16, (a2 % 4) * 16);
        assert(e[1] == base64_symbol((a1 % 4) * 16));
        assert(a1 == a2);
        assert(s1 =~= s2);
        return;
    }
    let b1 = s1[1] as int;
    let b2 = s2[1] as int;
    lemma_symbol((a1 % 4) * 16 + b1 / 16, (a2 % 4) * 16 + b2 / 16);
    assert(e[1] == base64_symbol((a1 % 4) * 16 + b1 / 16));
    assert(a1 == a2 && b1 / 16 == b2 / 16);
    if s1.len() == 2 {
        lemma_symbol((b1 % 16) * 4, (b2 % 16) * 4);
        assert(e[2] == base64_symbol((b1 % 16) * 4));
        assert(b1 == b2);
        assert(s1 =~= s2);
        return;
    }
    let c1 = s1[2] as int;
    let c2 = s2[2] as int;
    lemma_symbol((b1 % 16) * 4 + c1 / 64, (b2 % 16) * 4 + c2 / 64);
    lemma_symbol(c1 % 64, c2 % 64);
    assert(e[2] == base64_symbol((b1 % 16) * 4 + c1 / 64));
    assert(e[3] == base64_symbol(c1 % 64));
    assert(b1 == b2 && c1 == c2);
    let r1 = base64_encoding(s1.skip(3));
    let r2 = base64_encoding(s2.skip(3));
    assert(r1 =~= e.skip(4));
    assert(r2 =~= base64_encoding(s2).skip(4));
    base64_encoding_injective(s1.skip(3), s2.skip(3));
    assert(s1 =~= s2) by {
        assert forall|i: int| 0 <= i < s1.len() implies s1[i] == s2[i] by {
            if i >= 3 {
                assert(s1.skip(3)[i - 3] == s2.skip(3)[i - 3]);
            }
        }
    }
}

/// Decoding the base64 text of `s` gives `s` back.
pub proof fn base64_decode_of_encoding(s: Seq<u8>)
    ensures
        base64_standard_decode(base64_encoding(s)) == Some(s),
{
    let t = base64_encoding(s);
    assert(exists|x: Seq<u8>| base64_encoding(x) == t);
    let x = choose|x: Seq<u8>| base64_encoding(x) == t;
    base64_encoding_injective(x, s);
}

/// `base64::engine::general_purpose::STANDARD.encode(input)`, as the bytes of the
/// resulting string.
///
/// Trusted: the result is the padded standard base64 text of `input`. The
/// engine panics when the length of the output does not fit in `usize`, and
/// allocating the output panics beyond `isize::MAX` bytes; `requires` leaves
/// both out.
#[verifier::external_body]
pub fn base64_encode(input: &[u8]) -> (text: Vec<u8>)
    requires
        4 * ((input@.len() + 2) / 3) <= isize::MAX,
    ensures
        text@ == base64_encoding(input@),
{
    base64::engine::general_purpose::STANDARD.encode(input).into_bytes()
}

/// `base64::engine::general_purpose::STANDARD.decode(text)`, with a decode error as `None`.
///
/// Trusted: the engine accepts exactly the padded standard base64 texts (with
/// canonical padding and zero trailing bits), and gives back the bytes they encode.
#[verifier::external_body]
pub fn base64_decode(text: &[u8]) -> (bytes: Option<Vec<u8>>)
    ensures
        bytes matches Some(b) ==> base64_encoding(b@) == text@,
        bytes is None ==> forall|s: Seq<u8>| base64_encoding(s) != text@,
{
    base64::engine::general_purpose::STANDARD.decode(text).ok()
}

/// AES-256 encryption in ECB mode of `msg` padded with PKCS#7 under `key`.
pub uninterp spec fn aes256_ecb_pkcs7_encrypt(key: Seq<u8>, msg: Seq<u8>) -> Seq<u8>;

/// What AES-256 decryption in ECB mode followed by strict PKCS#7 unpadding gives
/// for `ct` under `key` (`None` where the length or the padding is rejected).
pub uninterp spec fn aes256_ecb_pkcs7_decrypt(key: Seq<u8>, ct: Seq<u8>) -> Option<Seq<u8>>;

/// Length of PKCS#7-padded text for a message of `n` bytes: the next multiple of
/// the 16-byte block above `n`.
pub open spec fn pkcs7_padded_len(n: int) -> int {
    (n / 16 + 1) * 16
}

/// `Aes256::new(key).encrypt_padded_mut::<Pkcs7>(&mut buf, msg_len)`, with the
/// ciphertext copied out and a padding error as `None`.
///
/// Trusted: it succeeds exactly when `buf` has room for the padded message
/// (`msg_len` bytes rounded up past the next 16-byte boundary); the ciphertext
/// is the encryption of the first `msg_len` bytes of `buf`, and decrypting it
/// with the same key gives those bytes back. `GenericArray::from_slice` panics
/// unless the key has 32 bytes, which `requires` rules out.
#[verifier::external_body]
pub fn aes256_encrypt_padded(key: &[u8], buf: Vec<u8>, msg_len: usize) -> (ct: Option<Vec<u8>>)
    requires
        key@.len() == 32,
    ensures
        (ct is Some) == (msg_len <= buf@.len() && pkcs7_padded_len(msg_len as int) <= buf@.len()),
        ct matches Some(c) ==> c@ == aes256_ecb_pkcs7_encrypt(key@, buf@.take(msg_len as int)),
        ct matches Some(c) ==> c@.len() == pkcs7_padded_len(msg_len as int),
        ct matches Some(c) ==> aes256_ecb_pkcs7_decrypt(key@, c@) == Some(buf@.take(msg_len as int)),
{
    let mut buf = buf;
    let cipher = Aes256::new(GenericArray::from_slice(key));
    cipher.encrypt_padded_mut::<Pkcs7>(&mut buf, msg_len).ok().map(|c| c.to_vec())
}

/// `Aes256::new(key).decrypt_padded_mut::<Pkcs7>(&mut buf)`, with the plaintext
/// copied out and an unpadding error as `None`.
///
/// Trusted: the result is the named decryption of `buf`; it fails unless `buf`
/// is a non-empty whole number of 16-byte blocks. `requires` rules out the
/// panic of `GenericArray::from_slice` on a key that is not 32 bytes long.
#[verifier::external_body]
pub fn aes256_decrypt_padded(key: &[u8], buf: Vec<u8>) -> (pt: Option<Vec<u8>>)
    requires
        key@.len() == 32,
    ensures
        pt matches Some(p) ==> aes256_ecb_pkcs7_decrypt(key@, buf@) == Some(p@),
        pt is None ==> aes256_ecb_pkcs7_decrypt(key@, buf@) is None,
        pt is Some ==> buf@.len() % 16 == 0 && buf@.len() > 0,
{
    let mut buf = buf;
    let cipher = Aes256::new(GenericArray::from_slice(key));
    cipher.decrypt_padded_mut::<Pkcs7>(&mut buf).ok().map(|p| p.to_vec())
}

/// `String::from_utf8(bytes).ok()`.
///
/// Trusted, as std documents it: the conversion succeeds exactly on valid UTF-8,
/// and then the string holds the decoded characters.
#[verifier::external_body]
pub fn string_from_utf8(bytes: Vec<u8>) -> (s: Option<String>)
    ensures
        (s is Some) == valid_utf8(bytes@),
        s matches Some(t) ==> t@ == decode_utf8(bytes@),
{
    String::from_utf8(bytes).ok()
}

/// What `String::from_utf8_lossy` makes of `bytes`: their UTF-8 text, with each
/// invalid sequence replaced by U+FFFD.
pub uninterp spec fn utf8_lossy(bytes: Seq<u8>) -> Seq<char>;

/// `String::from_utf8_lossy(bytes).into_owned()`.
///
/// Trusted: the result is the named lossy decoding, which std documents to be
/// the plain decoding where `bytes` is valid UTF-8.
#[verifier::external_body]
pub fn string_from_utf8_lossy(bytes: &[u8]) -> (s: String)
    ensures
        s@ == utf8_lossy(bytes@),
        valid_utf8(bytes@) ==> s@ == decode_utf8(bytes@),
{
    String::from_utf8_lossy(bytes).into_owned()
}

} // verus!
