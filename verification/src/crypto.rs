//! Hashing, message authentication, Base64 and randomness, as the federation
//! protocol uses them. The primitives come from `sha2`, `hmac`, `base64` and
//! `rand`; what this module adds on top (hex encoding, tokens) is verified.
use crate::text::push_char;
use base64::engine::general_purpose::{STANDARD, URL_SAFE_NO_PAD};
use base64::Engine;
use hmac::{Hmac, Mac};
use rand::rngs::OsRng;
use rand::RngCore;
use sha2::{Digest, Sha256};
use vstd::prelude::*;

verus! {

/// The SHA-256 digest of `data`.
pub uninterp spec fn sha256_of(data: Seq<u8>) -> Seq<u8>;

/// The HMAC-SHA256 tag of `message` under `key`.
pub uninterp spec fn hmac_sha256_of(key: Seq<u8>, message: Seq<u8>) -> Seq<u8>;

/// The character for a six-bit value in the Base64 alphabet: capital
/// letters, small letters, digits, then `+` and `/` in the standard alphabet
/// or `-` and `_` in the URL-safe one.
pub open spec fn base64_digit(value: nat, url_safe: bool) -> char {
    if value < 26 {
        ((value + 65) as u32) as char
    } else if value < 52 {
        ((value + 71) as u32) as char
    } else if value < 62 {
        ((value - 4) as u32) as char
    } else if value == 62 {
        if url_safe {
            '-'
        } else {
            '+'
        }
    } else {
        if url_safe {
            '_'
        } else {
            '/'
        }
    }
}

/// `data` in Base64: each group of three bytes as four characters of six bits
/// each, high bits first; a last group of one or two bytes as two or three
/// characters, the missing bits zero, followed where `padded` by `=` up to
/// four characters.
pub open spec fn base64_of(data: Seq<u8>, url_safe: bool, padded: bool) -> Seq<char>
    decreases data.len(),
{
    if data.len() == 0 {
        Seq::empty()
    } else if data.len() == 1 {
        let a = data[0] as nat;
        let tail: Seq<char> = if padded {
            seq!['=', '=']
        } else {
            Seq::empty()
        };
        seq![base64_digit(a / 4, url_safe), base64_digit((a % 4) * 16, url_safe)] + tail
    } else if data.len() == 2 {
        let a = data[0] as nat;
        let b = data[1] as nat;
        let tail: Seq<char> = if padded {
            seq!['=']
        } else {
            Seq::empty()
        };
        seq![
            base64_digit(a / 4, url_safe),
            base64_digit((a % 4) * 16 + b / 16, url_safe),
            base64_digit((b % 16) * 4, url_safe),
        ] + tail
    } else {
        let a = data[0] as nat;
        let b = data[1] as nat;
        let c = data[2] as nat;
        seq![
            base64_digit(a / 4, url_safe),
            base64_digit((a % 4) * 16 + b / 16, url_safe),
            base64_digit((b % 16) * 4 + c / 64, url_safe),
            base64_digit(c % 64, url_safe),
        ] + base64_of(data.subrange(3, data.len() as int), url_safe, padded)
    }
}

/// `data` in standard Base64, with padding.
pub open spec fn base64_standard_of(data: Seq<u8>) -> Seq<char> {
    base64_of(data, false, true)
}

/// The bytes that standard Base64 text stands for, if it is valid: the
/// decoder requires canonical padding and no stray bits in the last
/// character, so the valid texts are exactly the encodings, each of one
/// sequence of bytes (`lemma_base64_standard_injective`).
pub open spec fn base64_standard_decoded(text: Seq<char>) -> Option<Seq<u8>> {
    if exists|data: Seq<u8>| base64_standard_of(data) == text {
        Some(choose|data: Seq<u8>| base64_standard_of(data) == text)
    } else {
        None
    }
}

proof fn lemma_base64_digit(x: nat, y: nat)
    requires
        x < 64,
        y < 64,
    ensures
        base64_digit(x, false) != '=',
        base64_digit(x, false) == base64_digit(y, false) ==> x == y,
{
}

proof fn lemma_base64_group(x0: nat, x1: nat, x2: nat, y0: nat, y1: nat, y2: nat)
    requires
        x0 < 256,
        x1 < 256,
        x2 < 256,
        y0 < 256,
        y1 < 256,
        y2 < 256,
        x0 / 4 == y0 / 4,
        (x0 % 4) * 16 + x1 / 16 == (y0 % 4) * 16 + y1 / 16,
        (x1 % 16) * 4 + x2 / 64 == (y1 % 16) * 4 + y2 / 64,
        x2 % 64 == y2 % 64,
    ensures
        x0 == y0,
        x1 == y1,
        x2 == y2,
{
}

/// Standard Base64 with padding tells every two sequences of bytes apart.
pub proof fn lemma_base64_standard_injective(a: Seq<u8>, b: Seq<u8>)
    requires
        base64_standard_of(a) == base64_standard_of(b),
    ensures
        a == b,
    decreases a.len(),
{
    let ea = base64_standard_of(a);
    let eb = base64_standard_of(b);
    if a.len() == 0 || b.len() == 0 {
        assert(ea.len() == 0 <==> a.len() == 0);
        assert(eb.len() == 0 <==> b.len() == 0);
        assert(a =~= b);
    } else {
        let a0 = a[0] as nat;
        let b0 = b[0] as nat;
        let a1 = if a.len() > 1 { a[1] as nat } else { 0 };
        let b1 = if b.len() > 1 { b[1] as nat } else { 0 };
        let a2 = if a.len() > 2 { a[2] as nat } else { 0 };
        let b2 = if b.len() > 2 { b[2] as nat } else { 0 };
        lemma_base64_digit(a0 / 4, b0 / 4);
        lemma_base64_digit((a0 % 4) * 16 + a1 / 16, (b0 % 4) * 16 + b1 / 16);
        lemma_base64_digit((a1 % 16) * 4 + a2 / 64, (b1 % 16) * 4 + b2 / 64);
        lemma_base64_digit(a2 % 64, b2 % 64);
        assert(ea.len() >= 4 && eb.len() >= 4);
        assert(ea[0] == eb[0] && ea[1] == eb[1] && ea[2] == eb[2] && ea[3] == eb[3]);
        assert((ea[2] == '=') <==> a.len() == 1);
        assert((eb[2] == '=') <==> b.len() == 1);
        assert((ea[3] == '=') <==> a.len() <= 2);
        assert((eb[3] == '=') <==> b.len() <= 2);
        if a.len() == 1 {
            assert(a0 % 4 == b0 % 4);
            assert(a =~= b);
        } else if a.len() == 2 {
            lemma_base64_group(a0, a1, 0, b0, b1, 0);
            assert(a =~= b);
        } else {
            lemma_base64_group(a0, a1, a2, b0, b1, b2);
            let ta = a.subrange(3, a.len() as int);
            let tb = b.subrange(3, b.len() as int);
            assert(ea.subrange(4, ea.len() as int) =~= base64_standard_of(ta));
            assert(eb.subrange(4, eb.len() as int) =~= base64_standard_of(tb));
            lemma_base64_standard_injective(ta, tb);
            assert(a.len() == b.len());
            assert forall|i: int| 0 <= i < a.len() implies a[i] == b[i] by {
                if i >= 3 {
                    assert(ta[i - 3] == tb[i - 3]);
                }
            }
            assert(a =~= b);
        }
    }
}

/// Decoding the standard Base64 of some bytes gives them back.
pub proof fn lemma_base64_standard_round_trip(data: Seq<u8>)
    ensures
        base64_standard_decoded(base64_standard_of(data)) == Some(data),
{
    let text = base64_standard_of(data);
    assert(exists|d: Seq<u8>| base64_standard_of(d) == text);
    let chosen = choose|d: Seq<u8>| base64_standard_of(d) == text;
    lemma_base64_standard_injective(chosen, data);
}

/// `data` in URL-safe Base64, without padding.
pub open spec fn base64_url_safe_of(data: Seq<u8>) -> Seq<char> {
    base64_of(data, true, false)
}

/// `sha2::Sha256::digest`: the contract says the digest is the named SHA-256 of
/// the input and, as the algorithm fixes, 32 bytes long.
#[verifier::external_body]
fn sha256_digest(data: &[u8]) -> (digest: Vec<u8>)
    ensures
        digest@ == sha256_of(data@),
        digest@.len() == 32,
{
    Sha256::digest(data).to_vec()
}

/// `hmac::Hmac::<Sha256>` keyed with `key` (`new_from_slice`, which accepts keys
/// of any length and so never fails), fed `message` (`update`) and finalized
/// (`finalize`): the contract says the tag is the named HMAC-SHA256 of key and
/// message.
#[verifier::external_body]
fn hmac_sha256(key: &[u8], message: &[u8]) -> (tag: Vec<u8>)
    ensures
        tag@ == hmac_sha256_of(key@, message@),
{
    let mut mac = Hmac::<Sha256>::new_from_slice(key).expect("HMAC accepts keys of any size");
    mac.update(message);
    mac.finalize().into_bytes().to_vec()
}

/// `base64::engine::general_purpose::STANDARD.encode`: the contract says the
/// text is the standard Base64 of the input, with padding (the `PAD` config).
#[verifier::external_body]
fn encode_base64_standard(data: &[u8]) -> (text: String)
    ensures
        text@ == base64_standard_of(data@),
{
    STANDARD.encode(data)
}

/// `base64::engine::general_purpose::STANDARD.decode`: the contract says the
/// result is the decoding of the text, `None` where the crate reports an
/// error, which it does for every text that is not the canonical encoding of
/// some bytes (the `PAD` config requires canonical padding and refuses stray
/// trailing bits).
#[verifier::external_body]
fn decode_base64_standard(text: &str) -> (data: Option<Vec<u8>>)
    ensures
        data matches Some(d) ==> base64_standard_decoded(text@) == Some(d@),
        data is None ==> base64_standard_decoded(text@) is None,
{
    match STANDARD.decode(text) {
        Ok(bytes) => Some(bytes),
        Err(_) => None,
    }
}

/// `base64::engine::general_purpose::URL_SAFE_NO_PAD.encode`: the contract says
/// the text is the URL-safe Base64 of the input, without padding.
#[verifier::external_body]
fn encode_base64_url_safe(data: &[u8]) -> (text: String)
    ensures
        text@ == base64_url_safe_of(data@),
{
    URL_SAFE_NO_PAD.encode(data)
}

/// `rand::rngs::OsRng.try_fill_bytes` on a buffer of `len` bytes. The bytes
/// come from the operating system, so the contract says only how many there
/// are; `None` stands for the operating system failing to supply them.
#[verifier::external_body]
fn random_bytes(len: usize) -> (bytes: Option<Vec<u8>>)
    ensures
        bytes matches Some(b) ==> b@.len() == len,
{
    let mut bytes = vec![0u8; len];
    match OsRng.try_fill_bytes(&mut bytes) {
        Ok(()) => Some(bytes),
        Err(_) => None,
    }
}

pub open spec fn hex_char(d: nat) -> char {
    if d < 10 {
        ((d + 48) as u32) as char
    } else {
        ((d + 87) as u32) as char
    }
}

/// Each byte as two lowercase hex digits, as `format!("{byte:02x}")` writes it.
pub open spec fn hex_lower(bytes: Seq<u8>) -> Seq<char>
    decreases bytes.len(),
{
    if bytes.len() == 0 {
        Seq::empty()
    } else {
        hex_lower(bytes.drop_last()) + seq![
            hex_char((bytes.last() / 16) as nat),
            hex_char((bytes.last() % 16) as nat),
        ]
    }
}

fn hex_digit(d: u8) -> (c: char)
    requires
        d < 16,
    ensures
        c == hex_char(d as nat),
{
    match d {
        0 => '0',
        1 => '1',
        2 => '2',
        3 => '3',
        4 => '4',
        5 => '5',
        6 => '6',
        7 => '7',
        8 => '8',
        9 => '9',
        10 => 'a',
        11 => 'b',
        12 => 'c',
        13 => 'd',
        14 => 'e',
        _ => 'f',
    }
}

/// Lowercase hex of the bytes, two digits per byte.
pub fn to_hex_lower(bytes: &[u8]) -> (text: String)
    ensures
        text@ == hex_lower(bytes@),
{
    let mut text = String::new();
    let n = bytes.len();
    assert(bytes@.subrange(0, 0) =~= Seq::<u8>::empty());
    for i in 0..n
        invariant
            n == bytes@.len(),
            text@ == hex_lower(bytes@.subrange(0, i as int)),
    {
        let b = bytes[i];
        push_char(&mut text, hex_digit(b / 16));
        push_char(&mut text, hex_digit(b % 16));
        assert(bytes@.subrange(0, i + 1).drop_last() =~= bytes@.subrange(0, i as int));
        assert(text@ =~= hex_lower(bytes@.subrange(0, i + 1)));
    }
    assert(bytes@.subrange(0, n as int) =~= bytes@);
    text
}

/// The SHA-256 digest of `bytes` as lowercase hex.
pub fn sha256_hex(bytes: &[u8]) -> (text: String)
    ensures
        text@ == hex_lower(sha256_of(bytes@)),
{
    let digest = sha256_digest(bytes);
    to_hex_lower(digest.as_slice())
}

/// A fresh secret of `byte_len` random bytes, as URL-safe Base64 without
/// padding; `None` when the operating system cannot supply random bytes.
pub fn generate_token(byte_len: usize) -> (token: Option<String>)
    ensures
        token matches Some(t) ==> exists|bytes: Seq<u8>|
            bytes.len() == byte_len && t@ == base64_url_safe_of(bytes),
{
    match random_bytes(byte_len) {
        Some(bytes) => Some(encode_base64_url_safe(bytes.as_slice())),
        None => None,
    }
}

/// The standard Base64 of the HMAC-SHA256 tag of `message` under `key`, both
/// taken as their UTF-8 bytes.
pub fn hmac_sha256_base64(key: &str, message: &str) -> (tag: String)
    ensures
        tag@ == base64_standard_of(hmac_sha256_of(vstd::utf8::encode_utf8(key@), vstd::utf8::encode_utf8(message@))),
        base64_standard_decoded(tag@) == Some(hmac_sha256_of(vstd::utf8::encode_utf8(key@), vstd::utf8::encode_utf8(message@))),
{
    let raw = hmac_sha256(key.as_bytes(), message.as_bytes());
    proof {
        lemma_base64_standard_round_trip(raw@);
    }
    encode_base64_standard(raw.as_slice())
}

/// The bytes standard Base64 text stands for, `None` where it is not valid.
pub fn decode_base64(text: &str) -> (data: Option<Vec<u8>>)
    ensures
        data matches Some(d) ==> base64_standard_decoded(text@) == Some(d@),
        data is None ==> base64_standard_decoded(text@) is None,
{
    decode_base64_standard(text)
}

} // verus!
