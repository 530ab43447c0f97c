//! Byte and number encodings: hexadecimal, decimal, UTF-8 and SHA-256.

use vstd::prelude::*;
use crate::text::char_from_ascii;

verus! {

/// The lowercase hexadecimal digit for a value below 16.
pub open spec fn hex_digit(v: int) -> char {
    if v < 10 {
        ((v + 0x30) as u32) as char
    } else {
        ((v - 10 + 0x61) as u32) as char
    }
}

/// Lowercase hexadecimal encoding, two digits per byte (high nibble first).
pub open spec fn hex_encode_spec(b: Seq<u8>) -> Seq<char> {
    Seq::new(
        2 * b.len(),
        |i: int|
            if i % 2 == 0 {
                hex_digit(b[i / 2] as int / 16)
            } else {
                hex_digit(b[i / 2] as int % 16)
            },
    )
}

pub open spec fn is_hex_char(c: char) -> bool {
    ('0' <= c && c <= '9') || ('a' <= c && c <= 'f') || ('A' <= c && c <= 'F')
}

pub open spec fn hex_val(c: char) -> int {
    if '0' <= c && c <= '9' {
        c as int - 0x30
    } else if 'a' <= c && c <= 'f' {
        c as int - 0x61 + 10
    } else {
        c as int - 0x41 + 10
    }
}

/// Whether `s` is accepted by `hex::decode`: an even number of hex digits
/// (either case).
pub open spec fn hex_valid(s: Seq<char>) -> bool {
    s.len() % 2 == 0 && forall|i: int| 0 <= i < s.len() ==> is_hex_char(#[trigger] s[i])
}

/// What `hex::decode` gives for a valid input.
pub open spec fn hex_decode_spec(s: Seq<char>) -> Seq<u8> {
    Seq::new(s.len() / 2, |i: int| (hex_val(s[2 * i]) * 16 + hex_val(s[2 * i + 1])) as u8)
}

/// Lowercase hex of `data` (`hex::encode`).
///
/// Trusted: `hex::encode` writes each byte as two lowercase digits from
/// `0123456789abcdef`, high nibble first.
#[verifier::external_body]
pub(crate) fn hex_encode(data: &[u8]) -> (s: String)
    ensures
        s@ == hex_encode_spec(data@),
{
    hex::encode(data)
}

/// Decodes hex (`hex::decode`); the error is the crate's message.
///
/// Trusted: `hex::decode` reads the UTF-8 bytes of the text; it fails on an odd
/// length and on any byte outside `0-9a-fA-F`, and otherwise turns each pair of
/// digits into one byte. A non-ASCII character gives bytes outside that range,
/// so the decision can be stated over characters. The error text is not stated.
#[verifier::external_body]
pub(crate) fn hex_decode(s: &str) -> (r: Result<Vec<u8>, String>)
    ensures
        r is Ok <==> hex_valid(s@),
        r matches Ok(b) ==> b@ == hex_decode_spec(s@),
{
    hex::decode(s).map_err(|e| e.to_string())
}

/// SHA-256 of a byte string.
pub uninterp spec fn sha256(data: Seq<u8>) -> Seq<u8>;

/// SHA-256 digest (`sha2::Sha256::digest`).
///
/// Trusted: the digest is the SHA-256 function of the input bytes, and it is
/// 32 bytes long.
#[verifier::external_body]
pub(crate) fn sha256_digest(data: &[u8]) -> (d: Vec<u8>)
    ensures
        d@ == sha256(data@),
        d@.len() == 32,
{
    <sha2::Sha256 as sha2::Digest>::digest(data).to_vec()
}

/// The UTF-8 bytes of `s`.
pub fn utf8_bytes(s: &str) -> (b: Vec<u8>)
    ensures
        b@ == utf8_of(s@),
{
    let bytes = s.as_bytes();
    vstd::slice::slice_to_vec(bytes)
}

/// The UTF-8 bytes of a character sequence.
pub open spec fn utf8_of(s: Seq<char>) -> Seq<u8> {
    vstd::utf8::encode_utf8(s)
}

/// The digit for a value below 10.
pub open spec fn dec_digit(v: int) -> char {
    ((v + 0x30) as u32) as char
}

/// Decimal digits of a natural number, without leading zeros.
pub open spec fn dec_nat(n: nat) -> Seq<char>
    decreases n,
{
    if n < 10 {
        seq![dec_digit(n as int)]
    } else {
        dec_nat(n / 10).push(dec_digit((n % 10) as int))
    }
}

/// Decimal text of an integer (`Display` for integers).
pub open spec fn dec_int(n: int) -> Seq<char> {
    if n < 0 {
        seq!['-'] + dec_nat((-n) as nat)
    } else {
        dec_nat(n as nat)
    }
}

/// Decimal text of `n` (`n.to_string()`).
pub fn u64_to_dec(n: u64) -> (r: Vec<char>)
    ensures
        r@ == dec_nat(n as nat),
    decreases n,
{
    if n < 10 {
        let c = char_from_ascii((n + 0x30) as u32);
        let mut r: Vec<char> = Vec::new();
        r.push(c);
        assert(r@ =~= seq![dec_digit(n as int)]);
        r
    } else {
        let mut r = u64_to_dec(n / 10);
        let c = char_from_ascii((n % 10 + 0x30) as u32);
        r.push(c);
        r
    }
}

/// Decimal text of `n` (`n.to_string()`).
pub fn i64_to_dec(n: i64) -> (r: Vec<char>)
    ensures
        r@ == dec_int(n as int),
{
    if n < 0 {
        let m: u64 = if n == i64::MIN {
            9223372036854775808u64
        } else {
            (-n) as u64
        };
        let d = u64_to_dec(m);
        let mut r: Vec<char> = Vec::new();
        r.push('-');
        crate::text::push_chars(&mut r, &d);
        assert(r@ =~= seq!['-'] + dec_nat(m as nat));
        r
    } else {
        u64_to_dec(n as u64)
    }
}

} // verus!
