//! Identifier canonicalisation, hashing and masking for display.

use vstd::prelude::*;
use crate::encoding::{hex_encode_spec, sha256, utf8_of, utf8_bytes, sha256_digest, hex_encode};
use crate::text::{
    ascii_lower, chars_of, is_ws, lower_chars, push_chars, slice_chars, split_once, split_once_chars,
    string_of, to_ascii_lower, trim, trim_chars, trim_end, trim_start,
};

verus! {

/// The canonical form of an identifier: trimmed and ASCII-lowercased.
pub open spec fn canonical(s: Seq<char>) -> Seq<char> {
    to_ascii_lower(trim(s))
}

/// The published hash of an identifier: lowercase hex of the SHA-256 of the
/// UTF-8 bytes of its canonical form.
pub open spec fn identifier_hash_spec(s: Seq<char>) -> Seq<char> {
    hex_encode_spec(sha256(utf8_of(canonical(s))))
}

/// `mask_middle`: the first `head` and last `tail` characters around `...`,
/// or `***` when the value is too short to hide anything.
pub open spec fn mask_middle_spec(v: Seq<char>, head: nat, tail: nat) -> Seq<char> {
    if v.len() <= head + tail + 3 {
        seq!['*', '*', '*']
    } else {
        v.take(head as int) + seq!['.', '.', '.'] + v.skip(v.len() - tail)
    }
}

/// Display form of an identifier: `x***@domain` for `local@domain`
/// (`*` when the local part is empty), else the middle-masked trimmed text.
pub open spec fn mask_identifier_spec(s: Seq<char>) -> Seq<char> {
    let t = trim(s);
    match split_once(t, '@') {
        Some((local, domain)) => {
            let first = if local.len() > 0 { local[0] } else { '*' };
            seq![first, '*', '*', '*', '@'] + domain
        },
        None => mask_middle_spec(t, 3, 3),
    }
}

/// Canonical form of an identifier.
pub fn canonical_identifier(identifier: &str) -> (r: String)
    ensures
        r@ == canonical(identifier@),
{
    let v = canonical_chars(identifier);
    string_of(v.as_slice())
}

/// Canonical form of an identifier, as characters.
pub fn canonical_chars(identifier: &str) -> (r: Vec<char>)
    ensures
        r@ == canonical(identifier@),
{
    let v = chars_of(identifier);
    let t = trim_chars(&v);
    lower_chars(&t)
}

/// Hash of the canonical identifier. Hashed emails are not strong anonymity,
/// because emails are guessable.
pub fn identifier_hash(identifier: &str) -> (r: String)
    ensures
        r@ == identifier_hash_spec(identifier@),
        r@.len() == 64,
{
    let c = canonical_identifier(identifier);
    let bytes = utf8_bytes(c.as_str());
    let digest = sha256_digest(bytes.as_slice());
    hex_encode(digest.as_slice())
}

/// Masks an identifier for display.
pub fn mask_identifier(identifier: &str) -> (r: String)
    ensures
        r@ == mask_identifier_spec(identifier@),
{
    let v = chars_of(identifier);
    let t = trim_chars(&v);
    match split_once_chars(&t, '@') {
        Some((local, domain)) => {
            let first = if local.len() > 0 {
                local[0]
            } else {
                '*'
            };
            let mut out: Vec<char> = Vec::new();
            out.push(first);
            out.push('*');
            out.push('*');
            out.push('*');
            out.push('@');
            push_chars(&mut out, &domain);
            assert(out@ =~= seq![first, '*', '*', '*', '@'] + domain@);
            string_of(out.as_slice())
        },
        None => {
            let out = mask_middle_chars(&t, 3, 3);
            string_of(out.as_slice())
        },
    }
}

/// Masks a Bitcoin address for display.
pub fn mask_address(address: &str) -> (r: String)
    ensures
        r@ == mask_middle_spec(address@, 6, 3),
{
    mask_middle(address, 6, 3)
}

/// Masks a public key for display.
pub fn mask_pubkey(pubkey: &str) -> (r: String)
    ensures
        r@ == mask_middle_spec(pubkey@, 6, 4),
{
    mask_middle(pubkey, 6, 4)
}

/// Masks an invoice for display.
pub fn mask_invoice(invoice: &str) -> (r: String)
    ensures
        r@ == mask_middle_spec(invoice@, 8, 6),
{
    mask_middle(invoice, 8, 6)
}

fn mask_middle(value: &str, head: usize, tail: usize) -> (r: String)
    requires
        head + tail + 3 <= usize::MAX,
    ensures
        r@ == mask_middle_spec(value@, head as nat, tail as nat),
{
    let v = chars_of(value);
    let out = mask_middle_chars(&v, head, tail);
    string_of(out.as_slice())
}

fn mask_middle_chars(v: &Vec<char>, head: usize, tail: usize) -> (r: Vec<char>)
    requires
        head + tail + 3 <= usize::MAX,
    ensures
        r@ == mask_middle_spec(v@, head as nat, tail as nat),
{
    let mut out: Vec<char> = Vec::new();
    if v.len() <= head + tail + 3 {
        out.push('*');
        out.push('*');
        out.push('*');
        assert(out@ =~= seq!['*', '*', '*']);
        return out;
    }
    let start = slice_chars(v, 0, head);
    let end = slice_chars(v, v.len() - tail, v.len());
    push_chars(&mut out, &start);
    out.push('.');
    out.push('.');
    out.push('.');
    push_chars(&mut out, &end);
    assert(out@ =~= v@.take(head as int) + seq!['.', '.', '.'] + v@.skip(v@.len() - tail));
    out
}

/// Trimming leaves no whitespace at either end.
proof fn lemma_trim_ends(s: Seq<char>)
    ensures
        trim(s).len() > 0 ==> !is_ws(trim(s)[0]) && !is_ws(trim(s).last()),
        trim_start(s).len() == 0 || !is_ws(trim_start(s)[0]),
    decreases s.len(),
{
    lemma_trim_start_ends(s);
    lemma_trim_end_prefix(trim_start(s));
}

proof fn lemma_trim_start_ends(s: Seq<char>)
    ensures
        trim_start(s).len() == 0 || !is_ws(trim_start(s)[0]),
    decreases s.len(),
{
    if s.len() > 0 && is_ws(s[0]) {
        lemma_trim_start_ends(s.drop_first());
    }
}

proof fn lemma_trim_end_prefix(s: Seq<char>)
    ensures
        trim_end(s).len() <= s.len(),
        trim_end(s) == s.take(trim_end(s).len() as int),
        trim_end(s).len() == 0 || !is_ws(trim_end(s).last()),
    decreases s.len(),
{
    if s.len() > 0 && is_ws(s.last()) {
        lemma_trim_end_prefix(s.drop_last());
        assert(s.drop_last().take(trim_end(s).len() as int) =~= s.take(
            trim_end(s).len() as int,
        ));
    } else {
        assert(s.take(s.len() as int) =~= s);
    }
}

proof fn lemma_trim_start_id(s: Seq<char>)
    requires
        s.len() == 0 || !is_ws(s[0]),
    ensures
        trim_start(s) == s,
{
}

proof fn lemma_trim_end_id(s: Seq<char>)
    requires
        s.len() == 0 || !is_ws(s.last()),
    ensures
        trim_end(s) == s,
{
}

/// Canonicalisation is idempotent: a canonical identifier is its own
/// canonical form.
pub proof fn lemma_canonical_idempotent(s: Seq<char>)
    ensures
        canonical(canonical(s)) == canonical(s),
{
    let t = trim(s);
    lemma_trim_ends(s);
    let l = to_ascii_lower(t);
    if l.len() > 0 {
        assert(l[0] == ascii_lower(t[0]));
        assert(l.last() == ascii_lower(t.last()));
    }
    lemma_trim_start_id(l);
    lemma_trim_end_id(l);
    assert(trim(l) == l);
    assert forall|i: int| 0 <= i < l.len() implies ascii_lower(#[trigger] l[i]) == l[i] by {}
    assert(to_ascii_lower(l) =~= l);
}

/// An identifier and its canonical form have the same published hash, so
/// surrounding whitespace and ASCII case never change the hash.
pub proof fn identifier_hash_ignores_form(s: Seq<char>)
    ensures
        identifier_hash_spec(canonical(s)) == identifier_hash_spec(s),
{
    lemma_canonical_idempotent(s);
}

} // verus!
