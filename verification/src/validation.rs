//! Validation of amounts, keys, addresses, claim policies and public payloads.

use vstd::prelude::*;
use crate::encoding::{hex_decode, hex_decode_spec, hex_valid};
use crate::crypto::{pubkey_valid, parse_pubkey};
use crate::errors::SatsPathError;
use crate::profile::{BitcoinNetwork, ClaimPolicy, PaymentMethod, PaymentProfile, copy_opt};
use crate::ark::{
    ark_pointer_ok, ark_proof_verdict, parse_url, unix_now, url_parses, url_scheme,
    validate_ark_receive_pointer, verify_ark_ownership_proof, ArkReceivePointer,
};
use crate::text::{
    chars_eq, string_of,
    chars_of, contains_chars, contains_seq, lower_chars, split_once, split_once_chars,
    to_ascii_lower, trim, trim_chars, trim_start, is_ws, is_first_index, lemma_first_index_unique,
};

verus! {

/// Amounts above this are large for a preview.
pub const LARGE_PREVIEW_AMOUNT_SATS: u64 = 100_000_000;

/// The Bitcoin supply in satoshis: no amount can exceed it.
pub const MAX_PREVIEW_AMOUNT_SATS: u64 = 2_100_000_000_000_000;

/// An amount is accepted when it is positive and at most the Bitcoin supply.
pub fn validate_amount_sats(amount_sats: u64) -> (r: Result<(), SatsPathError>)
    ensures
        r is Ok <==> 0 < amount_sats <= MAX_PREVIEW_AMOUNT_SATS,
        amount_sats == 0 ==> (r matches Err(SatsPathError::InvalidPaymentPointer(m)) && m@
            == "amount must be positive"@),
        amount_sats > MAX_PREVIEW_AMOUNT_SATS ==> (r matches Err(SatsPathError::InvalidPaymentPointer(m))
            && m@ == "amount exceeds Bitcoin supply"@),
{
    if amount_sats == 0 {
        return Err(SatsPathError::InvalidPaymentPointer("amount must be positive".to_string()));
    }
    if amount_sats > MAX_PREVIEW_AMOUNT_SATS {
        return Err(
            SatsPathError::InvalidPaymentPointer("amount exceeds Bitcoin supply".to_string()),
        );
    }
    Ok(())
}

/// A compressed secp256k1 key in hex: 33 bytes led by 0x02 or 0x03 that parse
/// as a point.
pub open spec fn compressed_pubkey_ok(hex: Seq<char>) -> bool {
    let b = hex_decode_spec(hex);
    hex_valid(hex) && b.len() == 33 && (b[0] == 2 || b[0] == 3) && pubkey_valid(b)
}

/// Checks a hex compressed secp256k1 public key.
pub fn validate_compressed_pubkey(pubkey_hex: &str) -> (r: Result<(), SatsPathError>)
    ensures
        r is Ok <==> compressed_pubkey_ok(pubkey_hex@),
        r matches Err(e) ==> e is InvalidPublicKey,
{
    let bytes = match hex_decode(pubkey_hex) {
        Ok(b) => b,
        Err(e) => return Err(SatsPathError::InvalidPublicKey(e)),
    };
    if bytes.len() != 33 || !(bytes[0] == 2 || bytes[0] == 3) {
        return Err(
            SatsPathError::InvalidPublicKey(
                "expected 33-byte compressed secp256k1 pubkey".to_string(),
            ),
        );
    }
    match parse_pubkey(bytes.as_slice()) {
        Ok(_) => Ok(()),
        Err(e) => Err(SatsPathError::InvalidPublicKey(e)),
    }
}

pub open spec fn is_ascii_alnum(c: char) -> bool {
    ('0' <= c && c <= '9') || ('a' <= c && c <= 'z') || ('A' <= c && c <= 'Z')
}

pub open spec fn is_ascii_alpha(c: char) -> bool {
    ('a' <= c && c <= 'z') || ('A' <= c && c <= 'Z')
}

pub open spec fn local_char_ok(c: char) -> bool {
    is_ascii_alnum(c) || c == '.' || c == '_' || c == '-' || c == '+'
}

pub open spec fn domain_char_ok(c: char) -> bool {
    is_ascii_alnum(c) || c == '.' || c == '-'
}

/// `user@domain`: a non-empty local part of `[A-Za-z0-9._+-]`, and a domain of
/// `[A-Za-z0-9.-]` that holds a dot, not at either end; split at the first `@`
/// of the trimmed text.
pub open spec fn lightning_address_ok(s: Seq<char>) -> bool {
    match split_once(trim(s), '@') {
        Some((local, domain)) => {
            &&& local.len() > 0
            &&& forall|i: int| 0 <= i < local.len() ==> local_char_ok(#[trigger] local[i])
            &&& exists|i: int| 0 <= i < domain.len() && #[trigger] domain[i] == '.'
            &&& domain[0] != '.'
            &&& domain.last() != '.'
            &&& forall|i: int| 0 <= i < domain.len() ==> domain_char_ok(#[trigger] domain[i])
        },
        None => false,
    }
}

proof fn lemma_trim_unchanged(s: Seq<char>)
    requires
        s.len() > 0,
        !is_ws(s[0]),
        !is_ws(s.last()),
    ensures
        trim(s) == s,
{
    assert(trim_start(s) == s);
}

/// Every address `local@domain` is accepted whose local part is non-empty and
/// made of ASCII letters, digits, '.', '_', '-' and '+', and whose domain is
/// made of ASCII letters, digits, '.' and '-' and holds a dot, not at either
/// end.
pub proof fn well_formed_lightning_address_accepted(local: Seq<char>, domain: Seq<char>)
    requires
        local.len() > 0,
        forall|i: int| 0 <= i < local.len() ==> {
            let c = #[trigger] local[i];
            ('0' <= c <= '9') || ('a' <= c <= 'z') || ('A' <= c <= 'Z') || c == '.' || c == '_' || c == '-'
                || c == '+'
        },
        forall|i: int| 0 <= i < domain.len() ==> {
            let c = #[trigger] domain[i];
            ('0' <= c <= '9') || ('a' <= c <= 'z') || ('A' <= c <= 'Z') || c == '.' || c == '-'
        },
        exists|i: int| 0 <= i < domain.len() && #[trigger] domain[i] == '.',
        domain[0] != '.',
        domain.last() != '.',
    ensures
        lightning_address_ok(local + "@"@ + domain),
{
    reveal_strlit("@");
    let s = local + "@"@ + domain;
    let n = local.len() as int;
    assert("@"@.len() == 1 && "@"@[0] == '@');
    assert(s.len() == n + 1 + domain.len());
    assert(s[n] == '@');
    assert forall|i: int| 0 <= i < domain.len() implies s[n + 1 + i] == domain[i] by {}
    assert(domain.len() > 0);
    assert(s[0] == local[0]);
    assert(s.last() == domain.last());
    lemma_trim_unchanged(s);
    assert(is_first_index(s, '@', n)) by {
        assert forall|j: int| 0 <= j < n implies s[j] != '@' by {
            assert(s[j] == local[j]);
        }
    }
    assert(split_once(s, '@') == Some((s.take(n), s.skip(n + 1)))) by {
        let k = choose|k: int| is_first_index(s, '@', k);
        lemma_first_index_unique(s, '@', k, n);
    }
    assert(s.take(n) =~= local);
    assert(s.skip(n + 1) =~= domain);
}

fn is_alnum(c: char) -> (r: bool)
    ensures
        r == is_ascii_alnum(c),
{
    ('0' <= c && c <= '9') || ('a' <= c && c <= 'z') || ('A' <= c && c <= 'Z')
}

fn is_alpha(c: char) -> (r: bool)
    ensures
        r == is_ascii_alpha(c),
{
    ('a' <= c && c <= 'z') || ('A' <= c && c <= 'Z')
}

/// Checks the Lightning Address format (`user@domain`).
pub fn validate_lightning_address(address: &str) -> (r: Result<(), SatsPathError>)
    ensures
        r is Ok <==> lightning_address_ok(address@),
        r matches Err(e) ==> e is InvalidPaymentPointer,
{
    let v = chars_of(address);
    let t = trim_chars(&v);
    let (local, domain) = match split_once_chars(&t, '@') {
        Some(p) => p,
        None => {
            return Err(
                SatsPathError::InvalidPaymentPointer(
                    "Lightning Address must be user@domain".to_string(),
                ),
            )
        },
    };
    let mut valid_local = local.len() > 0;
    let mut i: usize = 0;
    while i < local.len()
        invariant
            i <= local@.len(),
            valid_local == (local@.len() > 0 && forall|k: int|
                0 <= k < i ==> local_char_ok(#[trigger] local@[k])),
        decreases local.len() - i,
    {
        let c = local[i];
        if !(is_alnum(c) || c == '.' || c == '_' || c == '-' || c == '+') {
            valid_local = false;
        }
        i = i + 1;
    }
    let mut has_dot = false;
    let mut chars_ok = true;
    let mut j: usize = 0;
    while j < domain.len()
        invariant
            j <= domain@.len(),
            has_dot == exists|k: int| 0 <= k < j && #[trigger] domain@[k] == '.',
            chars_ok == forall|k: int| 0 <= k < j ==> domain_char_ok(#[trigger] domain@[k]),
        decreases domain.len() - j,
    {
        let c = domain[j];
        if c == '.' {
            has_dot = true;
        }
        if !(is_alnum(c) || c == '.' || c == '-') {
            chars_ok = false;
        }
        j = j + 1;
    }
    let valid_domain = has_dot && domain[0] != '.' && domain[domain.len() - 1] != '.' && chars_ok;
    proof {
        let (sl, sd) = split_once(trim(address@), '@')->0;
        assert(sl == local@ && sd == domain@);
        if has_dot {
            assert(domain@.len() > 0);
            assert(domain@.last() == domain@[domain@.len() - 1]);
        }
    }
    if valid_local && valid_domain {
        Ok(())
    } else {
        Err(SatsPathError::InvalidPaymentPointer("invalid Lightning Address format".to_string()))
    }
}

/// Whether a string looks like a Lightning Address (`user@domain`).
pub fn is_valid_lightning_address(s: &str) -> (r: bool)
    ensures
        r == lightning_address_ok(s@),
{
    validate_lightning_address(s).is_ok()
}

/// Terms whose presence, in any ASCII case, marks a payload as private.
pub open spec fn blocked_terms() -> Seq<Seq<char>> {
    seq![
        "xprv"@,
        "tprv"@,
        "seed phrase"@,
        "mnemonic"@,
        "private_key"@,
        "private key"@,
        "secret_key"@,
        "macaroon"@,
        "cert"@,
        "api_key"@,
        "apikey"@,
        "secret"@,
        "password"@,
    ]
}

/// `i` is the first blocked term that occurs in `lower`.
pub open spec fn is_first_blocked(lower: Seq<char>, i: int) -> bool {
    &&& 0 <= i < blocked_terms().len()
    &&& contains_seq(lower, blocked_terms()[i])
    &&& forall|j: int| 0 <= j < i ==> !contains_seq(lower, #[trigger] blocked_terms()[j])
}

/// Number of maximal runs of ASCII letters of length at least 3 in `s`, given
/// that the run before `s` has length `run`.
pub open spec fn runs_from(s: Seq<char>, run: nat) -> nat
    decreases s.len(),
{
    if s.len() == 0 {
        if run >= 3 { 1 } else { 0 }
    } else if is_ascii_alpha(s[0]) {
        runs_from(s.drop_first(), run + 1)
    } else {
        (if run >= 3 { 1nat } else { 0nat }) + runs_from(s.drop_first(), 0)
    }
}

/// Words of three or more ASCII letters (splitting at every other character).
pub open spec fn word_count(s: Seq<char>) -> nat {
    runs_from(s, 0)
}

/// Why a payload is rejected as private material, if it is: the first blocked
/// term it holds, or a seed-phrase-like shape (twelve or more words and the
/// word `seed`).
pub open spec fn private_material_reason(payload: Seq<char>) -> Option<Seq<char>> {
    let lower = to_ascii_lower(payload);
    if exists|i: int| is_first_blocked(lower, i) {
        Some(blocked_terms()[choose|i: int| is_first_blocked(lower, i)])
    } else if word_count(payload) >= 12 && contains_seq(lower, "seed"@) {
        Some("seed phrase-like payload"@)
    } else {
        None
    }
}

proof fn lemma_first_blocked_unique(lower: Seq<char>, i: int, j: int)
    requires
        is_first_blocked(lower, i),
        is_first_blocked(lower, j),
    ensures
        i == j,
{
    if i < j {
        assert(!contains_seq(lower, blocked_terms()[i]));
    } else if j < i {
        assert(!contains_seq(lower, blocked_terms()[j]));
    }
}

fn count_words(s: &Vec<char>) -> (r: u64)
    ensures
        r == word_count(s@),
{
    let mut count: u64 = 0;
    let mut run: u64 = 0;
    let mut i: usize = 0;
    assert(s@.skip(0) =~= s@);
    while i < s.len()
        invariant
            i <= s@.len(),
            3 * count + run <= i,
            count + runs_from(s@.skip(i as int), run as nat) == word_count(s@),
        decreases s.len() - i,
    {
        assert(s@.skip(i as int).drop_first() =~= s@.skip(i + 1));
        if is_alpha(s[i]) {
            run = run + 1;
        } else {
            if run >= 3 {
                count = count + 1;
            }
            run = 0;
        }
        i = i + 1;
    }
    assert(s@.skip(i as int).len() == 0);
    if run >= 3 {
        count = count + 1;
    }
    count
}

/// Rejects payloads that look like private key material.
pub fn assert_no_private_material(payload: &str) -> (r: Result<(), SatsPathError>)
    ensures
        match private_material_reason(payload@) {
            None => r is Ok,
            Some(m) => r matches Err(SatsPathError::PrivateMaterialRejected(t)) && t@ == m,
        },
{
    let chars = chars_of(payload);
    let lower = lower_chars(&chars);
    let blocked: Vec<&str> = vec![
        "xprv",
        "tprv",
        "seed phrase",
        "mnemonic",
        "private_key",
        "private key",
        "secret_key",
        "macaroon",
        "cert",
        "api_key",
        "apikey",
        "secret",
        "password",
    ];
    proof {
        assert(blocked@.len() == blocked_terms().len());
        assert forall|k: int| 0 <= k < blocked@.len() implies #[trigger] blocked@[k]@
            == blocked_terms()[k] by {
            reveal_strlit("xprv");
            reveal_strlit("tprv");
            reveal_strlit("seed phrase");
            reveal_strlit("mnemonic");
            reveal_strlit("private_key");
            reveal_strlit("private key");
            reveal_strlit("secret_key");
            reveal_strlit("macaroon");
            reveal_strlit("cert");
            reveal_strlit("api_key");
            reveal_strlit("apikey");
            reveal_strlit("secret");
            reveal_strlit("password");
        }
    }
    let mut i: usize = 0;
    while i < blocked.len()
        invariant
            i <= blocked@.len(),
            blocked@.len() == blocked_terms().len(),
            forall|k: int| 0 <= k < blocked@.len() ==> #[trigger] blocked@[k]@ == blocked_terms()[k],
            lower@ == to_ascii_lower(payload@),
            forall|j: int| 0 <= j < i ==> !contains_seq(lower@, #[trigger] blocked_terms()[j]),
        decreases blocked.len() - i,
    {
        let term = chars_of(blocked[i]);
        if contains_chars(&lower, &term) {
            proof {
                assert(is_first_blocked(lower@, i as int));
                let k = choose|k: int| is_first_blocked(lower@, k);
                lemma_first_blocked_unique(lower@, i as int, k);
            }
            return Err(SatsPathError::PrivateMaterialRejected(blocked[i].to_string()));
        }
        i = i + 1;
    }
    assert(!exists|k: int| is_first_blocked(lower@, k));
    let words = count_words(&chars);
    let seed = chars_of("seed");
    proof {
        reveal_strlit("seed");
        reveal_strlit("seed phrase-like payload");
    }
    if words >= 12 && contains_chars(&lower, &seed) {
        return Err(SatsPathError::PrivateMaterialRejected("seed phrase-like payload".to_string()));
    }
    Ok(())
}

/// What `validate_claim_policy` accepts.
pub open spec fn claim_policy_ok(p: ClaimPolicy) -> bool {
    match p {
        ClaimPolicy::SingleSig { receiver_pubkey } => compressed_pubkey_ok(receiver_pubkey@),
        ClaimPolicy::Multisig { threshold, pubkeys, descriptor } => {
            &&& threshold != 0
            &&& threshold <= pubkeys@.len()
            &&& forall|i: int| 0 <= i < pubkeys@.len() ==> compressed_pubkey_ok(#[trigger] pubkeys@[i]@)
            &&& (descriptor matches Some(d) ==> private_material_reason(d@) is None)
        },
        ClaimPolicy::FutureTaproot { internal_key, script_policy_hint } => {
            &&& compressed_pubkey_ok(internal_key@)
            &&& (script_policy_hint matches Some(h) ==> private_material_reason(h@) is None)
        },
    }
}

/// Validates public claim-policy metadata: keys are compressed secp256k1 keys,
/// a multisig threshold lies in `1..=pubkeys.len()`, and no hint carries
/// private material.
#[verifier::loop_isolation(false)]
pub fn validate_claim_policy(policy: &ClaimPolicy) -> (r: Result<(), SatsPathError>)
    ensures
        r is Ok <==> claim_policy_ok(*policy),
{
    match policy {
        ClaimPolicy::SingleSig { receiver_pubkey } => validate_compressed_pubkey(receiver_pubkey.as_str()),
        ClaimPolicy::Multisig { threshold, pubkeys, descriptor } => {
            if *threshold == 0 || (*threshold as usize) > pubkeys.len() {
                return Err(
                    SatsPathError::InvalidPaymentPointer("invalid multisig threshold".to_string()),
                );
            }
            let mut i: usize = 0;
            while i < pubkeys.len()
                invariant
                    i <= pubkeys@.len(),
                    forall|k: int| 0 <= k < i ==> compressed_pubkey_ok(#[trigger] pubkeys@[k]@),
                decreases pubkeys.len() - i,
            {
                match validate_compressed_pubkey(pubkeys[i].as_str()) {
                    Ok(()) => {},
                    Err(e) => {
                        assert(!compressed_pubkey_ok(pubkeys@[i as int]@));
                        return Err(e);
                    },
                }
                i = i + 1;
            }
            if let Some(d) = descriptor {
                match assert_no_private_material(d.as_str()) {
                    Ok(()) => {},
                    Err(e) => return Err(e),
                }
            }
            Ok(())
        },
        ClaimPolicy::FutureTaproot { internal_key, script_policy_hint } => {
            match validate_compressed_pubkey(internal_key.as_str()) {
                Ok(()) => {},
                Err(e) => return Err(e),
            }
            if let Some(h) = script_policy_hint {
                match assert_no_private_material(h.as_str()) {
                    Ok(()) => {},
                    Err(e) => return Err(e),
                }
            }
            Ok(())
        },
    }
}

/// Whether the text parses as a Bitcoin address of the given network.
pub uninterp spec fn bitcoin_address_valid(address: Seq<char>, network: BitcoinNetwork) -> bool;

/// Parses a Bitcoin address and requires its network
/// (`bitcoin::Address::from_str`, then `require_network`); the error is the
/// crate's message.
///
/// Trusted: the result depends on the text and the network alone. The error
/// text is not stated.
#[verifier::external_body]
fn check_bitcoin_address(address: &str, network: BitcoinNetwork) -> (r: Result<(), String>)
    ensures
        r is Ok <==> bitcoin_address_valid(address@, network),
{
    let expected = match network {
        BitcoinNetwork::Mainnet => bitcoin::Network::Bitcoin,
        BitcoinNetwork::Testnet => bitcoin::Network::Testnet,
        BitcoinNetwork::Regtest => bitcoin::Network::Regtest,
    };
    match <bitcoin::Address<bitcoin::address::NetworkUnchecked> as std::str::FromStr>::from_str(address) {
        Ok(parsed) => parsed.require_network(expected).map(|_| ()).map_err(|e| e.to_string()),
        Err(e) => Err(e.to_string()),
    }
}

/// A Bitcoin address (trimmed) is valid on the given network.
pub fn validate_bitcoin_address(address: &str, network: BitcoinNetwork) -> (r: Result<(), SatsPathError>)
    ensures
        r is Ok <==> bitcoin_address_valid(trim(address@), network),
        r matches Err(e) ==> e is InvalidPaymentPointer,
{
    let v = chars_of(address);
    let t = trim_chars(&v);
    let s = string_of(t.as_slice());
    match check_bitcoin_address(s.as_str(), network) {
        Ok(()) => Ok(()),
        Err(e) => Err(SatsPathError::InvalidPaymentPointer(e)),
    }
}

/// An LNURL: parses as a URL with an `http` or `https` scheme.
pub open spec fn lnurl_ok(u: Seq<char>) -> bool {
    url_parses(u) && (url_scheme(u) == "https"@ || url_scheme(u) == "http"@)
}

/// The Ark receive pointer a method describes.
pub open spec fn method_pointer(
    server: String,
    pubkey: String,
    vtxo_pointer: Option<String>,
    proof: Option<crate::profile::ArkOwnershipProof>,
    expires_at: Option<i64>,
) -> ArkReceivePointer {
    ArkReceivePointer { server, receiver_pubkey: pubkey, vtxo_pointer, proof, expires_at }
}

/// What `validate_public_profile` asks of one method at time `now`.
pub open spec fn method_ok(alias: Seq<char>, m: PaymentMethod, now: i64) -> bool {
    match m {
        PaymentMethod::Lightning { lightning_address, lnurl, bolt12, receiver_pubkey, .. } => {
            &&& (lightning_address matches Some(a) ==> lightning_address_ok(a@))
            &&& (lnurl matches Some(u) ==> lnurl_ok(u@))
            &&& (bolt12 matches Some(b) ==> private_material_reason(b@) is None)
            &&& (receiver_pubkey matches Some(k) ==> compressed_pubkey_ok(k@))
        },
        PaymentMethod::Onchain { network, address, pubkey_hint, descriptor_hint, .. } => {
            &&& bitcoin_address_valid(trim(address@), network)
            &&& (pubkey_hint matches Some(k) ==> compressed_pubkey_ok(k@))
            &&& (descriptor_hint matches Some(d) ==> private_material_reason(d@) is None)
        },
        PaymentMethod::Ark { server, pubkey, vtxo_pointer, proof, expires_at, .. } => {
            let p = method_pointer(server, pubkey, vtxo_pointer, proof, expires_at);
            &&& ark_pointer_ok(p, now)
            &&& (proof is Some ==> ark_proof_verdict(alias, p, now) == Some(true))
        },
    }
}

/// What `validate_public_profile` accepts at time `now`: an alias free of
/// private material, a compressed identity key, an expiry after the update
/// time, and every method valid.
pub open spec fn public_profile_ok(p: PaymentProfile, now: i64) -> bool {
    &&& private_material_reason(p.alias@) is None
    &&& compressed_pubkey_ok(p.identity_pubkey@)
    &&& (p.expires_at matches Some(e) ==> e > p.updated_at)
    &&& forall|i: int| 0 <= i < p.methods@.len() ==> method_ok(p.alias@, #[trigger] p.methods@[i], now)
}

fn validate_method(alias: &str, method: &PaymentMethod, now: i64) -> (r: Result<(), SatsPathError>)
    ensures
        r is Ok <==> method_ok(alias@, *method, now),
{
    match method {
        PaymentMethod::Lightning { lightning_address, lnurl, bolt12, receiver_pubkey, .. } => {
            if let Some(address) = lightning_address {
                match validate_lightning_address(address.as_str()) {
                    Ok(()) => {},
                    Err(e) => return Err(e),
                }
            }
            if let Some(url) = lnurl {
                let parts = match parse_url(url.as_str()) {
                    Ok(p) => p,
                    Err(e) => return Err(SatsPathError::InvalidPaymentPointer(e)),
                };
                let scheme = chars_of(parts.scheme.as_str());
                let https = chars_of("https");
                let http = chars_of("http");
                proof {
                    reveal_strlit("https");
                    reveal_strlit("http");
                }
                if !(chars_eq(&scheme, &https) || chars_eq(&scheme, &http)) {
                    return Err(
                        SatsPathError::InvalidPaymentPointer("LNURL must be http(s)".to_string()),
                    );
                }
            }
            if let Some(invoice) = bolt12 {
                match assert_no_private_material(invoice.as_str()) {
                    Ok(()) => {},
                    Err(e) => return Err(e),
                }
            }
            if let Some(pubkey) = receiver_pubkey {
                match validate_compressed_pubkey(pubkey.as_str()) {
                    Ok(()) => {},
                    Err(e) => return Err(e),
                }
            }
            Ok(())
        },
        PaymentMethod::Onchain { network, address, pubkey_hint, descriptor_hint, .. } => {
            match validate_bitcoin_address(address.as_str(), *network) {
                Ok(()) => {},
                Err(e) => return Err(e),
            }
            if let Some(pubkey) = pubkey_hint {
                match validate_compressed_pubkey(pubkey.as_str()) {
                    Ok(()) => {},
                    Err(e) => return Err(e),
                }
            }
            if let Some(descriptor) = descriptor_hint {
                match assert_no_private_material(descriptor.as_str()) {
                    Ok(()) => {},
                    Err(e) => return Err(e),
                }
            }
            Ok(())
        },
        PaymentMethod::Ark { server, pubkey, vtxo_pointer, proof: ark_proof, expires_at, .. } => {
            let proof_copy = match ark_proof {
                Some(p) => Some(p.copy()),
                None => None,
            };
            let pointer = ArkReceivePointer {
                server: server.clone(),
                receiver_pubkey: pubkey.clone(),
                vtxo_pointer: copy_opt(vtxo_pointer),
                proof: proof_copy,
                expires_at: *expires_at,
            };
            match validate_ark_receive_pointer(&pointer, now) {
                Ok(()) => {},
                Err(e) => return Err(e),
            }
            if ark_proof.is_some() {
                match verify_ark_ownership_proof(alias, &pointer, now) {
                    Ok(true) => {},
                    Ok(false) => return Err(SatsPathError::InvalidSignature),
                    Err(e) => return Err(e),
                }
            }
            Ok(())
        },
    }
}

/// Validates that a profile holds only well-formed public data, at time `now`.
pub fn validate_public_profile_at(profile: &PaymentProfile, now: i64) -> (r: Result<(), SatsPathError>)
    ensures
        r is Ok <==> public_profile_ok(*profile, now),
        private_material_reason(profile.alias@) matches Some(m) ==> (r matches Err(
            SatsPathError::PrivateMaterialRejected(t),
        ) && t@ == m),
        private_material_reason(profile.alias@) is None && !compressed_pubkey_ok(profile.identity_pubkey@)
            ==> r matches Err(SatsPathError::InvalidPublicKey(_)),
        private_material_reason(profile.alias@) is None && compressed_pubkey_ok(profile.identity_pubkey@)
            && (profile.expires_at matches Some(e) && e <= profile.updated_at) ==> (r matches Err(
            SatsPathError::InvalidPaymentPointer(t),
        ) && t@ == "profile expires before it is updated"@),
{
    match assert_no_private_material(profile.alias.as_str()) {
        Ok(()) => {},
        Err(e) => return Err(e),
    }
    match validate_compressed_pubkey(profile.identity_pubkey.as_str()) {
        Ok(()) => {},
        Err(e) => return Err(e),
    }
    if let Some(expires_at) = profile.expires_at {
        if expires_at <= profile.updated_at {
            return Err(
                SatsPathError::InvalidPaymentPointer(
                    "profile expires before it is updated".to_string(),
                ),
            );
        }
    }
    let mut i: usize = 0;
    while i < profile.methods.len()
        invariant
            i <= profile.methods@.len(),
            private_material_reason(profile.alias@) is None,
            compressed_pubkey_ok(profile.identity_pubkey@),
            profile.expires_at matches Some(e) ==> e > profile.updated_at,
            forall|k: int| 0 <= k < i ==> method_ok(profile.alias@, #[trigger] profile.methods@[k], now),
        decreases profile.methods.len() - i,
    {
        match validate_method(profile.alias.as_str(), &profile.methods[i], now) {
            Ok(()) => {},
            Err(e) => return Err(e),
        }
        i = i + 1;
    }
    Ok(())
}

/// Validates a profile's public data against the current time.
pub fn validate_public_profile(profile: &PaymentProfile) -> (r: Result<(), SatsPathError>)
    ensures
        r is Ok ==> exists|now: i64| public_profile_ok(*profile, now),
        exists|now: i64| #![trigger public_profile_ok(*profile, now)] (r is Ok <==> public_profile_ok(*profile, now)),
        private_material_reason(profile.alias@) matches Some(m) ==> (r matches Err(
            SatsPathError::PrivateMaterialRejected(t),
        ) && t@ == m),
        private_material_reason(profile.alias@) is None && !compressed_pubkey_ok(profile.identity_pubkey@)
            ==> r matches Err(SatsPathError::InvalidPublicKey(_)),
        private_material_reason(profile.alias@) is None && compressed_pubkey_ok(profile.identity_pubkey@)
            && (profile.expires_at matches Some(e) && e <= profile.updated_at) ==> (r matches Err(
            SatsPathError::InvalidPaymentPointer(t),
        ) && t@ == "profile expires before it is updated"@),
{
    let now = unix_now();
    let r = validate_public_profile_at(profile, now);
    assert(r is Ok <==> public_profile_ok(*profile, now));
    r
}

} // verus!
