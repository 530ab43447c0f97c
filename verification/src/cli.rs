//! What the command-line tool decides and composes: registration methods,
//! claim links, BIP-21 URIs and key-file names. Reading arguments, files and
//! the network is the tool's part.

use vstd::prelude::*;
use crate::ark::{pair_views, parse_url, url_parses, url_query_pairs};
use crate::encoding::{dec_nat, u64_to_dec};
use crate::profile::{BitcoinNetwork, PaymentMethod, PaymentProfile};
use crate::text::{chars_of, push_chars, push_str, slice_chars, split_once, split_once_chars, string_of, str_eq};

verus! {

/// `s` left-padded with zeros to `width` characters.
pub open spec fn pad_zeros(s: Seq<char>, width: nat) -> Seq<char> {
    if s.len() < width {
        Seq::new((width - s.len()) as nat, |i: int| '0') + s
    } else {
        s
    }
}

/// The BIP-21 URI paying `amount_sats` to `address`, the amount in BTC with
/// eight decimals.
pub open spec fn bitcoin_uri_spec(address: Seq<char>, amount_sats: nat) -> Seq<char> {
    "bitcoin:"@ + address + "?amount="@ + dec_nat(amount_sats / 100_000_000) + "."@ + pad_zeros(
        dec_nat(amount_sats % 100_000_000),
        8,
    )
}

/// A BIP-21 Bitcoin URI with amount, e.g. `bitcoin:bc1q...?amount=0.00021000`.
pub fn bitcoin_uri(address: &str, amount_sats: u64) -> (r: String)
    ensures
        r@ == bitcoin_uri_spec(address@, amount_sats as nat),
{
    let whole = u64_to_dec(amount_sats / 100_000_000);
    let frac = u64_to_dec(amount_sats % 100_000_000);
    let mut out: Vec<char> = Vec::new();
    push_str(&mut out, "bitcoin:");
    push_str(&mut out, address);
    push_str(&mut out, "?amount=");
    push_chars(&mut out, &whole);
    push_str(&mut out, ".");
    let ghost before = out@;
    let mut k: usize = frac.len();
    while k < 8
        invariant
            frac@.len() <= k <= 8 || (frac@.len() > 8 && k == frac@.len()),
            out@ == before + Seq::new((k - frac@.len()) as nat, |i: int| '0'),
        decreases 8 - k,
    {
        out.push('0');
        k = k + 1;
        assert(out@ =~= before + Seq::new((k - frac@.len()) as nat, |i: int| '0'));
    }
    push_chars(&mut out, &frac);
    proof {
        reveal_strlit("bitcoin:");
        reveal_strlit("?amount=");
        reveal_strlit(".");
        if frac@.len() >= 8 {
            assert(Seq::new((k - frac@.len()) as nat, |i: int| '0') =~= Seq::<char>::empty());
        }
        assert(out@ =~= bitcoin_uri_spec(address@, amount_sats as nat));
    }
    string_of(out.as_slice())
}

/// The file that holds the identity key of `identity_pubkey_hex`.
pub fn identity_key_file_name(identity_pubkey_hex: &str) -> (r: String)
    ensures
        r@ == identity_pubkey_hex@ + ".key"@,
{
    let mut out: Vec<char> = Vec::new();
    push_str(&mut out, identity_pubkey_hex);
    push_str(&mut out, ".key");
    string_of(out.as_slice())
}

/// The message when a profile has no method at `index`.
pub open spec fn no_method_message(index: nat, count: nat) -> Seq<char> {
    "no method at index "@ + dec_nat(index) + " \u{2014} profile has "@ + dec_nat(count) + " method(s) (0.."@
        + dec_nat(if count == 0 { 0 } else { (count - 1) as nat }) + ")"@
}

/// The method at `index` of a profile, or a message naming the valid range.
pub fn method_at(profile: &PaymentProfile, index: usize) -> (r: Result<&PaymentMethod, String>)
    ensures
        index < profile.methods@.len() ==> (r matches Ok(m) && *m == profile.methods@[index as int]),
        index >= profile.methods@.len() ==> (r matches Err(e) && e@ == no_method_message(
            index as nat,
            profile.methods@.len(),
        )),
{
    let n = profile.methods.len();
    if index < n {
        return Ok(&profile.methods[index]);
    }
    let last: usize = if n == 0 {
        0
    } else {
        n - 1
    };
    let mut out: Vec<char> = Vec::new();
    push_str(&mut out, "no method at index ");
    let d = u64_to_dec(index as u64);
    push_chars(&mut out, &d);
    push_str(&mut out, " \u{2014} profile has ");
    let c = u64_to_dec(n as u64);
    push_chars(&mut out, &c);
    push_str(&mut out, " method(s) (0..");
    let l = u64_to_dec(last as u64);
    push_chars(&mut out, &l);
    push_str(&mut out, ")");
    Err(string_of(out.as_slice()))
}

/// The proof type to suggest for a method: a signature proof for on-chain
/// and Ark methods, a self-attestation for Lightning.
pub fn suggested_proof_type(method: &PaymentMethod) -> (r: &'static str)
    ensures
        method is Onchain ==> r@ == "onchain"@,
        method is Ark ==> r@ == "ark"@,
        method is Lightning ==> r@ == "manual"@,
{
    match method {
        PaymentMethod::Onchain { .. } => "onchain",
        PaymentMethod::Ark { .. } => "ark",
        PaymentMethod::Lightning { .. } => "manual",
    }
}

/// The domain of an alias: what follows its first `@`, `example.com` when
/// there is none.
pub open spec fn alias_domain(alias: Seq<char>) -> Seq<char> {
    match split_once(alias, '@') {
        Some((_, domain)) => domain,
        None => "example.com"@,
    }
}

/// The label of the Lightning method of a new registration.
pub open spec fn lightning_label(ln_address: Option<Seq<char>>) -> Seq<char> {
    match ln_address {
        Some(a) => "Lightning Address ("@ + a + ")"@,
        None => "Lightning Address"@,
    }
}

/// A Lightning method with this label and Lightning address, and nothing else.
pub open spec fn lightning_method_is(m: PaymentMethod, l: Seq<char>, a: Seq<char>) -> bool {
    match m {
        PaymentMethod::Lightning { label, lightning_address, lnurl, bolt12, receiver_pubkey } => {
            &&& label@ == l
            &&& lightning_address matches Some(la)
            &&& lightning_address.unwrap()@ == a
            &&& lnurl is None
            &&& bolt12 is None
            &&& receiver_pubkey is None
        },
        _ => false,
    }
}

/// A mainnet on-chain method with this label, address and key hint.
pub open spec fn onchain_method_is(m: PaymentMethod, l: Seq<char>, a: Seq<char>, hint: Seq<char>) -> bool {
    match m {
        PaymentMethod::Onchain { label, network, address, pubkey_hint, descriptor_hint } => {
            &&& label@ == l
            &&& network == BitcoinNetwork::Mainnet
            &&& address@ == a
            &&& pubkey_hint is Some
            &&& pubkey_hint.unwrap()@ == hint
            &&& descriptor_hint is None
        },
        _ => false,
    }
}

/// An Ark method labelled `Ark` on this server with this key, and nothing else.
pub open spec fn ark_method_is(m: PaymentMethod, srv: Seq<char>, key: Seq<char>) -> bool {
    match m {
        PaymentMethod::Ark { label, server, pubkey, vtxo_pointer, proof, expires_at } => {
            &&& label@ == "Ark"@
            &&& server@ == srv
            &&& pubkey@ == key
            &&& vtxo_pointer is None
            &&& proof is None
            &&& expires_at is None
        },
        _ => false,
    }
}

/// The methods of a new registration, in order: Lightning at the given
/// Lightning address (the alias itself when none), then the given on-chain
/// address or two placeholder addresses derived from the identity key, then
/// Ark on `ark.<domain>` with the identity key.
pub open spec fn registration_methods_ok(
    methods: Seq<PaymentMethod>,
    alias: Seq<char>,
    ln_address: Option<Seq<char>>,
    onchain_address: Option<Seq<char>>,
    pubkey_hex: Seq<char>,
) -> bool {
    let effective_ln = match ln_address {
        Some(a) => a,
        None => alias,
    };
    let n: int = if onchain_address is Some { 3 } else { 4 };
    &&& methods.len() == n
    &&& lightning_method_is(methods[0], lightning_label(ln_address), effective_ln)
    &&& match onchain_address {
        Some(addr) => onchain_method_is(methods[1], "Bitcoin (primary)"@, addr, pubkey_hex.subrange(0, 16)),
        None => {
            &&& onchain_method_is(
                methods[1],
                "Bitcoin (primary \u{2014} placeholder)"@,
                "bc1q"@ + pubkey_hex.subrange(0, 8) + "placeholder0001"@,
                pubkey_hex.subrange(0, 16),
            )
            &&& onchain_method_is(
                methods[2],
                "Bitcoin (secondary \u{2014} placeholder)"@,
                "bc1q"@ + pubkey_hex.subrange(8, 16) + "placeholder0002"@,
                pubkey_hex.subrange(16, 32),
            )
        },
    }
    &&& ark_method_is(methods[n - 1], "ark."@ + alias_domain(alias), pubkey_hex)
}

fn opt_view(o: Option<&str>) -> (r: Ghost<Option<Seq<char>>>)
    ensures
        r@ == match o {
            Some(s) => Some(s@),
            None => None::<Seq<char>>,
        },
{
    Ghost(
        match o {
            Some(s) => Some(s@),
            None => None,
        },
    )
}

/// The payment methods a new registration of `alias` publishes, for the
/// identity key `pubkey_hex` (hex of a compressed key).
pub fn registration_methods(
    alias: &str,
    ln_address: Option<&str>,
    onchain_address: Option<&str>,
    pubkey_hex: &str,
) -> (r: Vec<PaymentMethod>)
    requires
        pubkey_hex@.len() >= 32,
    ensures
        registration_methods_ok(
            r@,
            alias@,
            match ln_address {
                Some(s) => Some(s@),
                None => None,
            },
            match onchain_address {
                Some(s) => Some(s@),
                None => None,
            },
            pubkey_hex@,
        ),
{
    let hex = chars_of(pubkey_hex);
    let effective_ln: &str = match ln_address {
        Some(a) => a,
        None => alias,
    };
    let label = match ln_address {
        Some(a) => {
            let mut l: Vec<char> = Vec::new();
            push_str(&mut l, "Lightning Address (");
            push_str(&mut l, a);
            push_str(&mut l, ")");
            string_of(l.as_slice())
        },
        None => "Lightning Address".to_string(),
    };
    let mut methods: Vec<PaymentMethod> = Vec::new();
    methods.push(
        PaymentMethod::Lightning {
            label,
            lightning_address: Some(effective_ln.to_string()),
            lnurl: None,
            bolt12: None,
            receiver_pubkey: None,
        },
    );
    let hint = string_of(slice_chars(&hex, 0, 16).as_slice());
    match onchain_address {
        Some(addr) => {
            methods.push(
                PaymentMethod::Onchain {
                    label: "Bitcoin (primary)".to_string(),
                    network: BitcoinNetwork::Mainnet,
                    address: addr.to_string(),
                    pubkey_hint: Some(hint),
                    descriptor_hint: None,
                },
            );
        },
        None => {
            let mut a1: Vec<char> = Vec::new();
            push_str(&mut a1, "bc1q");
            let p1 = slice_chars(&hex, 0, 8);
            push_chars(&mut a1, &p1);
            push_str(&mut a1, "placeholder0001");
            methods.push(
                PaymentMethod::Onchain {
                    label: "Bitcoin (primary \u{2014} placeholder)".to_string(),
                    network: BitcoinNetwork::Mainnet,
                    address: string_of(a1.as_slice()),
                    pubkey_hint: Some(hint),
                    descriptor_hint: None,
                },
            );
            let mut a2: Vec<char> = Vec::new();
            push_str(&mut a2, "bc1q");
            let p2 = slice_chars(&hex, 8, 16);
            push_chars(&mut a2, &p2);
            push_str(&mut a2, "placeholder0002");
            methods.push(
                PaymentMethod::Onchain {
                    label: "Bitcoin (secondary \u{2014} placeholder)".to_string(),
                    network: BitcoinNetwork::Mainnet,
                    address: string_of(a2.as_slice()),
                    pubkey_hint: Some(string_of(slice_chars(&hex, 16, 32).as_slice())),
                    descriptor_hint: None,
                },
            );
        },
    }
    let a = chars_of(alias);
    let domain = match split_once_chars(&a, '@') {
        Some((_, d)) => d,
        None => chars_of("example.com"),
    };
    let mut server: Vec<char> = Vec::new();
    push_str(&mut server, "ark.");
    push_chars(&mut server, &domain);
    methods.push(
        PaymentMethod::Ark {
            label: "Ark".to_string(),
            server: string_of(server.as_slice()),
            pubkey: pubkey_hex.to_string(),
            vtxo_pointer: None,
            proof: None,
            expires_at: None,
        },
    );
    methods
}

/// A new, unsigned registration profile of `alias` for the identity key
/// `pubkey_hex`, updated at `now`, with the methods of
/// `registration_methods` and nothing else.
pub fn registration_profile(
    alias: &str,
    ln_address: Option<&str>,
    onchain_address: Option<&str>,
    pubkey_hex: &str,
    now: i64,
) -> (r: PaymentProfile)
    requires
        pubkey_hex@.len() >= 32,
    ensures
        r.alias@ == alias@,
        r.identity_pubkey@ == pubkey_hex@,
        registration_methods_ok(
            r.methods@,
            alias@,
            match ln_address {
                Some(s) => Some(s@),
                None => None,
            },
            match onchain_address {
                Some(s) => Some(s@),
                None => None,
            },
            pubkey_hex@,
        ),
        r.updated_at == now,
        r.expires_at is None,
        r.sequence is None,
        r.preferences@.len() == 0,
        r.nonce is None,
        r.rotation is None,
        r.method_verifications@.len() == 0,
{
    PaymentProfile {
        alias: alias.to_string(),
        identity_pubkey: pubkey_hex.to_string(),
        methods: registration_methods(alias, ln_address, onchain_address, pubkey_hex),
        updated_at: now,
        expires_at: None,
        sequence: None,
        preferences: Vec::new(),
        nonce: None,
        rotation: None,
        method_verifications: Vec::new(),
    }
}

/// The message when a claim URL carries no plaintext alias.
pub open spec fn claim_without_alias_message() -> Seq<char> {
    "Claim URL does not contain the plaintext alias. Please run `satspath claim <your-alias>` instead."@
}

/// The value of the first `alias` query pair, if any.
pub open spec fn first_alias_param(pairs: Seq<(Seq<char>, Seq<char>)>) -> Option<Seq<char>>
    decreases pairs.len(),
{
    if pairs.len() == 0 {
        None
    } else if pairs[0].0 == "alias"@ {
        Some(pairs[0].1)
    } else {
        first_alias_param(pairs.drop_first())
    }
}

/// The alias a claim is for: the `alias` query parameter of a claim URL, or
/// the input itself when it is not a URL.
pub fn claim_alias(claim_url_or_alias: &str) -> (r: Result<String, String>)
    ensures
        !url_parses(claim_url_or_alias@) ==> (r matches Ok(a) && a@ == claim_url_or_alias@),
        url_parses(claim_url_or_alias@) ==> match first_alias_param(url_query_pairs(claim_url_or_alias@)) {
            Some(a) => r matches Ok(b) && b@ == a,
            None => r matches Err(e) && e@ == claim_without_alias_message(),
        },
{
    let parts = match parse_url(claim_url_or_alias) {
        Ok(p) => p,
        Err(_) => return Ok(claim_url_or_alias.to_string()),
    };
    let pairs = &parts.query;
    let ghost all = pair_views(pairs@);
    assert(all.skip(0) =~= all);
    let mut i: usize = 0;
    while i < pairs.len()
        invariant
            i <= pairs@.len(),
            url_parses(claim_url_or_alias@),
            all == url_query_pairs(claim_url_or_alias@),
            all == pair_views(pairs@),
            first_alias_param(all) == first_alias_param(all.skip(i as int)),
        decreases pairs.len() - i,
    {
        proof {
            assert(all.skip(i as int).drop_first() =~= all.skip(i + 1));
            reveal_strlit("alias");
        }
        if str_eq(pairs[i].0.as_str(), "alias") {
            assert(all.skip(i as int)[0] == all[i as int]);
            let v = pairs[i].1.clone();
            assert(v@ == all[i as int].1);
            return Ok(v);
        }
        i = i + 1;
    }
    proof {
        assert(all.skip(i as int) =~= Seq::<(Seq<char>, Seq<char>)>::empty());
    }
    Err(
        "Claim URL does not contain the plaintext alias. Please run `satspath claim <your-alias>` instead.".to_string(),
    )
}

/// The claim link of an escrowed invite.
pub fn escrow_claim_link(escrow_id: &str, claim_secret: &str, alias: &str) -> (r: String)
    ensures
        r@ == "https://satspath.local/claim?escrow_id="@ + escrow_id@ + "&secret="@ + claim_secret@
            + "&alias="@ + alias@,
{
    let mut out: Vec<char> = Vec::new();
    push_str(&mut out, "https://satspath.local/claim?escrow_id=");
    push_str(&mut out, escrow_id);
    push_str(&mut out, "&secret=");
    push_str(&mut out, claim_secret);
    push_str(&mut out, "&alias=");
    push_str(&mut out, alias);
    string_of(out.as_slice())
}

} // verus!
