use satspath::cli::{
    bitcoin_uri, claim_alias, escrow_claim_link, identity_key_file_name, method_at,
    registration_methods, registration_profile, suggested_proof_type,
};
use satspath::profile::{BitcoinNetwork, PaymentMethod};

const KEY: &str = "0279be667ef9dcbbac55a06295ce870b07029bfcdb2dce28d959f2815b16f81798";

#[test]
fn bitcoin_uri_has_eight_decimals() {
    assert_eq!(bitcoin_uri("bc1qabc", 21_000), "bitcoin:bc1qabc?amount=0.00021000");
    assert_eq!(bitcoin_uri("bc1qabc", 0), "bitcoin:bc1qabc?amount=0.00000000");
    assert_eq!(bitcoin_uri("bc1qabc", 150_000_000), "bitcoin:bc1qabc?amount=1.50000000");
    assert_eq!(
        bitcoin_uri("a", 2_100_000_000_000_000),
        format!("bitcoin:a?amount={:.8}", 2_100_000_000_000_000u64 as f64 / 100_000_000.0)
    );
}

#[test]
fn identity_key_file_is_named_by_pubkey() {
    assert_eq!(identity_key_file_name("02ab"), "02ab.key");
}

#[test]
fn registration_with_defaults() {
    let methods = registration_methods("alice@example.com", None, None, KEY);
    assert_eq!(methods.len(), 4);
    assert_eq!(
        methods[0],
        PaymentMethod::Lightning {
            label: "Lightning Address".into(),
            lightning_address: Some("alice@example.com".into()),
            lnurl: None,
            bolt12: None,
            receiver_pubkey: None,
        }
    );
    assert_eq!(
        methods[1],
        PaymentMethod::Onchain {
            label: "Bitcoin (primary \u{2014} placeholder)".into(),
            network: BitcoinNetwork::Mainnet,
            address: format!("bc1q{}placeholder0001", &KEY[..8]),
            pubkey_hint: Some(KEY[..16].to_string()),
            descriptor_hint: None,
        }
    );
    assert_eq!(
        methods[2],
        PaymentMethod::Onchain {
            label: "Bitcoin (secondary \u{2014} placeholder)".into(),
            network: BitcoinNetwork::Mainnet,
            address: format!("bc1q{}placeholder0002", &KEY[8..16]),
            pubkey_hint: Some(KEY[16..32].to_string()),
            descriptor_hint: None,
        }
    );
    assert_eq!(
        methods[3],
        PaymentMethod::Ark {
            label: "Ark".into(),
            server: "ark.example.com".into(),
            pubkey: KEY.into(),
            vtxo_pointer: None,
            proof: None,
            expires_at: None,
        }
    );
}

#[test]
fn registration_with_given_addresses() {
    let profile = registration_profile("bob", Some("bob@ln.example"), Some("bc1qgiven"), KEY, 99);
    assert_eq!(profile.updated_at, 99);
    assert_eq!(profile.methods.len(), 3);
    assert_eq!(profile.methods[0].label(), "Lightning Address (bob@ln.example)");
    assert!(matches!(&profile.methods[1], PaymentMethod::Onchain { address, .. } if address == "bc1qgiven"));
    assert!(matches!(&profile.methods[2], PaymentMethod::Ark { server, .. } if server == "ark.example.com"));
}

#[test]
fn method_index_errors_name_the_range() {
    let profile = registration_profile("c@d.e", None, Some("bc1q"), KEY, 1);
    assert!(method_at(&profile, 2).is_ok());
    assert_eq!(
        method_at(&profile, 3).unwrap_err(),
        "no method at index 3 \u{2014} profile has 3 method(s) (0..2)"
    );
    assert_eq!(suggested_proof_type(method_at(&profile, 0).unwrap()), "manual");
    assert_eq!(suggested_proof_type(method_at(&profile, 1).unwrap()), "onchain");
    assert_eq!(suggested_proof_type(method_at(&profile, 2).unwrap()), "ark");
}

#[test]
fn claim_alias_from_url_or_text() {
    assert_eq!(claim_alias("carol@example.com").unwrap(), "carol@example.com");
    assert_eq!(
        claim_alias("https://satspath.local/claim?escrow_id=1&secret=s&alias=carol%40example.com").unwrap(),
        "carol@example.com"
    );
    assert_eq!(
        claim_alias("https://satspath.local/claim?alias_hash=abcd&amount=1").unwrap_err(),
        "Claim URL does not contain the plaintext alias. Please run `satspath claim <your-alias>` instead."
    );
}

#[test]
fn escrow_link_format() {
    assert_eq!(
        escrow_claim_link("e1", "s3cr3t", "d@e.f"),
        "https://satspath.local/claim?escrow_id=e1&secret=s3cr3t&alias=d@e.f"
    );
}
