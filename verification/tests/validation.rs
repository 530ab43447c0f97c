use satspath::errors::SatsPathError;
use satspath::profile::{BitcoinNetwork, ClaimPolicy, PaymentMethod, PaymentProfile};
use satspath::validation::{
    assert_no_private_material, is_valid_lightning_address, validate_amount_sats,
    validate_bitcoin_address, validate_claim_policy, validate_compressed_pubkey,
    validate_lightning_address, validate_public_profile, validate_public_profile_at,
    MAX_PREVIEW_AMOUNT_SATS,
};

const VALID_PUBKEY: &str = "0279be667ef9dcbbac55a06295ce870b07029bfcdb2dce28d959f2815b16f81798";

fn lightning_profile(bolt12: Option<String>, expires_at: Option<i64>) -> PaymentProfile {
    PaymentProfile {
        alias: "alice@example.com".into(),
        identity_pubkey: VALID_PUBKEY.into(),
        methods: vec![PaymentMethod::Lightning {
            label: "LN".into(),
            lightning_address: Some("alice@example.com".into()),
            lnurl: None,
            bolt12,
            receiver_pubkey: None,
        }],
        updated_at: 1,
        expires_at,
        sequence: None,
        preferences: Vec::new(),
        nonce: None,
        rotation: None,
        method_verifications: Vec::new(),
    }
}

#[test]
fn mainnet_address_accepted_in_mainnet_preview() {
    assert!(validate_bitcoin_address("1BoatSLRHtKNngkdXEeobR76b53LETtpyT", BitcoinNetwork::Mainnet).is_ok());
}

#[test]
fn testnet_address_rejected_in_mainnet_preview() {
    assert!(validate_bitcoin_address("mipcBbFg9gMiCh81Kj8tqqdgoZub1ZJRfn", BitcoinNetwork::Mainnet).is_err());
}

#[test]
fn compressed_secp256k1_pubkey_accepted() {
    assert!(validate_compressed_pubkey(VALID_PUBKEY).is_ok());
}

#[test]
fn invalid_pubkey_rejected() {
    assert!(validate_compressed_pubkey("04abcdef").is_err());
}

#[test]
fn lightning_address_parsed() {
    assert!(validate_lightning_address("rodrigo@example.com").is_ok());
    assert!(validate_lightning_address("not-an-address").is_err());
}

#[test]
fn profile_rejects_private_material() {
    let profile = lightning_profile(Some("secret xprv payload".into()), Some(2));
    assert!(validate_public_profile(&profile).is_err());
}

#[test]
fn multisig_claim_policy_validates_pubkeys() {
    let policy = ClaimPolicy::Multisig {
        threshold: 2,
        pubkeys: vec![VALID_PUBKEY.into(), VALID_PUBKEY.into()],
        descriptor: Some("wsh(sortedmulti(2,...))".into()),
    };
    assert!(validate_claim_policy(&policy).is_ok());
}

#[test]
fn multisig_threshold_above_key_count_rejected() {
    let policy = ClaimPolicy::Multisig {
        threshold: 3,
        pubkeys: vec![VALID_PUBKEY.into(), VALID_PUBKEY.into()],
        descriptor: None,
    };
    assert!(matches!(validate_claim_policy(&policy), Err(SatsPathError::InvalidPaymentPointer(_))));
    let zero = ClaimPolicy::Multisig { threshold: 0, pubkeys: vec![VALID_PUBKEY.into()], descriptor: None };
    assert!(validate_claim_policy(&zero).is_err());
}

#[test]
fn amount_bounds() {
    assert_eq!(
        validate_amount_sats(0),
        Err(SatsPathError::InvalidPaymentPointer("amount must be positive".into()))
    );
    assert!(validate_amount_sats(1).is_ok());
    assert!(validate_amount_sats(MAX_PREVIEW_AMOUNT_SATS).is_ok());
    assert_eq!(
        validate_amount_sats(MAX_PREVIEW_AMOUNT_SATS + 1),
        Err(SatsPathError::InvalidPaymentPointer("amount exceeds Bitcoin supply".into()))
    );
}

#[test]
fn private_material_is_reported() {
    assert!(assert_no_private_material("just a public label").is_ok());
    assert!(matches!(
        assert_no_private_material("my xprv is here"),
        Err(SatsPathError::PrivateMaterialRejected(_))
    ));
}

#[test]
fn lightning_address_shapes() {
    assert!(is_valid_lightning_address("a.b-c_d+e@pay.example.org"));
    assert!(!is_valid_lightning_address("@example.com"));
    assert!(!is_valid_lightning_address("alice@localhost"));
    assert!(!is_valid_lightning_address("alice@@example.com"));
}

#[test]
fn clean_profile_accepted_and_expiry_before_update_rejected() {
    let profile = lightning_profile(None, Some(2_000));
    assert!(validate_public_profile_at(&profile, 1_000).is_ok());
    let backwards = lightning_profile(None, Some(1));
    assert!(matches!(
        validate_public_profile_at(&backwards, 1_000),
        Err(SatsPathError::InvalidPaymentPointer(_))
    ));
}

#[test]
fn expiry_equal_to_update_rejected() {
    let profile = PaymentProfile {
        alias: "alice@example.com".into(),
        identity_pubkey: "0279be667ef9dcbbac55a06295ce870b07029bfcdb2dce28d959f2815b16f81798".into(),
        methods: vec![],
        updated_at: 5,
        expires_at: Some(5),
        sequence: None,
        preferences: Vec::new(),
        nonce: None,
        rotation: None,
        method_verifications: vec![],
    };
    assert_eq!(
        validate_public_profile(&profile),
        Err(SatsPathError::InvalidPaymentPointer("profile expires before it is updated".into()))
    );
    let bad_key = PaymentProfile { identity_pubkey: "04ab".into(), expires_at: None, ..profile.clone() };
    assert!(matches!(validate_public_profile_at(&bad_key, 1), Err(SatsPathError::InvalidPublicKey(_))));
    let secret_alias = PaymentProfile { alias: "my xprv".into(), ..profile };
    assert!(matches!(
        validate_public_profile_at(&secret_alias, 1),
        Err(SatsPathError::PrivateMaterialRejected(_))
    ));
}
