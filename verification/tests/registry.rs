use satspath::crypto::{generate_identity_keypair, sign_profile};
use satspath::errors::SatsPathError;
use satspath::profile::{PaymentMethod, PaymentProfile, SignedPaymentProfile};
use satspath::registry::Registry;

fn make_signed_at(alias: &str, updated_at: i64) -> SignedPaymentProfile {
    let kp = generate_identity_keypair();
    let profile = PaymentProfile {
        alias: alias.to_string(),
        identity_pubkey: hex::encode(&kp.public_key),
        methods: vec![PaymentMethod::Lightning {
            label: "LN".into(),
            lightning_address: Some(alias.to_string()),
            lnurl: None,
            bolt12: None,
            receiver_pubkey: None,
        }],
        updated_at,
        expires_at: None,
        sequence: None,
        preferences: Vec::new(),
        nonce: None,
        rotation: None,
        method_verifications: Vec::new(),
    };
    let bytes = format!("{profile:?}").into_bytes();
    sign_profile(profile, &bytes, &kp.secret_key)
}

fn make_signed(alias: &str) -> SignedPaymentProfile {
    make_signed_at(alias, 1_700_000_000)
}

#[test]
fn register_and_resolve() {
    let mut reg = Registry::new();
    let signed = make_signed("alice@example.com");
    reg.register_profile(signed).unwrap();
    let resolved = reg.resolve_alias("alice@example.com").unwrap();
    assert_eq!(resolved.profile.alias, "alice@example.com");
}

#[test]
fn duplicate_registration_fails() {
    let mut reg = Registry::new();
    reg.register_profile(make_signed("bob@example.com")).unwrap();
    let err = reg.register_profile(make_signed("bob@example.com")).unwrap_err();
    assert!(matches!(err, SatsPathError::AliasAlreadyRegistered(_)));
}

#[test]
fn missing_alias_fails() {
    let reg = Registry::new();
    let err = reg.resolve_alias("ghost@example.com").unwrap_err();
    assert!(matches!(err, SatsPathError::AliasNotFound(_)));
}

#[test]
fn is_registered_check() {
    let mut reg = Registry::new();
    assert!(!reg.is_registered("carol@example.com"));
    reg.register_profile(make_signed("carol@example.com")).unwrap();
    assert!(reg.is_registered("carol@example.com"));
}

#[test]
fn registration_is_per_canonical_identifier() {
    let mut reg = Registry::new();
    reg.register_profile(make_signed("Dave@Example.com")).unwrap();
    assert!(reg.is_registered("  dave@example.COM "));
    assert_eq!(
        reg.register_profile(make_signed("dave@example.com")),
        Err(SatsPathError::AliasAlreadyRegistered("dave@example.com".into()))
    );
    assert_eq!(reg.all_aliases(), vec!["Dave@Example.com"]);
}

#[test]
fn all_aliases_lists_the_registered_aliases() {
    let mut reg = Registry::new();
    assert!(reg.all_aliases().is_empty());
    reg.register_profile(make_signed("carol@example.com")).unwrap();
    reg.register_profile(make_signed("frank@example.com")).unwrap();
    let mut aliases = reg.all_aliases();
    aliases.sort();
    assert_eq!(aliases, vec!["carol@example.com", "frank@example.com"]);
}

#[test]
fn update_refuses_older_profiles() {
    let mut reg = Registry::new();
    reg.register_profile(make_signed_at("erin@example.com", 200)).unwrap();
    assert!(matches!(
        reg.update_profile(make_signed_at("erin@example.com", 100)),
        Err(SatsPathError::RegistryError(_))
    ));
    assert_eq!(reg.resolve_alias("erin@example.com").unwrap().profile.updated_at, 200);
    reg.update_profile(make_signed_at("erin@example.com", 300)).unwrap();
    assert_eq!(reg.resolve_alias("erin@example.com").unwrap().profile.updated_at, 300);
}

#[test]
fn resolve_fresh_refuses_expired_profiles() {
    let mut reg = Registry::new();
    let mut signed = make_signed("frank@example.com");
    signed.profile.expires_at = Some(500);
    reg.register_profile(signed).unwrap();
    assert!(reg.resolve_fresh("frank@example.com", 499).is_ok());
    assert!(matches!(
        reg.resolve_fresh("frank@example.com", 500),
        Err(SatsPathError::RegistryError(_))
    ));
    assert!(matches!(
        reg.resolve_fresh("nobody@example.com", 1),
        Err(SatsPathError::AliasNotFound(_))
    ));
}
