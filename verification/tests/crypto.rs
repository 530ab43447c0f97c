use sha2::{Digest, Sha256};
use satspath::crypto::{
    check_profile_expiry, check_profile_expiry_at, fingerprint_pubkey, generate_identity_keypair,
    identity_key_from_text, is_valid_secret_key, pubkey_hex_of, sign_bytes, sign_message, sign_profile,
    verify_bytes_signature, verify_message_signature, verify_signed_profile, SecretKey,
};
use satspath::errors::SatsPathError;
use satspath::profile::{PaymentMethod, PaymentProfile};

fn demo_profile(pubkey_hex: &str) -> PaymentProfile {
    PaymentProfile {
        alias: "alice@example.com".into(),
        identity_pubkey: pubkey_hex.to_string(),
        methods: vec![PaymentMethod::Lightning {
            label: "LN".into(),
            lightning_address: Some("alice@example.com".into()),
            lnurl: None,
            bolt12: None,
            receiver_pubkey: None,
        }],
        updated_at: 1_700_000_000,
        expires_at: None,
        sequence: None,
        preferences: Vec::new(),
        nonce: None,
        rotation: None,
        method_verifications: Vec::new(),
    }
}

/// The bytes a profile's signature covers, for these tests.
fn profile_bytes(profile: &PaymentProfile) -> Vec<u8> {
    format!("{profile:?}").into_bytes()
}

fn now() -> i64 {
    chrono::Utc::now().timestamp()
}

#[test]
fn sign_and_verify() {
    let kp = generate_identity_keypair();
    let pubkey_hex = hex::encode(&kp.public_key);
    let profile = demo_profile(&pubkey_hex);
    let bytes = profile_bytes(&profile);
    let signed = sign_profile(profile, &bytes, &kp.secret_key);
    assert!(verify_signed_profile(&signed, &bytes).unwrap());
}

#[test]
fn tampered_signature_rejected() {
    let kp = generate_identity_keypair();
    let pubkey_hex = hex::encode(&kp.public_key);
    let profile = demo_profile(&pubkey_hex);
    let bytes = profile_bytes(&profile);
    let mut signed = sign_profile(profile, &bytes, &kp.secret_key);
    let mut bad_sig = signed.signature.clone();
    let last = bad_sig.pop().unwrap();
    bad_sig.push(if last == '0' { '1' } else { '0' });
    signed.signature = bad_sig;
    let result = verify_signed_profile(&signed, &bytes);
    assert!(result.is_err() || !result.unwrap());
}

#[test]
fn tampered_profile_rejected() {
    let kp = generate_identity_keypair();
    let pubkey_hex = hex::encode(&kp.public_key);
    let profile = demo_profile(&pubkey_hex);
    let bytes = profile_bytes(&profile);
    let mut signed = sign_profile(profile, &bytes, &kp.secret_key);
    signed.profile.alias = "evil@hacker.com".into();
    let tampered = profile_bytes(&signed.profile);
    assert!(!verify_signed_profile(&signed, &tampered).unwrap());
}

#[test]
fn fingerprint_is_deterministic() {
    let kp = generate_identity_keypair();
    let hex = hex::encode(&kp.public_key);
    let fp1 = fingerprint_pubkey(&hex).unwrap();
    let fp2 = fingerprint_pubkey(&hex).unwrap();
    assert_eq!(fp1, fp2);
    assert_eq!(fp1.len(), 8);
}

#[test]
fn fingerprint_is_first_four_digest_bytes() {
    let key = "0279be667ef9dcbbac55a06295ce870b07029bfcdb2dce28d959f2815b16f81798";
    let digest = Sha256::digest(hex::decode(key).unwrap());
    assert_eq!(fingerprint_pubkey(key).unwrap(), hex::encode(&digest[..4]));
    assert!(fingerprint_pubkey("not hex").is_err());
}

#[test]
fn non_expiring_profile_passes() {
    let kp = generate_identity_keypair();
    let mut profile = demo_profile(&hex::encode(&kp.public_key));
    profile.expires_at = None;
    assert!(check_profile_expiry(&profile).is_ok());
}

#[test]
fn future_expires_at_passes() {
    let kp = generate_identity_keypair();
    let mut profile = demo_profile(&hex::encode(&kp.public_key));
    profile.expires_at = Some(now() + 3_600);
    assert!(check_profile_expiry(&profile).is_ok());
}

#[test]
fn past_expires_at_rejected() {
    let kp = generate_identity_keypair();
    let mut profile = demo_profile(&hex::encode(&kp.public_key));
    profile.expires_at = Some(now() - 3_600);
    let result = check_profile_expiry(&profile);
    assert!(result.is_err(), "expired profile must be rejected");
    let err = result.unwrap_err().message();
    assert!(err.contains("expired"), "error message must mention expiry");
}

#[test]
fn exact_expiry_timestamp_rejected() {
    let kp = generate_identity_keypair();
    let mut profile = demo_profile(&hex::encode(&kp.public_key));
    profile.expires_at = Some(now());
    let result = check_profile_expiry(&profile);
    if let Err(e) = result {
        assert!(e.message().contains("expired"));
    }
}

#[test]
fn expiry_boundary_and_message_at_fixed_time() {
    let mut profile = demo_profile("02");
    profile.expires_at = Some(100);
    assert!(check_profile_expiry_at(&profile, 99).is_ok());
    let err = check_profile_expiry_at(&profile, 100).unwrap_err();
    assert_eq!(
        err,
        SatsPathError::RegistryError(
            "profile for 'alice@example.com' expired at unix timestamp 100 (now: 100)".into()
        )
    );
    assert_eq!(
        err.message(),
        "registry error: profile for 'alice@example.com' expired at unix timestamp 100 (now: 100)"
    );
}

#[test]
fn message_signature_roundtrip() {
    let kp = generate_identity_keypair();
    let pubkey_hex = hex::encode(&kp.public_key);
    let sig = sign_message("hello ownership", &kp.secret_key);
    assert!(verify_message_signature("hello ownership", &sig, &pubkey_hex).unwrap());
}

#[test]
fn message_signature_rejects_wrong_message() {
    let kp = generate_identity_keypair();
    let pubkey_hex = hex::encode(&kp.public_key);
    let sig = sign_message("original", &kp.secret_key);
    assert!(!verify_message_signature("tampered", &sig, &pubkey_hex).unwrap());
}

#[test]
fn message_signature_rejects_wrong_key() {
    let kp = generate_identity_keypair();
    let other = generate_identity_keypair();
    let other_pubkey = hex::encode(&other.public_key);
    let sig = sign_message("msg", &kp.secret_key);
    assert!(!verify_message_signature("msg", &sig, &other_pubkey).unwrap());
}

#[test]
fn signature_check_error_kinds() {
    let kp = generate_identity_keypair();
    let pubkey_hex = hex::encode(&kp.public_key);
    let sig = sign_bytes(b"data", &kp.secret_key);
    assert!(verify_bytes_signature(b"data", &sig, &pubkey_hex).unwrap());
    assert!(matches!(
        verify_bytes_signature(b"data", &sig, "zz"),
        Err(SatsPathError::InvalidPublicKey(_))
    ));
    assert!(matches!(
        verify_bytes_signature(b"data", &sig, "0011"),
        Err(SatsPathError::InvalidPublicKey(_))
    ));
    assert!(matches!(
        verify_bytes_signature(b"data", "not-hex", &pubkey_hex),
        Err(SatsPathError::CryptoError(_))
    ));
    assert!(matches!(
        verify_bytes_signature(b"data", "00", &pubkey_hex),
        Err(SatsPathError::CryptoError(_))
    ));
}

#[test]
fn keypair_matches_and_secret_key_checks() {
    let kp = generate_identity_keypair();
    assert_eq!(kp.public_key.len(), 33);
    assert_eq!(pubkey_hex_of(&kp.secret_key), hex::encode(&kp.public_key));
    assert!(is_valid_secret_key(&kp.secret_key.secret_bytes()));
    assert_eq!(kp.secret_key.secret_bytes().len(), 32);
    assert!(!is_valid_secret_key(&[0u8; 32]));
    assert!(!is_valid_secret_key(&[1u8; 31]));
    assert!(SecretKey::from_slice(&[0u8; 32]).is_err());
    let again = SecretKey::from_slice(&kp.secret_key.secret_bytes()).unwrap();
    assert_eq!(pubkey_hex_of(&again), hex::encode(&kp.public_key));
}

#[test]
fn signing_is_deterministic() {
    let secret = SecretKey::from_slice(&[7u8; 32]).unwrap();
    assert_eq!(sign_message("same", &secret), sign_message("same", &secret));
    assert_ne!(sign_message("same", &secret), sign_message("other", &secret));
}

#[test]
fn secret_key_hex_roundtrip() {
    let secret = SecretKey::from_slice(&[7u8; 32]).unwrap();
    assert_eq!(secret.to_hex(), "07".repeat(32));
    let kp = generate_identity_keypair();
    assert_eq!(kp.secret_key.to_hex(), hex::encode(kp.secret_key.secret_bytes()));
    let prefix = &pubkey_hex_of(&kp.secret_key)[..2];
    assert!(prefix == "02" || prefix == "03");
}

#[test]
fn identity_key_from_text_checks_the_stored_key() {
    let secret = SecretKey::from_slice(&[7u8; 32]).unwrap();
    let pubkey = pubkey_hex_of(&secret);
    let text = format!("  {}\n", secret.to_hex());
    let loaded = identity_key_from_text(&text, &pubkey).unwrap();
    assert_eq!(loaded.secret_bytes(), [7u8; 32].to_vec());
    let other = pubkey_hex_of(&SecretKey::from_slice(&[8u8; 32]).unwrap());
    assert_eq!(
        identity_key_from_text(&text, &other).err(),
        Some(SatsPathError::CryptoError("identity key file does not match the requested identity pubkey".into()))
    );
    assert_eq!(
        identity_key_from_text("zz", &pubkey).err(),
        Some(SatsPathError::CryptoError("decoding identity key hex".into()))
    );
    assert!(matches!(
        identity_key_from_text(&"00".repeat(32), &pubkey),
        Err(SatsPathError::CryptoError(_))
    ));
}
