use satspath::crypto::{pubkey_hex_of, sign_message, SecretKey};
use satspath::errors::SatsPathError;
use satspath::profile::{KeyRotation, PaymentProfile, SignedPaymentProfile};
use satspath::rotation::{
    apply_key_rotation, get_effective_identity_pubkey, is_rotation_valid, rotate_identity_key,
    rotate_identity_key_at, verify_key_rotation,
};

fn old_key() -> SecretKey {
    SecretKey::from_slice(&[11u8; 32]).unwrap()
}

fn new_key() -> SecretKey {
    SecretKey::from_slice(&[12u8; 32]).unwrap()
}

fn profile_with(key: &SecretKey, rotation: Option<KeyRotation>) -> SignedPaymentProfile {
    SignedPaymentProfile {
        profile: PaymentProfile {
            alias: "rot@example.com".into(),
            identity_pubkey: pubkey_hex_of(key),
            methods: Vec::new(),
            updated_at: 10,
            expires_at: None,
            sequence: None,
            preferences: Vec::new(),
            nonce: None,
            rotation,
            method_verifications: Vec::new(),
        },
        signature: "00".into(),
    }
}

#[test]
fn rotation_signed_by_previous_key_verifies() {
    let rotation = KeyRotation::create_at(pubkey_hex_of(&old_key()), &old_key(), pubkey_hex_of(&new_key()), 1_000);
    assert!(rotation.verify().unwrap());
    let created = KeyRotation::create(pubkey_hex_of(&old_key()), &old_key(), pubkey_hex_of(&new_key())).unwrap();
    assert!(created.verify().unwrap());
    let message = format!("RotateSatsPathKey:{}->{}@1000", pubkey_hex_of(&old_key()), pubkey_hex_of(&new_key()));
    assert_eq!(rotation.authorization_signature, sign_message(&message, &old_key()));
    let forged = KeyRotation {
        previous_pubkey: pubkey_hex_of(&old_key()),
        new_pubkey: pubkey_hex_of(&new_key()),
        authorization_signature: sign_message(&message, &new_key()),
        rotated_at: 1_000,
    };
    assert!(!forged.verify().unwrap());
}

#[test]
fn effective_key_follows_a_valid_rotation() {
    let rotation = KeyRotation::create_at(pubkey_hex_of(&old_key()), &old_key(), pubkey_hex_of(&new_key()), 1_000);
    let carrying = profile_with(&old_key(), Some(rotation));
    assert_eq!(get_effective_identity_pubkey(&carrying).unwrap(), pubkey_hex_of(&new_key()));
    assert_eq!(is_rotation_valid(&carrying), Ok(true));
    let plain = profile_with(&old_key(), None);
    assert_eq!(get_effective_identity_pubkey(&plain).unwrap(), pubkey_hex_of(&old_key()));
    assert_eq!(is_rotation_valid(&plain), Ok(false));
}

#[test]
fn applying_a_rotation_consumes_it() {
    let rotation = KeyRotation::create_at(pubkey_hex_of(&old_key()), &old_key(), pubkey_hex_of(&new_key()), 1_000);
    let carrying = profile_with(&old_key(), Some(rotation));
    let applied = apply_key_rotation(&carrying, &pubkey_hex_of(&new_key())).unwrap();
    assert_eq!(applied.profile.identity_pubkey, pubkey_hex_of(&new_key()));
    assert!(applied.profile.rotation.is_none());
    assert_eq!(applied.signature, "");
    assert_eq!(applied.profile.alias, "rot@example.com");
    assert_eq!(is_rotation_valid(&applied), Ok(false));
    assert!(matches!(
        apply_key_rotation(&carrying, &pubkey_hex_of(&old_key())),
        Err(SatsPathError::CryptoError(_))
    ));
    assert!(matches!(apply_key_rotation(&profile_with(&old_key(), None), "x"), Err(SatsPathError::CryptoError(_))));
}

#[test]
fn rotation_between_profiles() {
    let old_profile = profile_with(&old_key(), None);
    let rotation = KeyRotation::create_at(pubkey_hex_of(&old_key()), &old_key(), pubkey_hex_of(&new_key()), 1_000);
    let new_profile = profile_with(&new_key(), Some(rotation));
    assert_eq!(verify_key_rotation(&old_profile, &new_profile), Ok(true));
    assert_eq!(verify_key_rotation(&new_profile, &new_profile), Ok(false));
    assert_eq!(verify_key_rotation(&old_profile, &old_profile), Ok(false));
}

#[test]
fn rotate_identity_key_links_old_and_new_keys() {
    let old_profile = profile_with(&old_key(), None);
    let rotated = rotate_identity_key_at(&old_profile, &old_key(), &new_key(), 77).unwrap();
    assert_eq!(rotated.profile.identity_pubkey, pubkey_hex_of(&new_key()));
    let k = rotated.profile.rotation.clone().unwrap();
    assert_eq!(k.previous_pubkey, pubkey_hex_of(&old_key()));
    assert_eq!(k.new_pubkey, pubkey_hex_of(&new_key()));
    assert_eq!(k.rotated_at, 77);
    assert_eq!(rotated.signature, "");
    assert_eq!(rotated.profile.alias, "rot@example.com");
    assert_eq!(rotated.profile.updated_at, 10);
    // The authorisation is made with the previous key.
    assert_eq!(is_rotation_valid(&rotated), Ok(true));
    assert_eq!(verify_key_rotation(&old_profile, &rotated), Ok(true));
    assert_eq!(get_effective_identity_pubkey(&rotated).unwrap(), pubkey_hex_of(&new_key()));
    let now_rotated = rotate_identity_key(&old_profile, &old_key(), &new_key()).unwrap();
    assert_eq!(now_rotated.profile.identity_pubkey, pubkey_hex_of(&new_key()));
    assert_eq!(verify_key_rotation(&old_profile, &now_rotated), Ok(true));
    assert_eq!(now_rotated.profile.alias, old_profile.profile.alias);
    assert_eq!(now_rotated.profile.methods, old_profile.profile.methods);
    assert_eq!(now_rotated.profile.updated_at, old_profile.profile.updated_at);
    assert_eq!(now_rotated.profile.expires_at, old_profile.profile.expires_at);
    assert_eq!(now_rotated.signature, "");
}

#[test]
fn rotate_identity_key_refuses_a_key_that_is_not_the_profiles() {
    let old_profile = profile_with(&old_key(), None);
    let err = rotate_identity_key_at(&old_profile, &new_key(), &new_key(), 77).unwrap_err();
    assert_eq!(
        err,
        SatsPathError::CryptoError("secret key does not match the profile's identity key".into())
    );
    assert!(rotate_identity_key(&old_profile, &new_key(), &new_key()).is_err());
}
