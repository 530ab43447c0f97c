use satspath::errors::SatsPathError;
use satspath::ark::{
    ark_ownership_challenge, validate_ark_receive_pointer, validate_ark_server_url,
    verify_ark_ownership_proof, ArkOwnershipProof, ArkReceivePointer,
};
use satspath::crypto::{pubkey_hex_of, sign_message, SecretKey};

fn signed_pointer(alias: &str, server: &str, nonce: &str, expires_at: Option<i64>) -> ArkReceivePointer {
    let secret = SecretKey::from_slice(&[1u8; 32]).unwrap();
    let pubkey_hex = pubkey_hex_of(&secret);
    let message = ark_ownership_challenge(alias, server, &pubkey_hex, nonce);
    let signature = sign_message(&message, &secret);
    ArkReceivePointer {
        server: server.into(),
        receiver_pubkey: pubkey_hex.clone(),
        vtxo_pointer: None,
        proof: Some(ArkOwnershipProof { message, signature, pubkey: pubkey_hex }),
        expires_at,
    }
}

#[test]
fn valid_proof_accepted() {
    let pointer = signed_pointer("alice@example.com", "https://ark.example.com", "n1", Some(2_000));
    assert!(verify_ark_ownership_proof("alice@example.com", &pointer, 1_000).unwrap());
}

#[test]
fn pubkey_incorrect_rejected() {
    let mut pointer = signed_pointer("alice@example.com", "https://ark.example.com", "n1", Some(2_000));
    pointer.receiver_pubkey = "0279be667ef9dcbbac55a06295ce870b07029bfcdb2dce28d959f2815b16f81798".into();
    assert!(verify_ark_ownership_proof("alice@example.com", &pointer, 1_000).is_err());
}

#[test]
fn server_incorrect_rejected() {
    let mut pointer = signed_pointer("alice@example.com", "https://ark.example.com", "n1", Some(2_000));
    pointer.server = "https://evil.example.com".into();
    assert!(verify_ark_ownership_proof("alice@example.com", &pointer, 1_000).is_err());
}

#[test]
fn alias_incorrect_rejected() {
    let pointer = signed_pointer("alice@example.com", "https://ark.example.com", "n1", Some(2_000));
    assert!(verify_ark_ownership_proof("bob@example.com", &pointer, 1_000).is_err());
}

#[test]
fn malformed_signature_rejected() {
    let mut pointer = signed_pointer("alice@example.com", "https://ark.example.com", "n1", Some(2_000));
    pointer.proof.as_mut().unwrap().signature = "not-hex".into();
    assert!(verify_ark_ownership_proof("alice@example.com", &pointer, 1_000).is_err());
}

#[test]
fn proof_expired_rejected() {
    let pointer = signed_pointer("alice@example.com", "https://ark.example.com", "n1", Some(999));
    assert!(verify_ark_ownership_proof("alice@example.com", &pointer, 1_000).is_err());
}

#[test]
fn challenge_text_is_exact() {
    assert_eq!(
        ark_ownership_challenge("a@b.c", "https://s", "02ab", "n"),
        "satspath-proof:a@b.c:ark:https://s:02ab:n"
    );
}

#[test]
fn pointer_without_proof_verifies_false() {
    let mut pointer = signed_pointer("alice@example.com", "https://ark.example.com", "n1", None);
    pointer.proof = None;
    assert!(validate_ark_receive_pointer(&pointer, 1_000).is_ok());
    assert_eq!(verify_ark_ownership_proof("alice@example.com", &pointer, 1_000).unwrap(), false);
}

#[test]
fn server_url_must_be_https_with_host() {
    assert!(validate_ark_server_url("https://ark.example.com").is_ok());
    assert!(validate_ark_server_url("http://ark.example.com").is_err());
    assert!(validate_ark_server_url("not a url").is_err());
}

#[test]
fn ownership_refusals_carry_their_error_kinds() {
    let base = || signed_pointer("alice@example.com", "https://ark.example.com", "n1", Some(2_000));
    let mut other_key = base();
    other_key.receiver_pubkey = "0279be667ef9dcbbac55a06295ce870b07029bfcdb2dce28d959f2815b16f81798".into();
    assert_eq!(
        verify_ark_ownership_proof("alice@example.com", &other_key, 1_000),
        Err(SatsPathError::InvalidSignature)
    );
    let mut other_server = base();
    other_server.server = "https://evil.example.com".into();
    assert_eq!(
        verify_ark_ownership_proof("alice@example.com", &other_server, 1_000),
        Err(SatsPathError::InvalidSignature)
    );
    assert_eq!(verify_ark_ownership_proof("bob@example.com", &base(), 1_000), Err(SatsPathError::InvalidSignature));
    let mut bad_signature = base();
    bad_signature.proof.as_mut().unwrap().signature = "not-hex".into();
    assert!(matches!(
        verify_ark_ownership_proof("alice@example.com", &bad_signature, 1_000),
        Err(SatsPathError::CryptoError(_))
    ));
    let expired = signed_pointer("alice@example.com", "https://ark.example.com", "n1", Some(999));
    assert!(matches!(
        verify_ark_ownership_proof("alice@example.com", &expired, 1_000),
        Err(SatsPathError::InvalidPaymentPointer(_))
    ));
    let mut bad_receiver = base();
    bad_receiver.receiver_pubkey = "zz".into();
    assert!(matches!(
        validate_ark_receive_pointer(&bad_receiver, 1_000),
        Err(SatsPathError::InvalidPublicKey(_))
    ));
    assert!(matches!(
        validate_ark_server_url("http://ark.example.com"),
        Err(SatsPathError::InvalidPaymentPointer(_))
    ));
}
