use satspath::crypto::{generate_identity_keypair, sign_profile, verify_signed_profile};
use satspath::privacy::identifier_hash;
use satspath::profile::{PaymentMethod, PaymentProfile};

fn create_testnet_profile(alias: &str, identity_pubkey: &str, ln_address: &str) -> PaymentProfile {
    PaymentProfile {
        alias: alias.to_string(),
        identity_pubkey: identity_pubkey.to_string(),
        methods: vec![PaymentMethod::Lightning {
            label: "Testnet Lightning".into(),
            lightning_address: Some(ln_address.to_string()),
            lnurl: None,
            bolt12: None,
            receiver_pubkey: None,
        }],
        updated_at: chrono::Utc::now().timestamp(),
        expires_at: None,
        sequence: Some(1),
        preferences: vec![],
        nonce: None,
        rotation: None,
        method_verifications: vec![],
    }
}

#[test]
fn test_attack_p2p_dht_scraping_privacy() {
    let alias = "chelo@testnet";
    let public_topic = identifier_hash(alias);
    assert_ne!(public_topic, alias, "SECURITY FAILURE: The plaintext alias leaked into the P2P topic!");
    assert_eq!(public_topic.len(), 64, "Topic should be a SHA-256 hash.");
}

#[test]
fn test_attack_p2p_in_transit_corruption() {
    let alice_keys = generate_identity_keypair();
    let alice_pubkey_hex = hex::encode(&alice_keys.public_key);
    let profile = create_testnet_profile("chelo@testnet", &alice_pubkey_hex, "testnet_node@lightning.dev");
    let network_payload = format!("{profile:?}");
    let signed = sign_profile(profile, network_payload.as_bytes(), &alice_keys.secret_key);

    let corrupted_payload = network_payload.replace("testnet_node@lightning.dev", "hacker_testnet@evil.node");
    assert!(corrupted_payload.contains("hacker_testnet@evil.node"), "Payload should still carry a profile.");

    let mut received = signed.clone();
    if let PaymentMethod::Lightning { lightning_address, .. } = &mut received.profile.methods[0] {
        *lightning_address = Some("hacker_testnet@evil.node".into());
    }
    let verification_result =
        verify_signed_profile(&received, corrupted_payload.as_bytes()).unwrap_or(false);
    assert!(!verification_result, "SECURITY FAILURE: The receiving node accepted a payload corrupted in-transit!");
    assert!(verify_signed_profile(&signed, network_payload.as_bytes()).unwrap());
}
