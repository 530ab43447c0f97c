use sha2::{Digest, Sha256};
use satspath::crypto::{pubkey_hex_of, SecretKey};
use satspath::errors::{SatsPathError, TransparencyError};
use satspath::ffi::{
    network_name, parse_network, FfiError, FfiMethodVerification, FfiPaymentMethod, FfiPaymentProfile,
    FfiResolverChain, FfiSignedPaymentProfile, SatspathImpl,
};
use satspath::profile::{
    ArkOwnershipProof, BitcoinNetwork, KeyRotation, MethodVerification, PaymentMethod, PaymentProfile,
    SignedPaymentProfile,
};
use satspath::crypto::{generate_identity_keypair, sign_profile};
use satspath::resolver::{ChainResolver, NostrResolver};

fn core_profile() -> PaymentProfile {
    PaymentProfile {
        alias: "ffi@example.com".into(),
        identity_pubkey: "02aa".into(),
        methods: vec![
            PaymentMethod::Onchain {
                label: "chain".into(),
                network: BitcoinNetwork::Testnet,
                address: "tb1qxyz".into(),
                pubkey_hint: Some("hint".into()),
                descriptor_hint: None,
            },
            PaymentMethod::Ark {
                label: "ark".into(),
                server: "https://ark".into(),
                pubkey: "02bb".into(),
                vtxo_pointer: None,
                proof: Some(ArkOwnershipProof { message: "m".into(), signature: "s".into(), pubkey: "02bb".into() }),
                expires_at: Some(9),
            },
        ],
        updated_at: 5,
        expires_at: Some(6),
        sequence: Some(2),
        preferences: vec!["ark".into()],
        nonce: Some("n".into()),
        rotation: Some(KeyRotation {
            previous_pubkey: "02cc".into(),
            new_pubkey: "02aa".into(),
            authorization_signature: "sig".into(),
            rotated_at: 4,
        }),
        method_verifications: vec![MethodVerification {
            method_descriptor: "onchain:tb1qxyz".into(),
            proof_type: "OnchainAddressSignature".into(),
            proof_data: "{}".into(),
            verified_at: 3,
        }],
    }
}

#[test]
fn networks_by_name() {
    assert_eq!(network_name(BitcoinNetwork::Regtest), "regtest");
    assert_eq!(parse_network("testnet"), BitcoinNetwork::Testnet);
    assert_eq!(parse_network("regtest"), BitcoinNetwork::Regtest);
    assert_eq!(parse_network("anything"), BitcoinNetwork::Mainnet);
}

#[test]
fn profile_round_trip_through_bindings() {
    let ffi = FfiPaymentProfile::from_core(core_profile());
    match &ffi.methods[0] {
        FfiPaymentMethod::Onchain { method } => {
            assert_eq!(method.network, "testnet");
            assert_eq!(method.address.as_deref(), Some("tb1qxyz"));
            assert!(method.address_list.is_empty());
        }
        other => panic!("unexpected {other:?}"),
    }
    assert_eq!(ffi.method_verifications[0].verified_at, 3);
    let back = ffi.to_core();
    let expected = core_profile();
    assert_eq!(back.methods, expected.methods);
    assert_eq!(back.rotation, expected.rotation);
    assert_eq!(back.alias, expected.alias);
    assert_eq!(back.method_verifications[0].method_descriptor, "onchain:tb1qxyz");
    assert_eq!(back.method_verifications[0].proof_type, "unverified");
    assert_eq!(back.method_verifications[0].verified_at, 0);
}

#[test]
fn missing_onchain_address_becomes_empty() {
    let m = FfiPaymentMethod::from_core(PaymentMethod::Onchain {
        label: "x".into(),
        network: BitcoinNetwork::Mainnet,
        address: "a".into(),
        pubkey_hint: None,
        descriptor_hint: None,
    });
    let mut m2 = m.clone();
    if let FfiPaymentMethod::Onchain { method } = &mut m2 {
        method.address = None;
    }
    assert!(matches!(m2.to_core(), PaymentMethod::Onchain { address, .. } if address.is_empty()));
    let v = FfiMethodVerification::from_core(MethodVerification {
        method_descriptor: "d".into(),
        proof_type: "t".into(),
        proof_data: "p".into(),
        verified_at: 1,
    });
    assert_eq!(v.proof_data, "p");
}

#[test]
fn errors_for_bindings() {
    assert_eq!(
        FfiError::from_core(SatsPathError::AliasNotFound("a".into())),
        FfiError::AliasNotFound { reason: "a".into() }
    );
    assert_eq!(
        FfiError::from_core(SatsPathError::InvalidSignature),
        FfiError::CryptoError { reason: "invalid signature".into() }
    );
    assert_eq!(
        FfiError::from_core(SatsPathError::NetworkError("n".into())),
        FfiError::NetworkError { reason: "n".into() }
    );
    assert_eq!(
        FfiError::from_core(SatsPathError::RegistryError("r".into())),
        FfiError::Other { reason: "registry error: r".into() }
    );
    assert_eq!(
        FfiError::from_core(SatsPathError::Transparency(TransparencyError::CheckpointRollback)),
        FfiError::Other { reason: "transparency error: checkpoint rollback".into() }
    );
}

#[test]
fn verify_profile_through_bindings() {
    let kp = generate_identity_keypair();
    let mut profile = core_profile();
    profile.identity_pubkey = hex::encode(&kp.public_key);
    let bytes = format!("{profile:?}").into_bytes();
    let signed: SignedPaymentProfile = sign_profile(profile, &bytes, &kp.secret_key);
    let ffi = FfiSignedPaymentProfile::from_core(signed);
    assert!(SatspathImpl.verify_profile(ffi.clone(), &bytes));
    assert!(!SatspathImpl.verify_profile(ffi, b"other bytes"));
}

#[test]
fn resolver_chain_for_bindings() {
    let chain = FfiResolverChain::new(ChainResolver::new().push(NostrResolver));
    assert_eq!(chain.inner().resolvers().len(), 1);
    assert_eq!(
        chain.resolve_alias("x@y.z".into()),
        Err(FfiError::AliasNotFound { reason: "x@y.z".into() })
    );
}

#[test]
fn binding_identity_and_fingerprints() {
    let id = satspath::ffi::create_identity();
    assert_eq!(id.secret_key_hex.len(), 64);
    let key = satspath::crypto::SecretKey::from_slice(&hex::decode(&id.secret_key_hex).unwrap()).unwrap();
    assert_eq!(satspath::crypto::pubkey_hex_of(&key), id.pubkey_hex);
    let expected = hex::encode(&Sha256::digest(hex::decode(&id.pubkey_hex).unwrap())[..8]);
    assert_eq!(id.fingerprint, expected);
    assert_eq!(id.fingerprint.len(), 16);
    assert_eq!(satspath::ffi::compute_fingerprint("zz"), "");
    assert_eq!(satspath::ffi::compute_fingerprint("02"), "");
    assert_eq!(satspath::ffi::fingerprint_pubkey(id.pubkey_hex.clone()), id.fingerprint);
}

#[test]
fn binding_signatures() {
    let id = satspath::ffi::create_identity();
    let sig = satspath::ffi::sign_message("hi".into(), id.secret_key_hex.clone()).unwrap();
    assert_eq!(satspath::ffi::verify_message_signature("hi".into(), sig.clone(), id.pubkey_hex.clone()), Ok(true));
    assert_eq!(satspath::ffi::verify_message_signature("ho".into(), sig, id.pubkey_hex.clone()), Ok(false));
    assert!(matches!(
        satspath::ffi::verify_message_signature("hi".into(), "zz".into(), id.pubkey_hex.clone()),
        Err(FfiError::CryptoError { .. })
    ));
    assert!(matches!(satspath::ffi::sign_message("hi".into(), "nothex".into()), Err(FfiError::CryptoError { .. })));
    assert!(matches!(satspath::ffi::sign_message("hi".into(), "00".repeat(32)), Err(FfiError::CryptoError { .. })));

    let mut profile = FfiPaymentProfile::from_core(core_profile());
    profile.identity_pubkey = id.pubkey_hex.clone();
    let signed = satspath::ffi::sign_profile(profile, id.secret_key_hex.clone(), b"bytes").unwrap();
    assert!(satspath::ffi::verify_signed_profile(signed.clone(), b"bytes"));
    assert!(!satspath::ffi::verify_signed_profile(signed, b"other"));
}

#[test]
fn binding_rotation_check() {
    let old_key = SecretKey::from_slice(&[31u8; 32]).unwrap();
    let new_key = SecretKey::from_slice(&[32u8; 32]).unwrap();
    let mut old_core = core_profile();
    old_core.identity_pubkey = pubkey_hex_of(&old_key);
    old_core.rotation = None;
    let mut new_core = core_profile();
    new_core.identity_pubkey = pubkey_hex_of(&new_key);
    new_core.rotation = Some(KeyRotation::create_at(pubkey_hex_of(&old_key), &old_key, pubkey_hex_of(&new_key), 5));
    let old_ffi = FfiSignedPaymentProfile::from_core(SignedPaymentProfile { profile: old_core, signature: String::new() });
    let new_ffi = FfiSignedPaymentProfile::from_core(SignedPaymentProfile { profile: new_core, signature: String::new() });
    assert!(satspath::ffi::verify_key_rotation(old_ffi.clone(), new_ffi.clone()));
    assert!(!satspath::ffi::verify_key_rotation(new_ffi, old_ffi));
}

#[test]
fn empty_binding_chain_answers_not_found() {
    let chain: ChainResolver<NostrResolver> = ChainResolver::new();
    let entry = satspath::ffi::ResolverChainImpl::new(FfiResolverChain::new(chain));
    assert_eq!(
        entry.resolve_alias("x@y.z".into()),
        Err(FfiError::AliasNotFound { reason: "x@y.z".into() })
    );
}
