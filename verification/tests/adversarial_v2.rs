use satspath::crypto::{pubkey_hex_of, sign_message, SecretKey};
use satspath::errors::{SatsPathError, TransparencyError};
use satspath::profile::{PaymentProfile, SignedPaymentProfile};
use satspath::registry::Registry;
use satspath::resolver::{ChainResolver, ProfileResolver};
use satspath::transparency::checkpoint::{verify_checkpoint_transition, PinnedCheckpoint, TransparencyCheckpoint};
use satspath::transparency::tree::{inclusion_proof, leaf_hash, merkle_root};
use satspath::transparency::verify::verify_inclusion_proof;

fn replay_profile(alias: &str, updated_at: i64) -> SignedPaymentProfile {
    SignedPaymentProfile {
        profile: PaymentProfile {
            alias: alias.into(),
            identity_pubkey: pubkey_hex_of(&SecretKey::from_slice(&[21u8; 32]).unwrap()),
            methods: Vec::new(),
            updated_at,
            expires_at: None,
            sequence: None,
            preferences: Vec::new(),
            nonce: None,
            rotation: None,
            method_verifications: Vec::new(),
        },
        signature: String::new(),
    }
}

#[test]
fn test_reject_old_profile_replay() {
    let mut registry = Registry::new();
    registry.register_profile(replay_profile("victim@example.com", 2_000)).unwrap();
    let replay = registry.update_profile(replay_profile("victim@example.com", 1_000));
    assert!(matches!(replay, Err(SatsPathError::RegistryError(_))));
    assert_eq!(registry.resolve_alias("victim@example.com").unwrap().profile.updated_at, 2_000);
}

#[test]
fn test_reject_split_view() {
    let operator = SecretKey::from_slice(&[22u8; 32]).unwrap();
    let json = "{\"log_size\":4}";
    let message = format!("SatsPathTransparencyCheckpointV1\n{json}");
    let checkpoint = TransparencyCheckpoint {
        version: 1,
        log_size: 4,
        log_root: "bb".repeat(32),
        map_root: None,
        previous_checkpoint_hash: None,
        created_at: 1,
        operator_pubkey: pubkey_hex_of(&operator),
        operator_signature: sign_message(&message, &operator),
        bitcoin_anchor: None,
    };
    let pinned = PinnedCheckpoint {
        operator_pubkey: pubkey_hex_of(&operator),
        tree_size: 4,
        root_hash: "aa".repeat(32),
        checkpoint_hash: String::new(),
        first_seen_at: 0,
        last_seen_at: 0,
    };
    assert_eq!(
        verify_checkpoint_transition(&pinned, &checkpoint, json, None),
        Err(SatsPathError::Transparency(TransparencyError::ConflictingCheckpoint))
    );
}

#[test]
fn test_forged_non_inclusion() {
    let leaves: Vec<Vec<u8>> = (0..6u8).map(|i| leaf_hash(&[i])).collect();
    let genuine = inclusion_proof(&leaves, 3).unwrap();
    assert!(verify_inclusion_proof(&genuine).unwrap());
    let mut forged = genuine.clone();
    forged.leaf_hash = hex::encode(leaf_hash(b"never appended"));
    assert_eq!(verify_inclusion_proof(&forged), Ok(false));
    let mut wrong_root = genuine.clone();
    wrong_root.root_hash = hex::encode(merkle_root(&leaves[..5]));
    assert_eq!(verify_inclusion_proof(&wrong_root), Ok(false));
    let mut short_path = genuine;
    short_path.audit_path.pop();
    assert_ne!(verify_inclusion_proof(&short_path), Ok(true));
}

struct Substituting;

impl ProfileResolver for Substituting {
    fn resolve_alias(&self, _alias: &str) -> Result<SignedPaymentProfile, SatsPathError> {
        Ok(replay_profile("attacker@evil.example", 1))
    }
}

struct Honest;

impl ProfileResolver for Honest {
    fn resolve_alias(&self, alias: &str) -> Result<SignedPaymentProfile, SatsPathError> {
        Ok(replay_profile(alias, 1))
    }
}

enum Either {
    Bad(Substituting),
    Good(Honest),
}

impl ProfileResolver for Either {
    fn resolve_alias(&self, alias: &str) -> Result<SignedPaymentProfile, SatsPathError> {
        match self {
            Either::Bad(r) => r.resolve_alias(alias),
            Either::Good(r) => r.resolve_alias(alias),
        }
    }
}

#[test]
fn test_legacy_fallback_rejection() {
    let chain = ChainResolver::new()
        .push(Either::Bad(Substituting))
        .push(Either::Good(Honest));
    let result = chain.resolve_alias("victim@example.com");
    assert!(matches!(result, Err(SatsPathError::AliasNotFound(ref m)) if m.starts_with("security failure")));
}
