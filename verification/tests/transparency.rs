use sha2::{Digest, Sha256};

use satspath::crypto::{pubkey_hex_of, sign_message, SecretKey};
use satspath::errors::{SatsPathError, TransparencyError};
use satspath::transparency::checkpoint::{
    pin_checkpoint, verify_checkpoint, verify_checkpoint_transition, PinnedCheckpoint,
    TransparencyCheckpoint,
};
use satspath::transparency::events::{EventEvidence, NameAction, NameEvent, RotationProof};
use satspath::transparency::history::{verify_identifier_history, verify_key_continuity};
use satspath::transparency::log::TransparencyLog;
use satspath::transparency::tree::{
    inclusion_proof, largest_power_of_two_less_than, leaf_hash, merkle_root, node_hash,
};
use satspath::transparency::verify::{verify_consistency_proof, verify_event_profile, verify_inclusion_proof};
use satspath::crypto::sign_profile;
use satspath::profile::{PaymentProfile, SignedPaymentProfile};

fn sk(b: u8) -> SecretKey {
    SecretKey::from_slice(&[b; 32]).unwrap()
}

fn owner() -> SecretKey {
    sk(3)
}

fn operator() -> SecretKey {
    sk(9)
}

fn sha(data: &[u8]) -> Vec<u8> {
    Sha256::digest(data).to_vec()
}

fn event(id: &str, seq: u64, action: NameAction, key: &SecretKey, prev: Option<String>) -> (NameEvent, EventEvidence) {
    let signing_message = format!("event {id} {seq}");
    let event_hash = hex::encode(sha(signing_message.as_bytes()));
    let e = NameEvent {
        version: 1,
        identifier_hash: id.to_string(),
        sequence: seq,
        action,
        identity_pubkey: pubkey_hex_of(key),
        profile_hash: format!("profile-{seq}"),
        previous_event_hash: prev,
        rotation: None,
        owner_signature: sign_message(&signing_message, key),
    };
    let ev = EventEvidence { event_hash, signing_message, rotation_verified: Ok(false) };
    (e, ev)
}

fn two_event_log() -> (TransparencyLog, String, String) {
    let mut log = TransparencyLog::new();
    let (e0, v0) = event("id-a", 0, NameAction::Register, &owner(), None);
    let h0 = log.append(e0, v0, "profile-0").unwrap();
    let (e1, v1) = event("id-a", 1, NameAction::Update, &owner(), Some(h0.clone()));
    let h1 = log.append(e1, v1, "profile-1").unwrap();
    (log, h0, h1)
}

fn leaves(n: u8) -> Vec<Vec<u8>> {
    (0..n).map(|i| leaf_hash(&[i])).collect()
}

#[test]
fn merkle_hashes_are_domain_separated_sha256() {
    assert_eq!(leaf_hash(b"abc"), sha(&[&[0u8][..], b"abc"].concat()));
    assert_eq!(node_hash(&[1u8; 32], &[2u8; 32]), sha(&[&[1u8][..], &[1u8; 32][..], &[2u8; 32][..]].concat()));
    assert_eq!(merkle_root(&[]), sha(b""));
    let l = leaves(3);
    let expected = node_hash(&node_hash(&l[0], &l[1]), &l[2]);
    assert_eq!(merkle_root(&l), expected);
}

#[test]
fn largest_power_of_two_below() {
    assert_eq!(largest_power_of_two_less_than(2), 1);
    assert_eq!(largest_power_of_two_less_than(5), 4);
    assert_eq!(largest_power_of_two_less_than(8), 4);
    assert_eq!(largest_power_of_two_less_than(9), 8);
}

#[test]
fn every_inclusion_proof_verifies() {
    for n in 1..9u8 {
        let l = leaves(n);
        for i in 0..n as usize {
            let p = inclusion_proof(&l, i).unwrap();
            assert_eq!(p.root_hash, hex::encode(merkle_root(&l)));
            assert!(verify_inclusion_proof(&p).unwrap(), "n={n} i={i}");
        }
        assert!(inclusion_proof(&l, n as usize).is_err());
    }
}

#[test]
fn tampered_inclusion_proof_fails() {
    let l = leaves(5);
    let mut p = inclusion_proof(&l, 2).unwrap();
    p.leaf_hash = hex::encode(leaf_hash(b"other"));
    assert_eq!(verify_inclusion_proof(&p), Ok(false));
    let mut q = inclusion_proof(&l, 2).unwrap();
    q.leaf_index = 9;
    assert_eq!(
        verify_inclusion_proof(&q),
        Err(SatsPathError::Transparency(TransparencyError::InvalidInclusionProof))
    );
}

#[test]
fn log_append_history_and_proofs() {
    let (log, h0, h1) = two_event_log();
    assert_eq!(log.events().len(), 2);
    assert_eq!(log.history("id-a").len(), 2);
    assert!(log.history("id-b").is_empty());
    assert_eq!(log.event(&h1).unwrap().sequence, 1);
    assert!(log.event("missing").is_none());
    assert!(log.verify_replay().is_ok());

    let p = log.inclusion(&h0, None).unwrap();
    assert!(verify_inclusion_proof(&p).unwrap());
    assert_eq!(p.tree_size, 2);
    let p1 = log.inclusion(&h0, Some(1)).unwrap();
    assert_eq!(p1.tree_size, 1);
    assert!(verify_inclusion_proof(&p1).unwrap());
    assert!(log.inclusion(&h1, Some(1)).is_err());

    let c = log.consistency(1, 2).unwrap();
    assert!(verify_consistency_proof(&c).unwrap());
    assert_eq!(c.old_root, p1.root_hash);
    assert_eq!(c.new_root, p.root_hash);
    assert!(log.consistency(0, 2).is_err());
    assert!(log.consistency(2, 3).is_err());
}

#[test]
fn log_refuses_breaking_events() {
    let (mut log, _h0, h1) = two_event_log();
    let (e, v) = event("id-a", 2, NameAction::Update, &owner(), Some(h1.clone()));
    assert_eq!(
        log.append(e, v, "wrong"),
        Err(SatsPathError::Transparency(TransparencyError::ProfileHashMismatch))
    );
    let (e, v) = event("id-a", 5, NameAction::Update, &owner(), Some(h1.clone()));
    assert!(matches!(
        log.append(e, v, "profile-5"),
        Err(SatsPathError::Transparency(TransparencyError::BrokenIdentifierHistory(_)))
    ));
    let (e, v) = event("id-a", 2, NameAction::Update, &sk(4), Some(h1.clone()));
    assert_eq!(
        log.append(e, v, "profile-2"),
        Err(SatsPathError::Transparency(TransparencyError::UnauthorizedKeyReplacement))
    );
    let (e, v) = event("id-a", 2, NameAction::RecoverKey, &owner(), Some(h1.clone()));
    assert_eq!(
        log.append(e, v, "profile-2"),
        Err(SatsPathError::Transparency(TransparencyError::RecoveryDisabled))
    );
    assert_eq!(log.events().len(), 2);
}

#[test]
fn revoked_identifier_takes_no_more_events() {
    let (mut log, _h0, h1) = two_event_log();
    let (e, v) = event("id-a", 2, NameAction::Revoke, &owner(), Some(h1));
    let h2 = log.append(e, v, "profile-2").unwrap();
    let (e, v) = event("id-a", 3, NameAction::Update, &owner(), Some(h2));
    assert_eq!(
        log.append(e, v, "profile-3"),
        Err(SatsPathError::Transparency(TransparencyError::IdentifierRevoked))
    );
}

#[test]
fn rotation_needs_a_verified_dual_proof() {
    let (e0, v0) = event("id-r", 0, NameAction::Register, &owner(), None);
    let (mut e1, mut v1) = event("id-r", 1, NameAction::RotateKey, &owner(), Some(v0.event_hash.clone()));
    e1.identity_pubkey = pubkey_hex_of(&sk(5));
    e1.rotation = Some(RotationProof {
        previous_pubkey: pubkey_hex_of(&owner()),
        new_pubkey: pubkey_hex_of(&sk(5)),
        identifier_hash: "id-r".into(),
        previous_event_hash: v0.event_hash.clone(),
        sequence: 1,
    });
    v1.rotation_verified = Ok(true);
    let events = vec![e0.clone(), e1.clone()];
    let evidence = vec![EventEvidence { event_hash: v0.event_hash.clone(), signing_message: v0.signing_message.clone(), rotation_verified: Ok(false) }, EventEvidence { event_hash: v1.event_hash.clone(), signing_message: v1.signing_message.clone(), rotation_verified: Ok(true) }];
    assert!(verify_identifier_history(&events, &evidence).is_ok());
    assert_eq!(verify_key_continuity(&events, &evidence), Ok(true));
    let refused = vec![v0, EventEvidence { rotation_verified: Ok(false), ..v1 }];
    assert!(matches!(
        verify_identifier_history(&events, &refused),
        Err(SatsPathError::Transparency(TransparencyError::InvalidRotation(_)))
    ));
}

#[test]
fn empty_history_refused() {
    assert!(matches!(
        verify_identifier_history(&[], &[]),
        Err(SatsPathError::Transparency(TransparencyError::BrokenIdentifierHistory(_)))
    ));
}

#[test]
fn status_counts_the_log() {
    let (mut log, _h0, h1) = two_event_log();
    let (e, v) = event("id-b", 0, NameAction::Register, &sk(6), None);
    log.append(e, v, "profile-0").unwrap();
    let (e, v) = event("id-a", 2, NameAction::Revoke, &owner(), Some(h1));
    log.append(e, v, "profile-2").unwrap();
    let st = log.status(None).unwrap();
    assert_eq!(st.log_size, 4);
    assert_eq!(st.registered_identifiers, 2);
    assert_eq!(st.key_rotations, 0);
    assert_eq!(st.revocations, 1);
    assert_eq!(st.latest_checkpoint_hash, None);
    assert_eq!(st.consistency_status, "valid");
    assert_eq!(st.log_root, log.inclusion(&log.evidence()[0].event_hash.clone(), None).unwrap().root_hash);
}

fn signed_checkpoint(log: &TransparencyLog) -> TransparencyCheckpoint {
    let mut c = log.checkpoint_draft(&operator(), 1_000, None).unwrap();
    let json = format!("{{\"log_root\":\"{}\",\"log_size\":{}}}", c.log_root, c.log_size);
    c.sign(&json, &operator());
    c
}

fn checkpoint_json(c: &TransparencyCheckpoint) -> String {
    format!("{{\"log_root\":\"{}\",\"log_size\":{}}}", c.log_root, c.log_size)
}

#[test]
fn checkpoints_sign_verify_and_pin() {
    let (mut log, _h0, _h1) = two_event_log();
    let c = signed_checkpoint(&log);
    assert_eq!(c.operator_pubkey, pubkey_hex_of(&operator()));
    assert!(verify_checkpoint(&c, &checkpoint_json(&c)).unwrap());
    assert!(!verify_checkpoint(&c, "{}").unwrap());
    let hash = TransparencyCheckpoint::checkpoint_hash("{}");
    let expected = hex::encode(sha(b"SatsPathTransparencyCheckpointHashV1{}"));
    assert_eq!(hash, expected);

    let mut pins: Vec<PinnedCheckpoint> = Vec::new();
    let pin = pin_checkpoint(&mut pins, &c, hash.clone(), 50);
    assert_eq!(pins.len(), 1);
    assert_eq!(pin.first_seen_at, 50);
    let again = pin_checkpoint(&mut pins, &c, hash, 60);
    assert_eq!(pins.len(), 1);
    assert_eq!(again.first_seen_at, 50);
    assert_eq!(again.last_seen_at, 60);

    log.record_checkpoint(c.clone());
    assert_eq!(log.checkpoints().len(), 1);
    let st = log.status(Some("{}")).unwrap();
    assert_eq!(st.latest_checkpoint_hash, Some(TransparencyCheckpoint::checkpoint_hash("{}")));
}

#[test]
fn checkpoint_transitions() {
    let (mut log, _h0, h1) = two_event_log();
    let c2 = signed_checkpoint(&log);
    let pinned = PinnedCheckpoint {
        operator_pubkey: c2.operator_pubkey.clone(),
        tree_size: 2,
        root_hash: c2.log_root.clone(),
        checkpoint_hash: String::new(),
        first_seen_at: 0,
        last_seen_at: 0,
    };
    assert!(verify_checkpoint_transition(&pinned, &c2, &checkpoint_json(&c2), None).is_ok());

    let (e, v) = event("id-a", 2, NameAction::Update, &owner(), Some(h1));
    log.append(e, v, "profile-2").unwrap();
    let c3 = signed_checkpoint(&log);
    let proof = log.consistency(2, 3).unwrap();
    assert!(verify_checkpoint_transition(&pinned, &c3, &checkpoint_json(&c3), Some(&proof)).is_ok());
    assert_eq!(
        verify_checkpoint_transition(&pinned, &c3, &checkpoint_json(&c3), None),
        Err(SatsPathError::Transparency(TransparencyError::InvalidConsistencyProof))
    );
    let ahead = PinnedCheckpoint { tree_size: 5, ..pinned.clone() };
    assert_eq!(
        verify_checkpoint_transition(&ahead, &c3, &checkpoint_json(&c3), None),
        Err(SatsPathError::Transparency(TransparencyError::CheckpointRollback))
    );
    let other_operator = PinnedCheckpoint { operator_pubkey: pubkey_hex_of(&owner()), ..pinned };
    assert_eq!(
        verify_checkpoint_transition(&other_operator, &c3, &checkpoint_json(&c3), Some(&proof)),
        Err(SatsPathError::Transparency(TransparencyError::InvalidCheckpointSignature))
    );
}

#[test]
fn log_from_records_replays_histories() {
    let (e0, v0) = event("id-x", 0, NameAction::Register, &owner(), None);
    let (e1, v1) = event("id-x", 1, NameAction::Update, &owner(), Some(v0.event_hash.clone()));
    let (e2, v2) = event("id-x", 1, NameAction::Update, &owner(), Some(v0.event_hash.clone()));
    let log = TransparencyLog::from_records(vec![e0.clone(), e1], vec![v0, v1], Vec::new()).unwrap();
    assert_eq!(log.events().len(), 2);
    let (_e0b, v0b) = event("id-x", 0, NameAction::Register, &owner(), None);
    let bad = TransparencyLog::from_records(vec![e0.clone(), e2.clone(), e2], vec![v0b, v2], Vec::new());
    assert!(matches!(bad, Err(SatsPathError::Transparency(TransparencyError::CorruptStore(_)))));
    let (e3, v3) = event("id-y", 1, NameAction::Update, &owner(), None);
    assert!(matches!(
        TransparencyLog::from_records(vec![e3], vec![v3], Vec::new()),
        Err(SatsPathError::Transparency(TransparencyError::BrokenIdentifierHistory(_)))
    ));
}

#[test]
fn event_profile_must_match_the_event() {
    let key = owner();
    let profile = PaymentProfile {
        alias: "ev@example.com".into(),
        identity_pubkey: pubkey_hex_of(&key),
        methods: Vec::new(),
        updated_at: 1,
        expires_at: None,
        sequence: None,
        preferences: Vec::new(),
        nonce: None,
        rotation: None,
        method_verifications: Vec::new(),
    };
    let bytes = b"canonical profile".to_vec();
    let signed: SignedPaymentProfile = sign_profile(profile, &bytes, &key);
    let (e0, _v0) = event("id-ev", 0, NameAction::Register, &key, None);
    assert_eq!(verify_event_profile(&e0, &signed, "profile-0", &bytes), Ok(true));
    assert_eq!(verify_event_profile(&e0, &signed, "profile-0", b"other"), Ok(false));
    assert_eq!(
        verify_event_profile(&e0, &signed, "profile-9", &bytes),
        Err(SatsPathError::Transparency(TransparencyError::ProfileHashMismatch))
    );
}

#[test]
fn transition_to_the_same_checkpoint_and_a_split_view() {
    let (log, _h0, _h1) = two_event_log();
    let c = signed_checkpoint(&log);
    assert_eq!(c.version, 1);
    assert!(verify_checkpoint(&c, &checkpoint_json(&c)).unwrap());
    let pinned = PinnedCheckpoint {
        operator_pubkey: c.operator_pubkey.clone(),
        tree_size: c.log_size,
        root_hash: c.log_root.clone(),
        checkpoint_hash: String::new(),
        first_seen_at: 0,
        last_seen_at: 0,
    };
    assert_eq!(verify_checkpoint_transition(&pinned, &c, &checkpoint_json(&c), None), Ok(()));
    let split = PinnedCheckpoint { root_hash: "00".repeat(32), ..pinned };
    assert_eq!(
        verify_checkpoint_transition(&split, &c, &checkpoint_json(&c), None),
        Err(SatsPathError::Transparency(TransparencyError::ConflictingCheckpoint))
    );
}

#[test]
fn create_checkpoint_signs_and_records() {
    let (mut log, _h0, _h1) = two_event_log();
    let draft = log.checkpoint_draft(&operator(), 1_000, None).unwrap();
    let json = checkpoint_json(&draft);
    let c = log.create_checkpoint(&operator(), 1_000, None, &json).unwrap();
    assert!(verify_checkpoint(&c, &json).unwrap());
    assert_eq!(c.log_size, 2);
    assert_eq!(c.log_root, draft.log_root);
    assert_eq!(c.operator_pubkey, pubkey_hex_of(&operator()));
    assert_eq!(log.checkpoints().len(), 1);
    assert_eq!(log.checkpoints()[0], c);

    let mut empty = TransparencyLog::new();
    assert_eq!(
        empty.create_checkpoint(&operator(), 1, None, "{}"),
        Err(SatsPathError::Transparency(TransparencyError::CorruptStore("cannot checkpoint an empty log".into())))
    );
    assert!(empty.checkpoints().is_empty());
}
