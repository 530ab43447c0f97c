//! Signed checkpoints of the log, pinned checkpoints, and transitions
//! between them.

use vstd::prelude::*;
use crate::crypto::{message_signature_hex, pubkey_of, sign_then_verify, SecretKey, sig_check, sig_check_result, sign_message, verify_message_signature, SigCheck};
use crate::encoding::{hex_encode, hex_encode_spec, sha256, sha256_digest, utf8_bytes, utf8_of};
use crate::errors::{SatsPathError, TransparencyError};
use crate::text::{push_str, str_eq, string_of};
use crate::transparency::events::BitcoinAnchor;
use crate::transparency::proofs::MerkleConsistencyProof;
use crate::transparency::verify::{consistency_verdict, verify_consistency_proof};

verus! {

/// A log checkpoint signed by the log operator.
#[derive(Debug, Clone, PartialEq, Eq)]
pub struct TransparencyCheckpoint {
    pub version: u16,
    pub log_size: u64,
    pub log_root: String,
    pub map_root: Option<String>,
    pub previous_checkpoint_hash: Option<String>,
    pub created_at: i64,
    pub operator_pubkey: String,
    pub operator_signature: String,
    pub bitcoin_anchor: Option<BitcoinAnchor>,
}

/// The checkpoint a client pinned for an operator.
#[derive(Debug, Clone, PartialEq, Eq)]
pub struct PinnedCheckpoint {
    pub operator_pubkey: String,
    pub tree_size: u64,
    pub root_hash: String,
    pub checkpoint_hash: String,
    pub first_seen_at: i64,
    pub last_seen_at: i64,
}

#[derive(Debug, Clone, Copy, PartialEq, Eq, Structural)]
pub enum CheckpointComparison {
    FirstSeen,
    Unchanged,
    ConsistentExtension,
}

/// What the operator signs: the domain line, then the canonical JSON of the
/// checkpoint with an empty signature.
pub open spec fn checkpoint_message(canonical_unsigned_json: Seq<char>) -> Seq<char> {
    "SatsPathTransparencyCheckpointV1\n"@ + canonical_unsigned_json
}

/// The checkpoint's identity: lowercase hex of the SHA-256 of the domain tag
/// followed by the canonical JSON of the checkpoint without signature and
/// without Bitcoin anchor.
pub open spec fn checkpoint_hash_spec(canonical_core_json: Seq<char>) -> Seq<char> {
    hex_encode_spec(sha256(utf8_of("SatsPathTransparencyCheckpointHashV1"@ + canonical_core_json)))
}

impl TransparencyCheckpoint {
    /// The message the operator signs, given the canonical JSON of this
    /// checkpoint with its signature cleared.
    pub fn signing_message(canonical_unsigned_json: &str) -> (r: String)
        ensures
            r@ == checkpoint_message(canonical_unsigned_json@),
    {
        let mut out: Vec<char> = Vec::new();
        push_str(&mut out, "SatsPathTransparencyCheckpointV1\n");
        push_str(&mut out, canonical_unsigned_json);
        string_of(out.as_slice())
    }

    /// Signs the checkpoint with the operator's secret key, given the
    /// canonical JSON of this checkpoint with its signature cleared.
    pub fn sign(&mut self, canonical_unsigned_json: &str, secret_key: &SecretKey)
        ensures
            final(self).operator_signature@ == message_signature_hex(
                checkpoint_message(canonical_unsigned_json@),
                secret_key@,
            ),
            *final(self) == (TransparencyCheckpoint {
                operator_signature: final(self).operator_signature,
                ..*old(self)
            }),
            (old(self).version == 1 && old(self).log_size > 0 && old(self).operator_pubkey@ == hex_encode_spec(
                pubkey_of(secret_key@),
            )) ==> checkpoint_check(*final(self), canonical_unsigned_json@) == SigCheck::Checked(true),
    {
        let message = TransparencyCheckpoint::signing_message(canonical_unsigned_json);
        self.operator_signature = sign_message(message.as_str(), secret_key);
        proof {
            sign_then_verify(checkpoint_message(canonical_unsigned_json@), secret_key@);
        }
    }

    /// The checkpoint hash, given the canonical JSON of this checkpoint with
    /// its signature and Bitcoin anchor cleared.
    pub fn checkpoint_hash(canonical_core_json: &str) -> (r: String)
        ensures
            r@ == checkpoint_hash_spec(canonical_core_json@),
    {
        let mut out: Vec<char> = Vec::new();
        push_str(&mut out, "SatsPathTransparencyCheckpointHashV1");
        push_str(&mut out, canonical_core_json);
        let text = string_of(out.as_slice());
        let bytes = utf8_bytes(text.as_str());
        let digest = sha256_digest(bytes.as_slice());
        hex_encode(digest.as_slice())
    }
}

/// How a checkpoint checks out: version 1, non-empty, and an operator
/// signature over its signing message.
pub open spec fn checkpoint_check(c: TransparencyCheckpoint, canonical_unsigned_json: Seq<char>) -> SigCheck {
    if c.version != 1 || c.log_size == 0 {
        SigCheck::Checked(false)
    } else {
        sig_check(checkpoint_message(canonical_unsigned_json), c.operator_signature@, c.operator_pubkey@)
    }
}

/// Verifies a checkpoint's operator signature, given the canonical JSON of
/// the checkpoint with its signature cleared.
pub fn verify_checkpoint(checkpoint: &TransparencyCheckpoint, canonical_unsigned_json: &str) -> (r:
    Result<bool, SatsPathError>)
    ensures
        sig_check_result(checkpoint_check(*checkpoint, canonical_unsigned_json@), r),
{
    if checkpoint.version != 1 || checkpoint.log_size == 0 {
        return Ok(false);
    }
    let message = TransparencyCheckpoint::signing_message(canonical_unsigned_json);
    verify_message_signature(
        message.as_str(),
        checkpoint.operator_signature.as_str(),
        checkpoint.operator_pubkey.as_str(),
    )
}

/// A consistency proof is given and fits the transition: from the pinned
/// size and root to the current ones.
pub open spec fn consistency_fits(
    pinned: &PinnedCheckpoint,
    current: &TransparencyCheckpoint,
    consistency: Option<&MerkleConsistencyProof>,
) -> bool {
    &&& consistency is Some
    &&& consistency->0.old_tree_size == pinned.tree_size
    &&& consistency->0.new_tree_size == current.log_size
    &&& consistency->0.old_root@ == pinned.root_hash@
    &&& consistency->0.new_root@ == current.log_root@
}

/// Checks that `current` may follow the pinned checkpoint: it verifies and is
/// the same operator's, the log did not shrink, an equal size means the same
/// root (no split view), and a larger log comes with a consistency proof from
/// the pinned root to the current one.
pub fn verify_checkpoint_transition(
    pinned: &PinnedCheckpoint,
    current: &TransparencyCheckpoint,
    canonical_unsigned_json: &str,
    consistency: Option<&MerkleConsistencyProof>,
) -> (r: Result<(), SatsPathError>)
    ensures
        r is Ok ==> {
            &&& checkpoint_check(*current, canonical_unsigned_json@) == SigCheck::Checked(true)
            &&& current.operator_pubkey@ == pinned.operator_pubkey@
            &&& current.log_size >= pinned.tree_size
            &&& current.log_size == pinned.tree_size ==> current.log_root@ == pinned.root_hash@
            &&& current.log_size > pinned.tree_size ==> (consistency matches Some(p) && {
                &&& p.old_tree_size == pinned.tree_size
                &&& p.new_tree_size == current.log_size
                &&& p.old_root@ == pinned.root_hash@
                &&& p.new_root@ == current.log_root@
                &&& consistency_verdict(*p) == Some(true)
            })
        },
        (checkpoint_check(*current, canonical_unsigned_json@) == SigCheck::Checked(false)
            || (checkpoint_check(*current, canonical_unsigned_json@) == SigCheck::Checked(true)
            && current.operator_pubkey@ != pinned.operator_pubkey@)) ==> r == Err::<(), SatsPathError>(
            SatsPathError::Transparency(TransparencyError::InvalidCheckpointSignature),
        ),
        (checkpoint_check(*current, canonical_unsigned_json@) == SigCheck::Checked(true)
            && current.operator_pubkey@ == pinned.operator_pubkey@ && current.log_size
            < pinned.tree_size) ==> r == Err::<(), SatsPathError>(
            SatsPathError::Transparency(TransparencyError::CheckpointRollback),
        ),
        (checkpoint_check(*current, canonical_unsigned_json@) == SigCheck::Checked(true)
            && current.operator_pubkey@ == pinned.operator_pubkey@ && current.log_size
            == pinned.tree_size && current.log_root@ != pinned.root_hash@) ==> r == Err::<
            (),
            SatsPathError,
        >(SatsPathError::Transparency(TransparencyError::ConflictingCheckpoint)),
        (checkpoint_check(*current, canonical_unsigned_json@) == SigCheck::Checked(true)
            && current.operator_pubkey@ == pinned.operator_pubkey@ && current.log_size > pinned.tree_size
            && !consistency_fits(pinned, current, consistency)) ==> r == Err::<(), SatsPathError>(
            SatsPathError::Transparency(TransparencyError::InvalidConsistencyProof),
        ),
        (checkpoint_check(*current, canonical_unsigned_json@) == SigCheck::Checked(true)
            && current.operator_pubkey@ == pinned.operator_pubkey@ && current.log_size > pinned.tree_size
            && consistency_fits(pinned, current, consistency)) ==> match consistency_verdict(*consistency->0) {
            Some(true) => r is Ok,
            Some(false) => r == Err::<(), SatsPathError>(
                SatsPathError::Transparency(TransparencyError::InvalidConsistencyProof),
            ),
            None => r is Err,
        },
        (checkpoint_check(*current, canonical_unsigned_json@) == SigCheck::Checked(true)
            && current.operator_pubkey@ == pinned.operator_pubkey@ && current.log_size == pinned.tree_size
            && current.log_root@ == pinned.root_hash@) ==> r is Ok,
        (checkpoint_check(*current, canonical_unsigned_json@) is BadPubkeyHex
            || checkpoint_check(*current, canonical_unsigned_json@) is BadPubkey) ==> r matches Err(
            SatsPathError::InvalidPublicKey(_),
        ),
        (checkpoint_check(*current, canonical_unsigned_json@) is BadSignatureHex
            || checkpoint_check(*current, canonical_unsigned_json@) is BadSignature) ==> r matches Err(
            SatsPathError::CryptoError(_),
        ),
{
    let ok = match verify_checkpoint(current, canonical_unsigned_json) {
        Ok(b) => b,
        Err(e) => return Err(e),
    };
    if !ok || !str_eq(current.operator_pubkey.as_str(), pinned.operator_pubkey.as_str()) {
        return Err(SatsPathError::Transparency(TransparencyError::InvalidCheckpointSignature));
    }
    if current.log_size < pinned.tree_size {
        return Err(SatsPathError::Transparency(TransparencyError::CheckpointRollback));
    }
    if current.log_size == pinned.tree_size {
        if !str_eq(current.log_root.as_str(), pinned.root_hash.as_str()) {
            return Err(SatsPathError::Transparency(TransparencyError::ConflictingCheckpoint));
        }
        return Ok(());
    }
    let proof_arg = consistency;
    let p = match proof_arg {
        Some(p) => p,
        None => return Err(SatsPathError::Transparency(TransparencyError::InvalidConsistencyProof)),
    };
    if p.old_tree_size != pinned.tree_size || p.new_tree_size != current.log_size || !str_eq(
        p.old_root.as_str(),
        pinned.root_hash.as_str(),
    ) || !str_eq(p.new_root.as_str(), current.log_root.as_str()) {
        return Err(SatsPathError::Transparency(TransparencyError::InvalidConsistencyProof));
    }
    match verify_consistency_proof(p) {
        Ok(true) => Ok(()),
        Ok(false) => Err(SatsPathError::Transparency(TransparencyError::InvalidConsistencyProof)),
        Err(e) => Err(e),
    }
}

/// Pins `checkpoint` (whose hash is `checkpoint_hash`) at time `now`: the
/// operator's existing pin moves to it, or a new pin is added. Returns the
/// pin.
pub fn pin_checkpoint(
    pins: &mut Vec<PinnedCheckpoint>,
    checkpoint: &TransparencyCheckpoint,
    checkpoint_hash: String,
    now: i64,
) -> (r: PinnedCheckpoint)
    ensures
        r.operator_pubkey@ == checkpoint.operator_pubkey@,
        r.tree_size == checkpoint.log_size,
        r.root_hash@ == checkpoint.log_root@,
        r.checkpoint_hash == checkpoint_hash,
        r.last_seen_at == now,
        match first_pin_of(old(pins)@, checkpoint.operator_pubkey@) {
            Some(i) => {
                &&& final(pins)@ == old(pins)@.update(i, r)
                &&& r.first_seen_at == old(pins)@[i].first_seen_at
            },
            None => final(pins)@ == old(pins)@.push(r) && r.first_seen_at == now,
        },
{
    let mut i: usize = 0;
    while i < pins.len()
        invariant
            i <= pins@.len(),
            pins@ == old(pins)@,
            forall|j: int| 0 <= j < i ==> (#[trigger] pins@[j]).operator_pubkey@ != checkpoint.operator_pubkey@,
        decreases pins.len() - i,
    {
        if str_eq(pins[i].operator_pubkey.as_str(), checkpoint.operator_pubkey.as_str()) {
            let pin = PinnedCheckpoint {
                operator_pubkey: pins[i].operator_pubkey.clone(),
                tree_size: checkpoint.log_size,
                root_hash: checkpoint.log_root.clone(),
                checkpoint_hash,
                first_seen_at: pins[i].first_seen_at,
                last_seen_at: now,
            };
            let copy = PinnedCheckpoint {
                operator_pubkey: pin.operator_pubkey.clone(),
                tree_size: pin.tree_size,
                root_hash: pin.root_hash.clone(),
                checkpoint_hash: pin.checkpoint_hash.clone(),
                first_seen_at: pin.first_seen_at,
                last_seen_at: pin.last_seen_at,
            };
            pins.set(i, pin);
            proof {
                assert(is_first_pin(old(pins)@, checkpoint.operator_pubkey@, i as int));
                let k = choose|k: int| is_first_pin(old(pins)@, checkpoint.operator_pubkey@, k);
                lemma_first_pin_unique(old(pins)@, checkpoint.operator_pubkey@, i as int, k);
            }
            return copy;
        }
        i = i + 1;
    }
    let pin = PinnedCheckpoint {
        operator_pubkey: checkpoint.operator_pubkey.clone(),
        tree_size: checkpoint.log_size,
        root_hash: checkpoint.log_root.clone(),
        checkpoint_hash,
        first_seen_at: now,
        last_seen_at: now,
    };
    let copy = PinnedCheckpoint {
        operator_pubkey: pin.operator_pubkey.clone(),
        tree_size: pin.tree_size,
        root_hash: pin.root_hash.clone(),
        checkpoint_hash: pin.checkpoint_hash.clone(),
        first_seen_at: pin.first_seen_at,
        last_seen_at: pin.last_seen_at,
    };
    pins.push(pin);
    copy
}

/// `i` is the first pin of the operator.
pub open spec fn is_first_pin(pins: Seq<PinnedCheckpoint>, operator: Seq<char>, i: int) -> bool {
    0 <= i < pins.len() && pins[i].operator_pubkey@ == operator && forall|j: int|
        0 <= j < i ==> (#[trigger] pins[j]).operator_pubkey@ != operator
}

/// The position of the operator's first pin, if any.
pub open spec fn first_pin_of(pins: Seq<PinnedCheckpoint>, operator: Seq<char>) -> Option<int> {
    if exists|i: int| is_first_pin(pins, operator, i) {
        Some(choose|i: int| is_first_pin(pins, operator, i))
    } else {
        None
    }
}

proof fn lemma_first_pin_unique(pins: Seq<PinnedCheckpoint>, operator: Seq<char>, i: int, j: int)
    requires
        is_first_pin(pins, operator, i),
        is_first_pin(pins, operator, j),
    ensures
        i == j,
{
    if i < j {
        assert(pins[i].operator_pubkey@ != operator);
    } else if j < i {
        assert(pins[j].operator_pubkey@ != operator);
    }
}

} // verus!
