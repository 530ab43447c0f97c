//! The transparency log held in memory: events with their evidence, and
//! checkpoints. Reading and writing its files is the caller's part.

use vstd::prelude::*;
use crate::crypto::{pubkey_hex_of, pubkey_of, SecretKey, SigCheck};
use crate::encoding::{hex_decode, hex_decode_spec, hex_encode, hex_encode_spec, hex_valid};
use crate::errors::{SatsPathError, TransparencyError};
use crate::profile::copy_opt;
use crate::text::str_eq;
use crate::transparency::checkpoint::{checkpoint_check, checkpoint_hash_spec, TransparencyCheckpoint};
use crate::transparency::events::{EventEvidence, NameAction, NameEvent};
use crate::transparency::history::{failure_result, history_outcome, verify_identifier_history};
use crate::transparency::proofs::{MerkleConsistencyProof, MerkleInclusionProof};
use crate::transparency::tree::{inclusion_proof, leaf_hash, leaf_hash_spec, merkle_root, mroot, views};
use crate::transparency::verify::{consistency_verdict, hash_text_ok, inclusion_verdict, texts};

verus! {

/// Summary counts of the log.
#[derive(Debug, Clone, PartialEq, Eq)]
pub struct TransparencyStatus {
    pub log_size: u64,
    pub log_root: String,
    pub latest_checkpoint_hash: Option<String>,
    pub registered_identifiers: u64,
    pub key_rotations: u64,
    pub revocations: u64,
    pub map_root: Option<String>,
    pub consistency_status: String,
}

/// The append-only log of name events and its checkpoints.
pub struct TransparencyLog {
    events: Vec<NameEvent>,
    evidence: Vec<EventEvidence>,
    checkpoints: Vec<TransparencyCheckpoint>,
}

/// The events (with their evidence) of identifier `id` among the first `n`.
pub open spec fn hist(events: Seq<NameEvent>, evs: Seq<EventEvidence>, id: Seq<char>, n: nat) -> (
    Seq<NameEvent>,
    Seq<EventEvidence>,
)
    decreases n,
{
    if n == 0 {
        (Seq::empty(), Seq::empty())
    } else {
        let (a, b) = hist(events, evs, id, (n - 1) as nat);
        if events[n - 1].identifier_hash@ == id {
            (a.push(events[n - 1]), b.push(evs[n - 1]))
        } else {
            (a, b)
        }
    }
}

/// The full history of identifier `id` in the log.
pub open spec fn id_history(events: Seq<NameEvent>, evs: Seq<EventEvidence>, id: Seq<char>) -> (
    Seq<NameEvent>,
    Seq<EventEvidence>,
) {
    hist(events, evs, id, events.len())
}

/// Every identifier in the log has an accepted history.
pub open spec fn replay_ok(events: Seq<NameEvent>, evs: Seq<EventEvidence>) -> bool {
    forall|j: int|
        0 <= j < events.len() ==> #[trigger] history_outcome(
            id_history(events, evs, events[j].identifier_hash@).0,
            id_history(events, evs, events[j].identifier_hash@).1,
        ) is Ok
}

/// The leaf hashes of the first `n` events: the leaf hash of each decoded
/// event hash.
pub open spec fn log_leaves(evs: Seq<EventEvidence>, n: nat) -> Seq<Seq<u8>> {
    Seq::new(n, |j: int| leaf_hash_spec(hex_decode_spec(evs[j].event_hash@)))
}

/// The first `n` event hashes are hex.
pub open spec fn hashes_hex(evs: Seq<EventEvidence>, n: nat) -> bool {
    forall|j: int| 0 <= j < n ==> hex_valid((#[trigger] evs[j]).event_hash@)
}

/// The tree size a proof is asked for: the given size, or the whole log.
pub open spec fn requested_size(tree_size: Option<u64>, len: nat) -> nat {
    match tree_size {
        Some(s) => s as nat,
        None => len,
    }
}

/// `i` is the first of the first `n` events whose hash is `h`.
pub open spec fn is_first_with_hash(evs: Seq<EventEvidence>, h: Seq<char>, n: nat, i: int) -> bool {
    0 <= i < n && evs[i].event_hash@ == h && forall|j: int| 0 <= j < i ==> (#[trigger] evs[j]).event_hash@ != h
}

/// How many of the first `n` events carry action `a`.
pub open spec fn count_action(events: Seq<NameEvent>, a: NameAction, n: nat) -> nat
    decreases n,
{
    if n == 0 {
        0
    } else {
        count_action(events, a, (n - 1) as nat) + if events[n - 1].action == a {
            1nat
        } else {
            0nat
        }
    }
}

/// Event `j` is the first registration of its identifier.
pub open spec fn first_registration(events: Seq<NameEvent>, j: int) -> bool {
    &&& events[j].action == NameAction::Register
    &&& forall|k: int|
        0 <= k < j ==> !((#[trigger] events[k]).action == NameAction::Register
            && events[k].identifier_hash@ == events[j].identifier_hash@)
}

/// How many distinct identifiers the first `n` events register: the number
/// of first registrations among them.
pub open spec fn registered_count(events: Seq<NameEvent>, n: nat) -> nat
    decreases n,
{
    if n == 0 {
        0
    } else {
        registered_count(events, (n - 1) as nat) + if first_registration(events, n - 1) {
            1nat
        } else {
            0nat
        }
    }
}

proof fn lemma_count_bounded(events: Seq<NameEvent>, a: NameAction, n: nat)
    ensures
        count_action(events, a, n) <= n,
        registered_count(events, n) <= n,
    decreases n,
{
    if n > 0 {
        lemma_count_bounded(events, a, (n - 1) as nat);
    }
}

proof fn lemma_hist_len(events: Seq<NameEvent>, evs: Seq<EventEvidence>, id: Seq<char>, n: nat)
    ensures
        hist(events, evs, id, n).0.len() == hist(events, evs, id, n).1.len(),
    decreases n,
{
    if n > 0 {
        lemma_hist_len(events, evs, id, (n - 1) as nat);
    }
}

proof fn lemma_hist_prefix(
    events: Seq<NameEvent>,
    evs: Seq<EventEvidence>,
    e2: Seq<NameEvent>,
    v2: Seq<EventEvidence>,
    id: Seq<char>,
    n: nat,
)
    requires
        n <= events.len(),
        n <= e2.len(),
        n <= evs.len(),
        n <= v2.len(),
        forall|j: int| 0 <= j < n ==> events[j] == e2[j] && evs[j] == v2[j],
    ensures
        hist(events, evs, id, n) == hist(e2, v2, id, n),
    decreases n,
{
    if n > 0 {
        lemma_hist_prefix(events, evs, e2, v2, id, (n - 1) as nat);
    }
}

impl TransparencyLog {
    #[verifier::type_invariant]
    spec fn inv(self) -> bool {
        self.events@.len() == self.evidence@.len()
    }

    /// The events, in log order.
    pub closed spec fn events_view(&self) -> Seq<NameEvent> {
        self.events@
    }

    /// The evidence of each event, in log order.
    pub closed spec fn evidence_view(&self) -> Seq<EventEvidence> {
        self.evidence@
    }

    /// The checkpoints, oldest first.
    pub closed spec fn checkpoints_view(&self) -> Seq<TransparencyCheckpoint> {
        self.checkpoints@
    }

    /// An empty log.
    pub fn new() -> (r: Self)
        ensures
            r.events_view() == Seq::<NameEvent>::empty(),
            r.evidence_view() == Seq::<EventEvidence>::empty(),
            r.checkpoints_view() == Seq::<TransparencyCheckpoint>::empty(),
    {
        TransparencyLog { events: Vec::new(), evidence: Vec::new(), checkpoints: Vec::new() }
    }

    /// A log read back from storage; refused unless every identifier's history
    /// is accepted.
    pub fn from_records(
        events: Vec<NameEvent>,
        evidence: Vec<EventEvidence>,
        checkpoints: Vec<TransparencyCheckpoint>,
    ) -> (r: Result<Self, SatsPathError>)
        ensures
            r matches Ok(log) ==> log.events_view() == events@ && log.evidence_view() == evidence@
                && log.checkpoints_view() == checkpoints@ && replay_ok(events@, evidence@),
            r is Ok <==> (events@.len() == evidence@.len() && replay_ok(events@, evidence@)),
    {
        if events.len() != evidence.len() {
            return Err(
                SatsPathError::Transparency(
                    TransparencyError::CorruptStore("events and evidence differ".to_string()),
                ),
            );
        }
        let log = TransparencyLog { events, evidence, checkpoints };
        match log.verify_replay() {
            Ok(()) => Ok(log),
            Err(e) => Err(e),
        }
    }

    /// The events, in log order.
    pub fn events(&self) -> (r: &[NameEvent])
        ensures
            r@ == self.events_view(),
    {
        self.events.as_slice()
    }

    /// The evidence of each event, in log order.
    pub fn evidence(&self) -> (r: &[EventEvidence])
        ensures
            r@ == self.evidence_view(),
            r@.len() == self.events_view().len(),
    {
        proof {
            use_type_invariant(self);
        }
        self.evidence.as_slice()
    }

    /// The checkpoints, oldest first.
    pub fn checkpoints(&self) -> (r: &[TransparencyCheckpoint])
        ensures
            r@ == self.checkpoints_view(),
    {
        self.checkpoints.as_slice()
    }

    /// The first event with the given hash.
    pub fn event(&self, hash: &str) -> (r: Option<&NameEvent>)
        ensures
            match r {
                Some(e) => exists|i: int|
                    is_first_with_hash(self.evidence_view(), hash@, self.events_view().len(), i)
                        && *e == self.events_view()[i],
                None => forall|i: int|
                    0 <= i < self.events_view().len() ==> (#[trigger] self.evidence_view()[i]).event_hash@
                        != hash@,
            },
    {
        proof {
            use_type_invariant(self);
        }
        match self.position(hash, self.events.len()) {
            Some(i) => {
                assert(is_first_with_hash(self.evidence_view(), hash@, self.events_view().len(), i as int));
                Some(&self.events[i])
            },
            None => None,
        }
    }

    fn position(&self, hash: &str, n: usize) -> (r: Option<usize>)
        requires
            n <= self.events@.len(),
            self.events@.len() == self.evidence@.len(),
        ensures
            match r {
                Some(i) => is_first_with_hash(self.evidence@, hash@, n as nat, i as int),
                None => forall|i: int| 0 <= i < n ==> (#[trigger] self.evidence@[i]).event_hash@ != hash@,
            },
    {
        let mut i: usize = 0;
        while i < n
            invariant
                n <= self.evidence@.len(),
                i <= n,
                forall|j: int| 0 <= j < i ==> (#[trigger] self.evidence@[j]).event_hash@ != hash@,
            decreases n - i,
        {
            if str_eq(self.evidence[i].event_hash.as_str(), hash) {
                return Some(i);
            }
            i = i + 1;
        }
        None
    }

    /// The events of one identifier, in log order.
    pub fn history(&self, identifier_hash: &str) -> (r: Vec<&NameEvent>)
        ensures
            r@.map_values(|e: &NameEvent| *e) == id_history(
                self.events_view(),
                self.evidence_view(),
                identifier_hash@,
            ).0,
    {
        proof {
            use_type_invariant(self);
        }
        let mut r: Vec<&NameEvent> = Vec::new();
        let mut i: usize = 0;
        while i < self.events.len()
            invariant
                i <= self.events@.len(),
                r@.map_values(|e: &NameEvent| *e) == hist(self.events@, self.evidence@, identifier_hash@, i as nat).0,
            decreases self.events.len() - i,
        {
            if str_eq(self.events[i].identifier_hash.as_str(), identifier_hash) {
                r.push(&self.events[i]);
            }
            proof {
                assert(r@.map_values(|e: &NameEvent| *e) =~= hist(self.events@, self.evidence@, identifier_hash@, (i + 1) as nat).0);
            }
            i = i + 1;
        }
        r
    }

    fn history_records(&self, identifier_hash: &str) -> (r: (Vec<NameEvent>, Vec<EventEvidence>))
        requires
            self.events@.len() == self.evidence@.len(),
        ensures
            (r.0@, r.1@) == id_history(self.events@, self.evidence@, identifier_hash@),
    {
        let mut a: Vec<NameEvent> = Vec::new();
        let mut b: Vec<EventEvidence> = Vec::new();
        let mut i: usize = 0;
        while i < self.events.len()
            invariant
                self.events@.len() == self.evidence@.len(),
                i <= self.events@.len(),
                (a@, b@) == hist(self.events@, self.evidence@, identifier_hash@, i as nat),
            decreases self.events.len() - i,
        {
            if str_eq(self.events[i].identifier_hash.as_str(), identifier_hash) {
                a.push(self.events[i].copy());
                b.push(copy_evidence(&self.evidence[i]));
            }
            i = i + 1;
        }
        (a, b)
    }

    /// Summary counts of the log. `latest_core_json` is the canonical JSON of
    /// the latest checkpoint without signature and anchor, when there is one.
    pub fn status(&self, latest_core_json: Option<&str>) -> (r: Result<TransparencyStatus, SatsPathError>)
        requires
            latest_core_json is Some <==> self.checkpoints_view().len() > 0,
        ensures
            r is Ok <==> hashes_hex(self.evidence_view(), self.events_view().len()),
            r matches Ok(st) ==> {
                &&& st.log_size == self.events_view().len()
                &&& st.log_root@ == hex_encode_spec(mroot(log_leaves(self.evidence_view(), self.events_view().len())))
                &&& latest_core_json matches Some(j) ==> (st.latest_checkpoint_hash matches Some(h) && h@
                    == checkpoint_hash_spec(j@))
                &&& latest_core_json is None ==> st.latest_checkpoint_hash is None
                &&& st.registered_identifiers == registered_count(self.events_view(), self.events_view().len())
                &&& st.key_rotations == count_action(self.events_view(), NameAction::RotateKey, self.events_view().len())
                &&& st.revocations == count_action(self.events_view(), NameAction::Revoke, self.events_view().len())
                &&& st.map_root is None
                &&& st.consistency_status@ == "valid"@
            },
    {
        proof {
            use_type_invariant(self);
        }
        let leaves = match self.leaf_hashes(self.events.len()) {
            Ok(v) => v,
            Err(e) => return Err(e),
        };
        let root = merkle_root(leaves.as_slice());
        let n = self.events.len();
        let mut registered: u64 = 0;
        let mut rotations: u64 = 0;
        let mut revocations: u64 = 0;
        let mut i: usize = 0;
        while i < n
            invariant
                n == self.events@.len(),
                i <= n,
                registered == registered_count(self.events@, i as nat),
                rotations == count_action(self.events@, NameAction::RotateKey, i as nat),
                revocations == count_action(self.events@, NameAction::Revoke, i as nat),
            decreases n - i,
        {
            proof {
                lemma_count_bounded(self.events@, NameAction::RotateKey, i as nat);
                lemma_count_bounded(self.events@, NameAction::Revoke, i as nat);
            }
            let action = self.events[i].action;
            if matches!(action, NameAction::RotateKey) {
                rotations = rotations + 1;
            }
            if matches!(action, NameAction::Revoke) {
                revocations = revocations + 1;
            }
            if matches!(action, NameAction::Register) && self.first_registration_at(i) {
                registered = registered + 1;
            }
            i = i + 1;
        }
        let latest = match latest_core_json {
            Some(j) => Some(TransparencyCheckpoint::checkpoint_hash(j)),
            None => None,
        };
        let status_text = "valid".to_string();
        proof {
            reveal_strlit("valid");
        }
        Ok(TransparencyStatus {
            log_size: n as u64,
            log_root: hex_encode(root.as_slice()),
            latest_checkpoint_hash: latest,
            registered_identifiers: registered,
            key_rotations: rotations,
            revocations,
            map_root: None,
            consistency_status: status_text,
        })
    }

    fn first_registration_at(&self, j: usize) -> (r: bool)
        requires
            j < self.events@.len(),
            self.events@[j as int].action == NameAction::Register,
        ensures
            r == first_registration(self.events@, j as int),
    {
        let mut k: usize = 0;
        while k < j
            invariant
                j < self.events@.len(),
                k <= j,
                forall|m: int|
                    0 <= m < k ==> !((#[trigger] self.events@[m]).action == NameAction::Register
                        && self.events@[m].identifier_hash@ == self.events@[j as int].identifier_hash@),
            decreases j - k,
        {
            if matches!(self.events[k].action, NameAction::Register) && str_eq(
                self.events[k].identifier_hash.as_str(),
                self.events[j].identifier_hash.as_str(),
            ) {
                return false;
            }
            k = k + 1;
        }
        true
    }

    /// Checks every identifier's history, identifiers taken in order of first
    /// appearance.
    pub fn verify_replay(&self) -> (r: Result<(), SatsPathError>)
        ensures
            r is Ok <==> replay_ok(self.events_view(), self.evidence_view()),
    {
        proof {
            use_type_invariant(self);
        }
        let n = self.events.len();
        let mut i: usize = 0;
        while i < n
            invariant
                n == self.events@.len(),
                self.events@.len() == self.evidence@.len(),
                i <= n,
                forall|j: int| 0 <= j < i ==> #[trigger] history_outcome(
                    id_history(self.events@, self.evidence@, self.events@[j].identifier_hash@).0,
                    id_history(self.events@, self.evidence@, self.events@[j].identifier_hash@).1,
                ) is Ok,
            decreases n - i,
        {
            let (a, b) = self.history_records(self.events[i].identifier_hash.as_str());
            proof {
                lemma_hist_len(self.events@, self.evidence@, self.events@[i as int].identifier_hash@, n as nat);
            }
            match verify_identifier_history(a.as_slice(), b.as_slice()) {
                Ok(()) => {},
                Err(e) => return Err(e),
            }
            i = i + 1;
        }
        Ok(())
    }

    /// The leaf hashes of the first `size` events.
    pub fn leaf_hashes(&self, size: usize) -> (r: Result<Vec<Vec<u8>>, SatsPathError>)
        ensures
            r is Ok <==> (size <= self.events_view().len() && hashes_hex(self.evidence_view(), size as nat)),
            r matches Ok(v) ==> views(v@) == log_leaves(self.evidence_view(), size as nat) && forall|j: int|
                0 <= j < v@.len() ==> (#[trigger] v@[j])@.len() == 32,
    {
        proof {
            use_type_invariant(self);
        }
        if size > self.events.len() {
            return Err(SatsPathError::Transparency(TransparencyError::InvalidConsistencyProof));
        }
        let mut out: Vec<Vec<u8>> = Vec::new();
        let mut i: usize = 0;
        while i < size
            invariant
                size <= self.evidence@.len(),
                i <= size,
                out@.len() == i,
                hashes_hex(self.evidence@, i as nat),
                forall|j: int| 0 <= j < i ==> (#[trigger] out@[j])@ == leaf_hash_spec(
                    hex_decode_spec(self.evidence@[j].event_hash@),
                ),
                forall|j: int| 0 <= j < i ==> (#[trigger] out@[j])@.len() == 32,
            decreases size - i,
        {
            let bytes = match hex_decode(self.evidence[i].event_hash.as_str()) {
                Ok(b) => b,
                Err(_) => {
                    return Err(
                        SatsPathError::Transparency(
                            TransparencyError::CorruptStore("event hash".to_string()),
                        ),
                    )
                },
            };
            out.push(leaf_hash(bytes.as_slice()));
            i = i + 1;
        }
        assert(views(out@) =~= log_leaves(self.evidence@, size as nat));
        Ok(out)
    }

    /// An inclusion proof for the event with hash `event_hash` in the tree of
    /// the first `tree_size` events (all of them when `None`). It verifies.
    pub fn inclusion(&self, event_hash: &str, tree_size: Option<u64>) -> (r: Result<
        MerkleInclusionProof,
        SatsPathError,
    >)
        requires
            tree_size matches Some(s) ==> s <= self.events_view().len(),
        ensures
            r is Ok <==> ({
                &&& exists|i: int|
                    is_first_with_hash(
                        self.evidence_view(),
                        event_hash@,
                        requested_size(tree_size, self.events_view().len()),
                        i,
                    )
                &&& hashes_hex(self.evidence_view(), requested_size(tree_size, self.events_view().len()))
            }),
            r matches Ok(p) ==> {
                &&& inclusion_verdict(p) == Some(true)
                &&& p.tree_size == requested_size(tree_size, self.events_view().len())
                &&& is_first_with_hash(self.evidence_view(), event_hash@, p.tree_size as nat, p.leaf_index as int)
                &&& p.root_hash@ == hex_encode_spec(mroot(log_leaves(self.evidence_view(), p.tree_size as nat)))
            },
    {
        proof {
            use_type_invariant(self);
        }
        let size: usize = match tree_size {
            Some(s) => {
                let n: usize = self.events.len();
                assert(s <= n);
                s as usize
            },
            None => self.events.len(),
        };
        assert(size as nat == requested_size(tree_size, self.events_view().len()));
        let index = match self.position(event_hash, size) {
            Some(i) => i,
            None => return Err(SatsPathError::Transparency(TransparencyError::InvalidInclusionProof)),
        };
        let leaves = match self.leaf_hashes(size) {
            Ok(v) => v,
            Err(e) => return Err(e),
        };
        assert(views(leaves@).len() == leaves@.len());
        assert(is_first_with_hash(self.evidence@, event_hash@, size as nat, index as int));
        match inclusion_proof(leaves.as_slice(), index) {
            Ok(p) => {
                assert(is_first_with_hash(
                    self.evidence_view(),
                    event_hash@,
                    requested_size(tree_size, self.events_view().len()),
                    index as int,
                ));
                Ok(p)
            },
            Err(e) => Err(SatsPathError::Transparency(e)),
        }
    }

    /// A consistency proof from the tree of the first `old_size` events to
    /// that of the first `new_size`. It verifies.
    pub fn consistency(&self, old_size: u64, new_size: u64) -> (r: Result<MerkleConsistencyProof, SatsPathError>)
        ensures
            r is Ok <==> (0 < old_size <= new_size <= self.events_view().len() && hashes_hex(
                self.evidence_view(),
                new_size as nat,
            )),
            r matches Ok(p) ==> {
                &&& consistency_verdict(p) == Some(true)
                &&& p.old_tree_size == old_size
                &&& p.new_tree_size == new_size
                &&& p.old_root@ == hex_encode_spec(mroot(log_leaves(self.evidence_view(), old_size as nat)))
                &&& p.new_root@ == hex_encode_spec(mroot(log_leaves(self.evidence_view(), new_size as nat)))
            },
    {
        proof {
            use_type_invariant(self);
        }
        if old_size == 0 || old_size > new_size || new_size > self.events.len() as u64 {
            return Err(SatsPathError::Transparency(TransparencyError::InvalidConsistencyProof));
        }
        let leaves = match self.leaf_hashes(new_size as usize) {
            Ok(v) => v,
            Err(e) => return Err(e),
        };
        assert(leaves@.len() == views(leaves@).len());
        let old_leaves = vstd::slice::slice_subrange(leaves.as_slice(), 0, old_size as usize);
        let old_root = merkle_root(old_leaves);
        let new_root = merkle_root(leaves.as_slice());
        let mut audit: Vec<String> = Vec::new();
        let mut i: usize = 0;
        while i < leaves.len()
            invariant
                i <= leaves@.len(),
                audit@.len() == i,
                forall|j: int| 0 <= j < i ==> (#[trigger] audit@[j])@ == hex_encode_spec(leaves@[j]@),
            decreases leaves.len() - i,
        {
            audit.push(hex_encode(leaves[i].as_slice()));
            i = i + 1;
        }
        let p = MerkleConsistencyProof {
            version: 1,
            old_tree_size: old_size,
            new_tree_size: new_size,
            old_root: hex_encode(old_root.as_slice()),
            new_root: hex_encode(new_root.as_slice()),
            audit_path: audit,
        };
        proof {
            let lv = views(leaves@);
            assert forall|j: int| 0 <= j < p.audit_path@.len() implies hash_text_ok(#[trigger] p.audit_path@[j]@) by {
                crate::crypto::lemma_hex_roundtrip(leaves@[j]@);
            }
            let decoded = texts(p.audit_path@).map_values(|t: Seq<char>| hex_decode_spec(t));
            assert forall|j: int| 0 <= j < decoded.len() implies #[trigger] decoded[j] == lv[j] by {
                crate::crypto::lemma_hex_roundtrip(leaves@[j]@);
            }
            assert(decoded =~= lv);
            assert(views(old_leaves@) =~= lv.take(old_size as int));
            assert(log_leaves(self.evidence@, old_size as nat) =~= lv.take(old_size as int));
        }
        Ok(p)
    }

    /// Appends an event whose profile hash is `profile_hash`, after checking
    /// that the identifier's history stays accepted. Returns the event hash.
    pub fn append(&mut self, event: NameEvent, evidence: EventEvidence, profile_hash: &str) -> (r: Result<
        String,
        SatsPathError,
    >)
        ensures
            r is Ok ==> {
                &&& final(self).events_view() == old(self).events_view().push(event)
                &&& final(self).evidence_view() == old(self).evidence_view().push(evidence)
                &&& r == Ok::<String, SatsPathError>(evidence.event_hash)
                &&& event.version == 1
                &&& event.profile_hash@ == profile_hash@
                &&& history_outcome(
                    id_history(final(self).events_view(), final(self).evidence_view(), event.identifier_hash@).0,
                    id_history(final(self).events_view(), final(self).evidence_view(), event.identifier_hash@).1,
                ) is Ok
                &&& final(self).checkpoints_view() == old(self).checkpoints_view()
            },
            r is Err ==> final(self).events_view() == old(self).events_view() && final(self).evidence_view()
                == old(self).evidence_view(),
            (event.version != 1 || event.profile_hash@ != profile_hash@) ==> r == Err::<String, SatsPathError>(
                SatsPathError::Transparency(TransparencyError::ProfileHashMismatch),
            ),
            (event.version == 1 && event.profile_hash@ == profile_hash@) ==> match history_outcome(
                id_history(old(self).events_view(), old(self).evidence_view(), event.identifier_hash@).0.push(
                    event,
                ),
                id_history(old(self).events_view(), old(self).evidence_view(), event.identifier_hash@).1.push(
                    evidence,
                ),
            ) {
                Ok(()) => r is Ok,
                Err(f) => r matches Err(e) && failure_result(f, Err(e)),
            },
    {
        proof {
            use_type_invariant(&*self);
        }
        if event.version != 1 || !str_eq(event.profile_hash.as_str(), profile_hash) {
            return Err(SatsPathError::Transparency(TransparencyError::ProfileHashMismatch));
        }
        let (mut a, mut b) = self.history_records(event.identifier_hash.as_str());
        a.push(event.copy());
        b.push(copy_evidence(&evidence));
        proof {
            lemma_hist_len(self.events@, self.evidence@, event.identifier_hash@, self.events@.len());
        }
        match verify_identifier_history(a.as_slice(), b.as_slice()) {
            Ok(()) => {},
            Err(e) => return Err(e),
        }
        let hash = evidence.event_hash.clone();
        let ghost old_events = self.events@;
        let ghost old_evs = self.evidence@;
        let mut taken = TransparencyLog::new();
        std::mem::swap(&mut taken, self);
        let TransparencyLog { events: mut events, evidence: mut evs, checkpoints } = taken;
        events.push(event);
        evs.push(evidence);
        *self = TransparencyLog { events, evidence: evs, checkpoints };
        proof {
            let n = old_events.len();
            lemma_hist_prefix(old_events, old_evs, self.events@, self.evidence@, self.events@[n as int].identifier_hash@, n);
        }
        Ok(hash)
    }

    /// An unsigned checkpoint of the whole log for the operator with secret
    /// key `operator_key`, created at `created_at`, after the checkpoint
    /// whose hash is `previous_checkpoint_hash`.
    pub fn checkpoint_draft(
        &self,
        operator_key: &SecretKey,
        created_at: i64,
        previous_checkpoint_hash: Option<String>,
    ) -> (r: Result<TransparencyCheckpoint, SatsPathError>)
        ensures
            r is Ok <==> (self.events_view().len() > 0 && hashes_hex(self.evidence_view(), self.events_view().len())),
            self.events_view().len() == 0 ==> (r matches Err(
                SatsPathError::Transparency(TransparencyError::CorruptStore(m)),
            ) && m@ == "cannot checkpoint an empty log"@),
            r matches Ok(c) ==> {
                &&& c.version == 1
                &&& c.log_size == self.events_view().len()
                &&& c.log_root@ == hex_encode_spec(mroot(log_leaves(self.evidence_view(), self.events_view().len())))
                &&& c.map_root is None
                &&& c.previous_checkpoint_hash == previous_checkpoint_hash
                &&& c.created_at == created_at
                &&& c.operator_pubkey@ == hex_encode_spec(pubkey_of(operator_key@))
                &&& c.operator_signature@ == Seq::<char>::empty()
                &&& c.bitcoin_anchor is None
            },
    {
        if self.events.len() == 0 {
            return Err(
                SatsPathError::Transparency(
                    TransparencyError::CorruptStore("cannot checkpoint an empty log".to_string()),
                ),
            );
        }
        let leaves = match self.leaf_hashes(self.events.len()) {
            Ok(v) => v,
            Err(e) => return Err(e),
        };
        let root = merkle_root(leaves.as_slice());
        Ok(TransparencyCheckpoint {
            version: 1,
            log_size: self.events.len() as u64,
            log_root: hex_encode(root.as_slice()),
            map_root: None,
            previous_checkpoint_hash,
            created_at,
            operator_pubkey: pubkey_hex_of(operator_key),
            operator_signature: String::new(),
            bitcoin_anchor: None,
        })
    }

    /// Records a signed checkpoint.
    pub fn record_checkpoint(&mut self, checkpoint: TransparencyCheckpoint)
        ensures
            final(self).checkpoints_view() == old(self).checkpoints_view().push(checkpoint),
            final(self).events_view() == old(self).events_view(),
            final(self).evidence_view() == old(self).evidence_view(),
    {
        proof {
            use_type_invariant(&*self);
        }
        let mut taken = TransparencyLog::new();
        std::mem::swap(&mut taken, self);
        let TransparencyLog { events, evidence, checkpoints: mut cps } = taken;
        cps.push(checkpoint);
        *self = TransparencyLog { events, evidence, checkpoints: cps };
    }

    /// Creates, signs and records a checkpoint of the whole log for the
    /// operator with secret key `operator_key`, created at `created_at`,
    /// after the checkpoint whose hash is `previous_checkpoint_hash`.
    /// `canonical_unsigned_json` is the canonical JSON of the unsigned
    /// checkpoint (as `checkpoint_draft` gives it) that the signature covers.
    /// Refused for an empty log.
    pub fn create_checkpoint(
        &mut self,
        operator_key: &SecretKey,
        created_at: i64,
        previous_checkpoint_hash: Option<String>,
        canonical_unsigned_json: &str,
    ) -> (r: Result<TransparencyCheckpoint, SatsPathError>)
        ensures
            r is Ok <==> (old(self).events_view().len() > 0 && hashes_hex(
                old(self).evidence_view(),
                old(self).events_view().len(),
            )),
            old(self).events_view().len() == 0 ==> (r matches Err(
                SatsPathError::Transparency(TransparencyError::CorruptStore(m)),
            ) && m@ == "cannot checkpoint an empty log"@),
            r matches Ok(c) ==> {
                &&& c.version == 1
                &&& c.log_size == old(self).events_view().len()
                &&& c.log_root@ == hex_encode_spec(
                    mroot(log_leaves(old(self).evidence_view(), old(self).events_view().len())),
                )
                &&& c.map_root is None
                &&& c.previous_checkpoint_hash == previous_checkpoint_hash
                &&& c.created_at == created_at
                &&& c.operator_pubkey@ == hex_encode_spec(pubkey_of(operator_key@))
                &&& c.bitcoin_anchor is None
                &&& checkpoint_check(c, canonical_unsigned_json@) == SigCheck::Checked(true)
                &&& final(self).checkpoints_view() == old(self).checkpoints_view().push(c)
            },
            r is Err ==> final(self).checkpoints_view() == old(self).checkpoints_view(),
            final(self).events_view() == old(self).events_view(),
            final(self).evidence_view() == old(self).evidence_view(),
    {
        let mut checkpoint = match self.checkpoint_draft(operator_key, created_at, previous_checkpoint_hash) {
            Ok(c) => c,
            Err(e) => return Err(e),
        };
        checkpoint.sign(canonical_unsigned_json, operator_key);
        let recorded = TransparencyCheckpoint {
            version: checkpoint.version,
            log_size: checkpoint.log_size,
            log_root: checkpoint.log_root.clone(),
            map_root: copy_opt(&checkpoint.map_root),
            previous_checkpoint_hash: copy_opt(&checkpoint.previous_checkpoint_hash),
            created_at: checkpoint.created_at,
            operator_pubkey: checkpoint.operator_pubkey.clone(),
            operator_signature: checkpoint.operator_signature.clone(),
            bitcoin_anchor: None,
        };
        self.record_checkpoint(recorded);
        Ok(checkpoint)
    }
}

/// A copy of an event's evidence.
pub fn copy_evidence(e: &EventEvidence) -> (r: EventEvidence)
    ensures
        r == *e,
{
    let rv = match &e.rotation_verified {
        Ok(b) => Ok(*b),
        Err(err) => Err(err.copy()),
    };
    EventEvidence {
        event_hash: e.event_hash.clone(),
        signing_message: e.signing_message.clone(),
        rotation_verified: rv,
    }
}

} // verus!
