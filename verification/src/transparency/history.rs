//! Verification of the event history of one identifier.

use vstd::prelude::*;
use crate::crypto::{sig_check, verify_message_signature, SigCheck};
use crate::errors::{SatsPathError, TransparencyError};
use crate::text::str_eq;
use crate::transparency::events::{EventEvidence, NameAction, NameEvent};

verus! {

/// Why a history is refused.
pub enum HistoryFailure {
    BadStart,
    Substitution,
    PreviousMismatch,
    Revoked,
    Recovery,
    MissingRotation,
    BadRotation,
    RotationError,
    Unauthorized,
    SignatureError,
    BadSignature,
}

pub open spec fn opt_view(o: Option<String>) -> Option<Seq<char>> {
    match o {
        Some(s) => Some(s@),
        None => None,
    }
}

/// The state carried along a history: the authorised key, the hash of the
/// previous event, and whether the identifier is revoked.
pub type HistoryState = (Seq<char>, Option<Seq<char>>, bool);

/// The key-authorisation part of one event.
pub open spec fn authorise_spec(e: NameEvent, ev: EventEvidence, auth: Seq<char>) -> Result<(), HistoryFailure> {
    if e.action == NameAction::RotateKey {
        match e.rotation {
            None => Err(HistoryFailure::MissingRotation),
            Some(r) => if r.previous_pubkey@ != auth || r.new_pubkey@ != e.identity_pubkey@
                || r.identifier_hash@ != e.identifier_hash@ || r.previous_event_hash@ != (
            match opt_view(e.previous_event_hash) {
                Some(h) => h,
                None => Seq::empty(),
            }) || r.sequence != e.sequence {
                Err(HistoryFailure::BadRotation)
            } else {
                match ev.rotation_verified {
                    Err(_) => Err(HistoryFailure::RotationError),
                    Ok(false) => Err(HistoryFailure::BadRotation),
                    Ok(true) => Ok(()),
                }
            },
        }
    } else if e.identity_pubkey@ != auth {
        Err(HistoryFailure::Unauthorized)
    } else {
        Ok(())
    }
}

/// One event of a history at position `idx`: checked against the identifier
/// and the carried state, it gives the next state or why it is refused.
#[verifier::opaque]
pub open spec fn event_step(
    e: NameEvent,
    ev: EventEvidence,
    idx: int,
    identifier: Seq<char>,
    st: HistoryState,
) -> Result<HistoryState, HistoryFailure> {
    let (auth, prev, revoked) = st;
    if e.identifier_hash@ != identifier || e.sequence != idx {
        Err(HistoryFailure::Substitution)
    } else if opt_view(e.previous_event_hash) != prev {
        Err(HistoryFailure::PreviousMismatch)
    } else if revoked {
        Err(HistoryFailure::Revoked)
    } else if e.action == NameAction::RecoverKey {
        Err(HistoryFailure::Recovery)
    } else {
        match authorise_spec(e, ev, auth) {
            Err(f) => Err(f),
            Ok(()) => match sig_check(ev.signing_message@, e.owner_signature@, auth) {
                SigCheck::Checked(true) => Ok(
                    (
                        if e.action == NameAction::RotateKey {
                            e.identity_pubkey@
                        } else {
                            auth
                        },
                        Some(ev.event_hash@),
                        e.action == NameAction::Revoke,
                    ),
                ),
                SigCheck::Checked(false) => Err(HistoryFailure::BadSignature),
                _ => Err(HistoryFailure::SignatureError),
            },
        }
    }
}

/// The events from position `idx` on, from state `st`.
pub open spec fn history_from(
    events: Seq<NameEvent>,
    evs: Seq<EventEvidence>,
    idx: nat,
    identifier: Seq<char>,
    st: HistoryState,
) -> Result<(), HistoryFailure>
    decreases events.len() - idx,
{
    if idx >= events.len() {
        Ok(())
    } else {
        match event_step(events[idx as int], evs[idx as int], idx as int, identifier, st) {
            Err(f) => Err(f),
            Ok(st2) => history_from(events, evs, idx + 1, identifier, st2),
        }
    }
}

/// Whether a history is accepted: it starts with a registration at sequence
/// 0, and every event, in order, keeps the identifier, numbers itself by its
/// position, links to the previous event's hash, follows no revocation, is
/// not a recovery, changes the key only by a rotation that the old key
/// authorised, and is signed by the key in force.
pub open spec fn history_outcome(events: Seq<NameEvent>, evs: Seq<EventEvidence>) -> Result<
    (),
    HistoryFailure,
> {
    if events.len() == 0 || events[0].action != NameAction::Register || events[0].sequence != 0 {
        Err(HistoryFailure::BadStart)
    } else {
        history_from(
            events,
            evs,
            0,
            events[0].identifier_hash@,
            (events[0].identity_pubkey@, None, false),
        )
    }
}

/// The error a refusal is reported as.
pub open spec fn failure_result(f: HistoryFailure, r: Result<(), SatsPathError>) -> bool {
    match f {
        HistoryFailure::BadStart => r matches Err(
            SatsPathError::Transparency(TransparencyError::BrokenIdentifierHistory(_)),
        ),
        HistoryFailure::Substitution => r matches Err(
            SatsPathError::Transparency(TransparencyError::BrokenIdentifierHistory(_)),
        ),
        HistoryFailure::PreviousMismatch => r matches Err(
            SatsPathError::Transparency(TransparencyError::BrokenIdentifierHistory(_)),
        ),
        HistoryFailure::Revoked => r == Err::<(), SatsPathError>(
            SatsPathError::Transparency(TransparencyError::IdentifierRevoked),
        ),
        HistoryFailure::Recovery => r == Err::<(), SatsPathError>(
            SatsPathError::Transparency(TransparencyError::RecoveryDisabled),
        ),
        HistoryFailure::MissingRotation => r matches Err(
            SatsPathError::Transparency(TransparencyError::InvalidRotation(_)),
        ),
        HistoryFailure::BadRotation => r matches Err(
            SatsPathError::Transparency(TransparencyError::InvalidRotation(_)),
        ),
        HistoryFailure::RotationError => r is Err,
        HistoryFailure::Unauthorized => r == Err::<(), SatsPathError>(
            SatsPathError::Transparency(TransparencyError::UnauthorizedKeyReplacement),
        ),
        HistoryFailure::SignatureError => r matches Err(SatsPathError::InvalidPublicKey(_)) || r matches Err(
            SatsPathError::CryptoError(_),
        ),
        HistoryFailure::BadSignature => r == Err::<(), SatsPathError>(
            SatsPathError::Transparency(TransparencyError::InvalidEventSignature),
        ),
    }
}

fn opt_str_eq(a: &Option<String>, b: &Option<String>) -> (r: bool)
    ensures
        r == (opt_view(*a) == opt_view(*b)),
{
    match (a, b) {
        (Some(x), Some(y)) => str_eq(x.as_str(), y.as_str()),
        (None, None) => true,
        _ => false,
    }
}

fn authorise(e: &NameEvent, ev: &EventEvidence, auth: &String) -> (r: Result<(), SatsPathError>)
    ensures
        match authorise_spec(*e, *ev, auth@) {
            Ok(()) => r is Ok,
            Err(f) => failure_result(f, r),
        },
{
    if e.action == NameAction::RotateKey {
        let rot = &e.rotation;
        let rotation = match rot {
            Some(r) => r,
            None => {
                return Err(
                    SatsPathError::Transparency(
                        TransparencyError::InvalidRotation("missing dual proof".to_string()),
                    ),
                )
            },
        };
        let prev_default = match &e.previous_event_hash {
            Some(h) => h.clone(),
            None => String::new(),
        };
        if !str_eq(rotation.previous_pubkey.as_str(), auth.as_str()) || !str_eq(
            rotation.new_pubkey.as_str(),
            e.identity_pubkey.as_str(),
        ) || !str_eq(rotation.identifier_hash.as_str(), e.identifier_hash.as_str()) || !str_eq(
            rotation.previous_event_hash.as_str(),
            prev_default.as_str(),
        ) || rotation.sequence != e.sequence {
            return Err(
                SatsPathError::Transparency(
                    TransparencyError::InvalidRotation(
                        "old authorization or new acceptance failed".to_string(),
                    ),
                ),
            );
        }
        match &ev.rotation_verified {
            Ok(true) => Ok(()),
            Ok(false) => Err(
                SatsPathError::Transparency(
                    TransparencyError::InvalidRotation(
                        "old authorization or new acceptance failed".to_string(),
                    ),
                ),
            ),
            Err(err) => Err(err.clone()),
        }
    } else if !str_eq(e.identity_pubkey.as_str(), auth.as_str()) {
        Err(SatsPathError::Transparency(TransparencyError::UnauthorizedKeyReplacement))
    } else {
        Ok(())
    }
}

/// Verifies the history of one identifier, given the evidence of each event.
pub fn verify_identifier_history(events: &[NameEvent], evidence: &[EventEvidence]) -> (r: Result<
    (),
    SatsPathError,
>)
    requires
        events@.len() == evidence@.len(),
    ensures
        match history_outcome(events@, evidence@) {
            Ok(()) => r is Ok,
            Err(f) => failure_result(f, r),
        },
{
    if events.len() == 0 || events[0].action != NameAction::Register || events[0].sequence != 0 {
        return Err(
            SatsPathError::Transparency(
                TransparencyError::BrokenIdentifierHistory(
                    "history must start at registration sequence 0".to_string(),
                ),
            ),
        );
    }
    proof {
        reveal(event_step);
    }
    let identifier = &events[0].identifier_hash;
    let mut authorized_key: String = events[0].identity_pubkey.clone();
    let mut previous_hash: Option<String> = None;
    let mut revoked = false;
    let mut index: usize = 0;
    while index < events.len()
        invariant
            events@.len() == evidence@.len(),
            index <= events@.len(),
            identifier@ == events@[0].identifier_hash@,
            history_outcome(events@, evidence@) == history_from(
                events@,
                evidence@,
                index as nat,
                identifier@,
                (authorized_key@, opt_view(previous_hash), revoked),
            ),
            events@.len() > 0 && events@[0].action == NameAction::Register && events@[0].sequence == 0,
        decreases events.len() - index,
    {
        proof {
            reveal(event_step);
        }
        let event = &events[index];
        let ev = &evidence[index];
        if !str_eq(event.identifier_hash.as_str(), identifier.as_str()) || event.sequence != index as u64 {
            return Err(
                SatsPathError::Transparency(
                    TransparencyError::BrokenIdentifierHistory(
                        "identifier substitution or sequence rollback".to_string(),
                    ),
                ),
            );
        }
        if !opt_str_eq(&event.previous_event_hash, &previous_hash) {
            return Err(
                SatsPathError::Transparency(
                    TransparencyError::BrokenIdentifierHistory(
                        "previous event hash mismatch".to_string(),
                    ),
                ),
            );
        }
        if revoked {
            return Err(SatsPathError::Transparency(TransparencyError::IdentifierRevoked));
        }
        if event.action == NameAction::RecoverKey {
            return Err(SatsPathError::Transparency(TransparencyError::RecoveryDisabled));
        }
        match authorise(event, ev, &authorized_key) {
            Ok(()) => {},
            Err(e) => return Err(e),
        }
        match verify_message_signature(
            ev.signing_message.as_str(),
            event.owner_signature.as_str(),
            authorized_key.as_str(),
        ) {
            Ok(true) => {},
            Ok(false) => return Err(SatsPathError::Transparency(TransparencyError::InvalidEventSignature)),
            Err(e) => return Err(e),
        }
        if event.action == NameAction::RotateKey {
            authorized_key = event.identity_pubkey.clone();
        }
        revoked = event.action == NameAction::Revoke;
        previous_hash = Some(ev.event_hash.clone());
        index = index + 1;
    }
    Ok(())
}

/// The history is accepted; the identity key has continuity.
pub fn verify_key_continuity(events: &[NameEvent], evidence: &[EventEvidence]) -> (r: Result<
    bool,
    SatsPathError,
>)
    requires
        events@.len() == evidence@.len(),
    ensures
        r is Ok <==> history_outcome(events@, evidence@) is Ok,
        r is Ok ==> r == Ok::<bool, SatsPathError>(true),
{
    match verify_identifier_history(events, evidence) {
        Ok(()) => Ok(true),
        Err(e) => Err(e),
    }
}

/// Event `j` links to the hash of event `j - 1`.
pub open spec fn linked(events: Seq<NameEvent>, evs: Seq<EventEvidence>, j: int) -> bool {
    opt_view(events[j].previous_event_hash) == Some(evs[j - 1].event_hash@)
}

/// Event `j` keeps the identity key of event `j - 1` unless it rotates it.
pub open spec fn key_kept(events: Seq<NameEvent>, j: int) -> bool {
    events[j].action != NameAction::RotateKey ==> events[j].identity_pubkey@ == events[j
        - 1].identity_pubkey@
}

proof fn lemma_step_ok(e: NameEvent, ev: EventEvidence, idx: int, identifier: Seq<char>, st: HistoryState)
    requires
        event_step(e, ev, idx, identifier, st) is Ok,
    ensures
        ({
            let st2 = event_step(e, ev, idx, identifier, st)->Ok_0;
            &&& e.sequence == idx
            &&& e.identifier_hash@ == identifier
            &&& opt_view(e.previous_event_hash) == st.1
            &&& !st.2
            &&& e.action != NameAction::RotateKey ==> e.identity_pubkey@ == st.0
            &&& st2.0 == e.identity_pubkey@
            &&& st2.1 == Some(ev.event_hash@)
            &&& st2.2 == (e.action == NameAction::Revoke)
        }),
{
    reveal(event_step);
}

proof fn lemma_history_from_ok(
    events: Seq<NameEvent>,
    evs: Seq<EventEvidence>,
    idx: nat,
    identifier: Seq<char>,
    st: HistoryState,
)
    requires
        history_from(events, evs, idx, identifier, st) is Ok,
        idx < events.len(),
    ensures
        !st.2,
        opt_view(events[idx as int].previous_event_hash) == st.1,
        events[idx as int].action != NameAction::RotateKey ==> events[idx as int].identity_pubkey@
            == st.0,
        forall|j: int| idx <= j < events.len() ==> (#[trigger] events[j]).sequence == j
            && events[j].identifier_hash@ == identifier,
        forall|j: int| idx <= j < events.len() - 1 ==> (#[trigger] events[j]).action != NameAction::Revoke,
        forall|j: int| idx < j < events.len() ==> #[trigger] linked(events, evs, j),
        forall|j: int| idx < j < events.len() ==> #[trigger] key_kept(events, j),
    decreases events.len() - idx,
{
    let e = events[idx as int];
    let ev = evs[idx as int];
    let st2 = event_step(e, ev, idx as int, identifier, st)->Ok_0;
    lemma_step_ok(e, ev, idx as int, identifier, st);
    if idx + 1 < events.len() {
        lemma_history_from_ok(events, evs, idx + 1, identifier, st2);
        let n1 = (idx + 1) as int;
        lemma_step_ok(events[n1], evs[n1], n1, identifier, st2);
    }
}

/// What an accepted history guarantees: events are numbered by position under
/// one identifier, each links to the hash of the one before, nothing follows a
/// revocation, and the identity key changes only at a key rotation.
pub proof fn accepted_history_properties(events: Seq<NameEvent>, evs: Seq<EventEvidence>)
    requires
        history_outcome(events, evs) is Ok,
    ensures
        events.len() > 0,
        events[0].action == NameAction::Register,
        events[0].previous_event_hash is None,
        forall|j: int| 0 <= j < events.len() ==> (#[trigger] events[j]).sequence == j
            && events[j].identifier_hash@ == events[0].identifier_hash@,
        forall|j: int| 0 < j < events.len() ==> #[trigger] linked(events, evs, j),
        forall|j: int| 0 <= j < events.len() - 1 ==> (#[trigger] events[j]).action != NameAction::Revoke,
        forall|j: int| 0 < j < events.len() ==> #[trigger] key_kept(events, j),
{
    lemma_history_from_ok(
        events,
        evs,
        0,
        events[0].identifier_hash@,
        (events[0].identity_pubkey@, None, false),
    );
}

/// Event `j` is signed, over its signing message, by `key`; a key rotation
/// at `j` comes from `key` and its dual proof verified.
pub open spec fn signed_by(events: Seq<NameEvent>, evs: Seq<EventEvidence>, j: int, key: Seq<char>) -> bool {
    &&& sig_check(evs[j].signing_message@, events[j].owner_signature@, key) == SigCheck::Checked(true)
    &&& events[j].action == NameAction::RotateKey ==> (events[j].rotation matches Some(r)
        && r.previous_pubkey@ == key && r.new_pubkey@ == events[j].identity_pubkey@
        && evs[j].rotation_verified == Ok::<bool, SatsPathError>(true))
}

/// The key in force for event `j`: the registration's key for the first
/// event, else the key of the event before.
pub open spec fn key_in_force(events: Seq<NameEvent>, j: int) -> Seq<char> {
    if j == 0 {
        events[0].identity_pubkey@
    } else {
        events[j - 1].identity_pubkey@
    }
}

proof fn lemma_step_signed(e: NameEvent, ev: EventEvidence, idx: int, identifier: Seq<char>, st: HistoryState)
    requires
        event_step(e, ev, idx, identifier, st) is Ok,
    ensures
        sig_check(ev.signing_message@, e.owner_signature@, st.0) == SigCheck::Checked(true),
        e.action == NameAction::RotateKey ==> (e.rotation matches Some(r) && r.previous_pubkey@ == st.0
            && r.new_pubkey@ == e.identity_pubkey@ && ev.rotation_verified == Ok::<bool, SatsPathError>(true)),
{
    reveal(event_step);
}

proof fn lemma_history_from_signed(
    events: Seq<NameEvent>,
    evs: Seq<EventEvidence>,
    idx: nat,
    identifier: Seq<char>,
    st: HistoryState,
)
    requires
        history_from(events, evs, idx, identifier, st) is Ok,
        idx < events.len(),
    ensures
        signed_by(events, evs, idx as int, st.0),
        forall|j: int| idx < j < events.len() ==> #[trigger] signed_by(
            events,
            evs,
            j,
            events[j - 1].identity_pubkey@,
        ),
    decreases events.len() - idx,
{
    let e = events[idx as int];
    let ev = evs[idx as int];
    let st2 = event_step(e, ev, idx as int, identifier, st)->Ok_0;
    lemma_step_signed(e, ev, idx as int, identifier, st);
    lemma_step_ok(e, ev, idx as int, identifier, st);
    if idx + 1 < events.len() {
        lemma_history_from_signed(events, evs, idx + 1, identifier, st2);
    }
}

/// Authorisation in an accepted history: every event is signed by the key in
/// force, and every key rotation comes from that key, hands over to the
/// event's key, and carries a verified dual proof.
pub proof fn accepted_history_is_authorised(events: Seq<NameEvent>, evs: Seq<EventEvidence>)
    requires
        history_outcome(events, evs) is Ok,
    ensures
        forall|j: int| 0 <= j < events.len() ==> #[trigger] signed_by(events, evs, j, key_in_force(events, j)),
{
    lemma_history_from_signed(
        events,
        evs,
        0,
        events[0].identifier_hash@,
        (events[0].identity_pubkey@, None, false),
    );
    assert forall|j: int| 0 <= j < events.len() implies #[trigger] signed_by(
        events,
        evs,
        j,
        key_in_force(events, j),
    ) by {
        if j > 0 {
            assert(signed_by(events, evs, j, events[j - 1].identity_pubkey@));
        }
    }
}

proof fn lemma_history_from_prefix(
    events: Seq<NameEvent>,
    evs: Seq<EventEvidence>,
    k: nat,
    idx: nat,
    identifier: Seq<char>,
    st: HistoryState,
)
    requires
        history_from(events, evs, idx, identifier, st) is Ok,
        k <= events.len(),
        k <= evs.len(),
    ensures
        history_from(events.take(k as int), evs.take(k as int), idx, identifier, st) is Ok,
    decreases events.len() - idx,
{
    if idx < k {
        let e = events[idx as int];
        let ev = evs[idx as int];
        assert(events.take(k as int)[idx as int] == e);
        assert(evs.take(k as int)[idx as int] == ev);
        let st2 = event_step(e, ev, idx as int, identifier, st)->Ok_0;
        lemma_history_from_prefix(events, evs, k, idx + 1, identifier, st2);
    }
}

/// Prefix closure: every non-empty prefix of an accepted history is accepted.
pub proof fn accepted_history_prefixes_accepted(events: Seq<NameEvent>, evs: Seq<EventEvidence>, k: nat)
    requires
        history_outcome(events, evs) is Ok,
        0 < k <= events.len(),
        k <= evs.len(),
    ensures
        history_outcome(events.take(k as int), evs.take(k as int)) is Ok,
{
    lemma_history_from_prefix(
        events,
        evs,
        k,
        0,
        events[0].identifier_hash@,
        (events[0].identity_pubkey@, None, false),
    );
    assert(events.take(k as int)[0] == events[0]);
}

/// The dual proof carried by a key rotation at event `j` is for that event:
/// its identifier, its sequence number, and the hash of the event before it.
pub open spec fn rotation_bound(events: Seq<NameEvent>, evs: Seq<EventEvidence>, j: int) -> bool {
    events[j].action == NameAction::RotateKey ==> (events[j].rotation matches Some(r) && r.sequence
        == j && r.identifier_hash@ == events[j].identifier_hash@ && j > 0 && r.previous_event_hash@
        == evs[j - 1].event_hash@)
}

proof fn lemma_step_rotation(e: NameEvent, ev: EventEvidence, idx: int, identifier: Seq<char>, st: HistoryState)
    requires
        event_step(e, ev, idx, identifier, st) is Ok,
    ensures
        e.action == NameAction::RotateKey ==> (e.rotation matches Some(r) && r.sequence == e.sequence
            && r.identifier_hash@ == e.identifier_hash@ && r.previous_event_hash@ == (match opt_view(
            e.previous_event_hash,
        ) {
            Some(h) => h,
            None => Seq::empty(),
        })),
{
    reveal(event_step);
}

proof fn lemma_history_from_rotations(
    events: Seq<NameEvent>,
    evs: Seq<EventEvidence>,
    idx: nat,
    identifier: Seq<char>,
    st: HistoryState,
)
    requires
        history_from(events, evs, idx, identifier, st) is Ok,
    ensures
        forall|j: int| idx <= j < events.len() ==> (#[trigger] events[j]).action == NameAction::RotateKey
            ==> (events[j].rotation matches Some(r) && r.sequence == events[j].sequence
            && r.identifier_hash@ == events[j].identifier_hash@ && r.previous_event_hash@ == (match opt_view(
            events[j].previous_event_hash,
        ) {
            Some(h) => h,
            None => Seq::empty(),
        })),
    decreases events.len() - idx,
{
    if idx < events.len() {
        let e = events[idx as int];
        let ev = evs[idx as int];
        let st2 = event_step(e, ev, idx as int, identifier, st)->Ok_0;
        lemma_step_rotation(e, ev, idx as int, identifier, st);
        lemma_history_from_rotations(events, evs, idx + 1, identifier, st2);
    }
}

/// In an accepted history every key rotation's dual proof is bound to its
/// event: it names the event's identifier, the event's position as its
/// sequence number, and the hash of the event before as the previous event.
pub proof fn accepted_rotations_are_bound(events: Seq<NameEvent>, evs: Seq<EventEvidence>)
    requires
        history_outcome(events, evs) is Ok,
    ensures
        forall|j: int| 0 <= j < events.len() ==> #[trigger] rotation_bound(events, evs, j),
{
    accepted_history_properties(events, evs);
    lemma_history_from_rotations(
        events,
        evs,
        0,
        events[0].identifier_hash@,
        (events[0].identity_pubkey@, None, false),
    );
    assert forall|j: int| 0 <= j < events.len() implies #[trigger] rotation_bound(events, evs, j) by {
        if events[j].action == NameAction::RotateKey {
            if j > 0 {
                assert(linked(events, evs, j));
            }
        }
    }
}

} // verus!
