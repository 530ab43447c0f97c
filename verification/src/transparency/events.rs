//! Name events of the transparency log.

use vstd::prelude::*;
use crate::errors::SatsPathError;
use crate::profile::BitcoinNetwork;

verus! {

/// What a name event does to its identifier.
#[derive(Debug, Clone, Copy, PartialEq, Eq, Structural)]
pub enum NameAction {
    Register,
    Update,
    RotateKey,
    Revoke,
    RecoverKey,
}

/// The dual proof of a key rotation: authorised by the old key and accepted
/// by the new one, bound to the identifier, position and predecessor event.
#[derive(Debug, Clone, PartialEq, Eq)]
pub struct RotationProof {
    pub previous_pubkey: String,
    pub new_pubkey: String,
    pub identifier_hash: String,
    pub previous_event_hash: String,
    pub sequence: u64,
}

/// One event in the history of an identifier.
#[derive(Debug, Clone, PartialEq, Eq)]
pub struct NameEvent {
    pub version: u16,
    pub identifier_hash: String,
    pub sequence: u64,
    pub action: NameAction,
    pub identity_pubkey: String,
    pub profile_hash: String,
    pub previous_event_hash: Option<String>,
    pub rotation: Option<RotationProof>,
    pub owner_signature: String,
}

/// What the history checks need about an event beyond its fields: its hash,
/// the message its owner signed, and whether its rotation proof (if any)
/// verifies. These come from the event's canonical serialisation.
#[derive(Debug, PartialEq, Eq)]
pub struct EventEvidence {
    pub event_hash: String,
    pub signing_message: String,
    pub rotation_verified: Result<bool, SatsPathError>,
}

/// A Bitcoin transaction that commits to a checkpoint.
#[derive(Debug, Clone, PartialEq, Eq)]
pub struct BitcoinAnchor {
    pub network: BitcoinNetwork,
    pub commitment: String,
}

impl NameEvent {
    /// A field-for-field copy.
    pub fn copy(&self) -> (r: Self)
        ensures
            r == *self,
    {
        let rot = &self.rotation;
        let rotation = match rot {
            Some(p) => Some(
                RotationProof {
                    previous_pubkey: p.previous_pubkey.clone(),
                    new_pubkey: p.new_pubkey.clone(),
                    identifier_hash: p.identifier_hash.clone(),
                    previous_event_hash: p.previous_event_hash.clone(),
                    sequence: p.sequence,
                },
            ),
            None => None,
        };
        NameEvent {
            version: self.version,
            identifier_hash: self.identifier_hash.clone(),
            sequence: self.sequence,
            action: self.action,
            identity_pubkey: self.identity_pubkey.clone(),
            profile_hash: self.profile_hash.clone(),
            previous_event_hash: crate::profile::copy_opt(&self.previous_event_hash),
            rotation,
            owner_signature: self.owner_signature.clone(),
        }
    }
}

} // verus!
