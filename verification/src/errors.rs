//! Error types of the library.

use vstd::prelude::*;
use crate::text::{push_str, string_of};

verus! {

/// Failures in the transparency log and its verifiers.
#[derive(Debug, Clone, PartialEq, Eq)]
pub enum TransparencyError {
    InvalidInclusionProof,
    InvalidConsistencyProof,
    InvalidCheckpointSignature,
    CheckpointRollback,
    ConflictingCheckpoint,
    BrokenIdentifierHistory(String),
    IdentifierRevoked,
    RecoveryDisabled,
    InvalidRotation(String),
    UnauthorizedKeyReplacement,
    InvalidEventSignature,
    ProfileHashMismatch,
    CorruptStore(String),
}

/// Errors of the SatsPath library.
#[derive(Debug, Clone, PartialEq, Eq)]
pub enum SatsPathError {
    AliasNotFound(String),
    AliasAlreadyRegistered(String),
    InvalidSignature,
    InvalidPublicKey(String),
    InvalidPaymentUri(String),
    InvalidPaymentPointer(String),
    PrivateMaterialRejected(String),
    NoPaymentMethods,
    NoRouteFound(String),
    SerializationError(String),
    RegistryError(String),
    CryptoError(String),
    NetworkError(String),
    InvalidRoute(String),
    Transparency(TransparencyError),
}

impl TransparencyError {
    /// A copy of the error.
    pub fn copy(&self) -> (r: Self)
        ensures
            r == *self,
    {
        match self {
            TransparencyError::InvalidInclusionProof => TransparencyError::InvalidInclusionProof,
            TransparencyError::InvalidConsistencyProof => TransparencyError::InvalidConsistencyProof,
            TransparencyError::InvalidCheckpointSignature => TransparencyError::InvalidCheckpointSignature,
            TransparencyError::CheckpointRollback => TransparencyError::CheckpointRollback,
            TransparencyError::ConflictingCheckpoint => TransparencyError::ConflictingCheckpoint,
            TransparencyError::BrokenIdentifierHistory(m) => TransparencyError::BrokenIdentifierHistory(m.clone()),
            TransparencyError::IdentifierRevoked => TransparencyError::IdentifierRevoked,
            TransparencyError::RecoveryDisabled => TransparencyError::RecoveryDisabled,
            TransparencyError::InvalidRotation(m) => TransparencyError::InvalidRotation(m.clone()),
            TransparencyError::UnauthorizedKeyReplacement => TransparencyError::UnauthorizedKeyReplacement,
            TransparencyError::InvalidEventSignature => TransparencyError::InvalidEventSignature,
            TransparencyError::ProfileHashMismatch => TransparencyError::ProfileHashMismatch,
            TransparencyError::CorruptStore(m) => TransparencyError::CorruptStore(m.clone()),
        }
    }
}

impl SatsPathError {
    /// A copy of the error.
    pub fn copy(&self) -> (r: Self)
        ensures
            r == *self,
    {
        match self {
            SatsPathError::AliasNotFound(m) => SatsPathError::AliasNotFound(m.clone()),
            SatsPathError::AliasAlreadyRegistered(m) => SatsPathError::AliasAlreadyRegistered(m.clone()),
            SatsPathError::InvalidSignature => SatsPathError::InvalidSignature,
            SatsPathError::InvalidPublicKey(m) => SatsPathError::InvalidPublicKey(m.clone()),
            SatsPathError::InvalidPaymentUri(m) => SatsPathError::InvalidPaymentUri(m.clone()),
            SatsPathError::InvalidPaymentPointer(m) => SatsPathError::InvalidPaymentPointer(m.clone()),
            SatsPathError::PrivateMaterialRejected(m) => SatsPathError::PrivateMaterialRejected(m.clone()),
            SatsPathError::NoPaymentMethods => SatsPathError::NoPaymentMethods,
            SatsPathError::NoRouteFound(m) => SatsPathError::NoRouteFound(m.clone()),
            SatsPathError::SerializationError(m) => SatsPathError::SerializationError(m.clone()),
            SatsPathError::RegistryError(m) => SatsPathError::RegistryError(m.clone()),
            SatsPathError::CryptoError(m) => SatsPathError::CryptoError(m.clone()),
            SatsPathError::NetworkError(m) => SatsPathError::NetworkError(m.clone()),
            SatsPathError::InvalidRoute(m) => SatsPathError::InvalidRoute(m.clone()),
            SatsPathError::Transparency(t) => SatsPathError::Transparency(t.copy()),
        }
    }
}

/// The text of a transparency failure.
pub open spec fn transparency_text(e: TransparencyError) -> Seq<char> {
    match e {
        TransparencyError::InvalidInclusionProof => "invalid inclusion proof"@,
        TransparencyError::InvalidConsistencyProof => "invalid consistency proof"@,
        TransparencyError::InvalidCheckpointSignature => "invalid checkpoint signature"@,
        TransparencyError::CheckpointRollback => "checkpoint rollback"@,
        TransparencyError::ConflictingCheckpoint => "conflicting checkpoint"@,
        TransparencyError::BrokenIdentifierHistory(m) => "broken identifier history: "@ + m@,
        TransparencyError::IdentifierRevoked => "identifier revoked"@,
        TransparencyError::RecoveryDisabled => "key recovery is disabled"@,
        TransparencyError::InvalidRotation(m) => "invalid rotation: "@ + m@,
        TransparencyError::UnauthorizedKeyReplacement => "unauthorized key replacement"@,
        TransparencyError::InvalidEventSignature => "invalid event signature"@,
        TransparencyError::ProfileHashMismatch => "profile hash mismatch"@,
        TransparencyError::CorruptStore(m) => "corrupt transparency store: "@ + m@,
    }
}

/// The text of an error.
pub open spec fn error_text(e: SatsPathError) -> Seq<char> {
    match e {
        SatsPathError::AliasNotFound(m) => "alias not found: "@ + m@,
        SatsPathError::AliasAlreadyRegistered(m) => "alias already registered: "@ + m@,
        SatsPathError::InvalidSignature => "invalid signature"@,
        SatsPathError::InvalidPublicKey(m) => "invalid public key: "@ + m@,
        SatsPathError::InvalidPaymentUri(m) => "invalid payment URI: "@ + m@,
        SatsPathError::InvalidPaymentPointer(m) => "invalid payment pointer: "@ + m@,
        SatsPathError::PrivateMaterialRejected(m) => "private material rejected: "@ + m@,
        SatsPathError::NoPaymentMethods => "no payment methods available"@,
        SatsPathError::NoRouteFound(m) => "no suitable payment rail found: "@ + m@,
        SatsPathError::SerializationError(m) => "serialization error: "@ + m@,
        SatsPathError::RegistryError(m) => "registry error: "@ + m@,
        SatsPathError::CryptoError(m) => "crypto error: "@ + m@,
        SatsPathError::NetworkError(m) => "network error: "@ + m@,
        SatsPathError::InvalidRoute(m) => "invalid route: "@ + m@,
        SatsPathError::Transparency(t) => "transparency error: "@ + transparency_text(t),
    }
}

fn text_with(prefix: &str, detail: &String) -> (r: String)
    ensures
        r@ == prefix@ + detail@,
{
    let mut out: Vec<char> = Vec::new();
    push_str(&mut out, prefix);
    push_str(&mut out, detail.as_str());
    string_of(out.as_slice())
}

impl TransparencyError {
    /// The error's text.
    pub fn message(&self) -> (r: String)
        ensures
            r@ == transparency_text(*self),
    {
        match self {
            TransparencyError::InvalidInclusionProof => "invalid inclusion proof".to_string(),
            TransparencyError::InvalidConsistencyProof => "invalid consistency proof".to_string(),
            TransparencyError::InvalidCheckpointSignature => "invalid checkpoint signature".to_string(),
            TransparencyError::CheckpointRollback => "checkpoint rollback".to_string(),
            TransparencyError::ConflictingCheckpoint => "conflicting checkpoint".to_string(),
            TransparencyError::BrokenIdentifierHistory(m) => text_with("broken identifier history: ", m),
            TransparencyError::IdentifierRevoked => "identifier revoked".to_string(),
            TransparencyError::RecoveryDisabled => "key recovery is disabled".to_string(),
            TransparencyError::InvalidRotation(m) => text_with("invalid rotation: ", m),
            TransparencyError::UnauthorizedKeyReplacement => "unauthorized key replacement".to_string(),
            TransparencyError::InvalidEventSignature => "invalid event signature".to_string(),
            TransparencyError::ProfileHashMismatch => "profile hash mismatch".to_string(),
            TransparencyError::CorruptStore(m) => text_with("corrupt transparency store: ", m),
        }
    }
}

impl SatsPathError {
    /// The error's text.
    pub fn message(&self) -> (r: String)
        ensures
            r@ == error_text(*self),
    {
        match self {
            SatsPathError::AliasNotFound(m) => text_with("alias not found: ", m),
            SatsPathError::AliasAlreadyRegistered(m) => text_with("alias already registered: ", m),
            SatsPathError::InvalidSignature => "invalid signature".to_string(),
            SatsPathError::InvalidPublicKey(m) => text_with("invalid public key: ", m),
            SatsPathError::InvalidPaymentUri(m) => text_with("invalid payment URI: ", m),
            SatsPathError::InvalidPaymentPointer(m) => text_with("invalid payment pointer: ", m),
            SatsPathError::PrivateMaterialRejected(m) => text_with("private material rejected: ", m),
            SatsPathError::NoPaymentMethods => "no payment methods available".to_string(),
            SatsPathError::NoRouteFound(m) => text_with("no suitable payment rail found: ", m),
            SatsPathError::SerializationError(m) => text_with("serialization error: ", m),
            SatsPathError::RegistryError(m) => text_with("registry error: ", m),
            SatsPathError::CryptoError(m) => text_with("crypto error: ", m),
            SatsPathError::NetworkError(m) => text_with("network error: ", m),
            SatsPathError::InvalidRoute(m) => text_with("invalid route: ", m),
            SatsPathError::Transparency(t) => {
                let inner = t.message();
                text_with("transparency error: ", &inner)
            },
        }
    }
}

} // verus!
