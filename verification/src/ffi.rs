//! Records exchanged with foreign-language bindings, and their conversions
//! to and from the library's own types.

use vstd::prelude::*;
use crate::crypto::{
    fingerprint_spec, generate_identity_keypair, message_signature_hex, parse_pubkey, pubkey_compressed,
    pubkey_of, pubkey_valid, secret_valid, sig_check, sig_check_bytes, sig_check_result, SecretKey, SigCheck,
};
use crate::encoding::{hex_decode, hex_decode_spec, hex_encode, hex_encode_spec, hex_valid, sha256, sha256_digest};
use crate::rotation::rotation_check;
use crate::errors::{error_text, SatsPathError};
use crate::profile::{
    ArkOwnershipProof, BitcoinNetwork, InviteRecord, InviteStatus, KeyRotation, MethodVerification,
    PaymentMethod, PaymentProfile, SignedPaymentProfile,
};
use crate::resolver::{chain_answers, ChainResolver, ProfileResolver};

verus! {

/// Errors as the bindings see them.
#[derive(Debug, Clone, PartialEq, Eq)]
pub enum FfiError {
    AliasNotFound { reason: String },
    CryptoError { reason: String },
    NetworkError { reason: String },
    InvalidInput { reason: String },
    Other { reason: String },
}

/// The binding error for a library error: not-found, crypto and network
/// errors keep their detail, an invalid signature is a crypto error, and any
/// other error is `Other` with the error's text.
pub open spec fn ffi_error_of(e: SatsPathError, f: FfiError) -> bool {
    match e {
        SatsPathError::AliasNotFound(s) => f == (FfiError::AliasNotFound { reason: s }),
        SatsPathError::InvalidSignature => f matches FfiError::CryptoError { reason } && reason@
            == "invalid signature"@,
        SatsPathError::CryptoError(s) => f == (FfiError::CryptoError { reason: s }),
        SatsPathError::NetworkError(s) => f == (FfiError::NetworkError { reason: s }),
        _ => f matches FfiError::Other { reason } && reason@ == error_text(e),
    }
}

/// The binding answer for a chain answer: a profile keeps its signature,
/// alias and identity key; an error becomes its binding error.
pub open spec fn ffi_answer_of(
    c: Result<SignedPaymentProfile, SatsPathError>,
    r: Result<FfiSignedPaymentProfile, FfiError>,
) -> bool {
    match c {
        Ok(p) => r matches Ok(q) && q.signature == p.signature && q.profile.alias == p.profile.alias
            && q.profile.identity_pubkey == p.profile.identity_pubkey,
        Err(e) => r matches Err(f) && ffi_error_of(e, f),
    }
}

impl FfiError {
    /// The binding error for a library error.
    pub fn from_core(e: SatsPathError) -> (r: Self)
        ensures
            ffi_error_of(e, r),
    {
        let text = e.message();
        match e {
            SatsPathError::AliasNotFound(s) => FfiError::AliasNotFound { reason: s },
            SatsPathError::InvalidSignature => FfiError::CryptoError { reason: "invalid signature".to_string() },
            SatsPathError::CryptoError(s) => FfiError::CryptoError { reason: s },
            SatsPathError::NetworkError(s) => FfiError::NetworkError { reason: s },
            _ => FfiError::Other { reason: text },
        }
    }
}

/// A new identity: its public key, secret key (hex) and fingerprint.
#[derive(Debug, Clone, PartialEq, Eq)]
pub struct FfiIdentity {
    pub pubkey_hex: String,
    pub secret_key_hex: String,
    pub fingerprint: String,
}

#[derive(Debug, Clone, PartialEq, Eq)]
pub struct FfiOnchainMethod {
    pub label: String,
    pub network: String,
    pub address: Option<String>,
    pub silent_payment_pubkey: Option<String>,
    pub pubkey_hint: Option<String>,
    pub descriptor_hint: Option<String>,
    pub address_list: Vec<String>,
}

#[derive(Debug, Clone, PartialEq, Eq)]
pub struct FfiLightningMethod {
    pub label: String,
    pub lightning_address: Option<String>,
    pub lnurl: Option<String>,
    pub bolt12: Option<String>,
    pub receiver_pubkey: Option<String>,
}

#[derive(Debug, Clone, PartialEq, Eq)]
pub struct FfiArkMethod {
    pub label: String,
    pub server: String,
    pub pubkey: String,
    pub vtxo_pointer: Option<String>,
    pub opaque_uri: Option<String>,
    pub proof: Option<FfiArkOwnershipProof>,
    pub expires_at: Option<i64>,
}

#[derive(Debug, Clone, PartialEq, Eq)]
pub enum FfiPaymentMethod {
    Onchain { method: FfiOnchainMethod },
    Lightning { method: FfiLightningMethod },
    Ark { method: FfiArkMethod },
}

#[derive(Debug, Clone, PartialEq, Eq)]
pub struct FfiArkOwnershipProof {
    pub message: String,
    pub signature: String,
    pub pubkey: String,
}

#[derive(Debug, Clone, PartialEq, Eq)]
pub struct FfiKeyRotation {
    pub previous_pubkey: String,
    pub new_pubkey: String,
    pub authorization_signature: String,
    pub rotated_at: i64,
}

#[derive(Debug, Clone, PartialEq, Eq)]
pub struct FfiMethodVerification {
    pub method_descriptor: String,
    pub proof_type: String,
    pub proof_data: String,
    pub verified_at: i64,
}

#[derive(Debug, Clone, PartialEq, Eq)]
pub struct FfiPaymentProfile {
    pub alias: String,
    pub identity_pubkey: String,
    pub methods: Vec<FfiPaymentMethod>,
    pub updated_at: i64,
    pub expires_at: Option<i64>,
    pub sequence: Option<u64>,
    pub preferences: Vec<String>,
    pub nonce: Option<String>,
    pub rotation: Option<FfiKeyRotation>,
    pub method_verifications: Vec<FfiMethodVerification>,
}

#[derive(Debug, Clone, PartialEq, Eq)]
pub struct FfiSignedPaymentProfile {
    pub profile: FfiPaymentProfile,
    pub signature: String,
}

#[derive(Debug, Clone, PartialEq, Eq)]
pub struct FfiFeeEstimate {
    pub fastest_fee: u64,
    pub half_hour_fee: u64,
    pub hour_fee: u64,
    pub economy_fee: u64,
    pub minimum_fee: u64,
}

#[derive(Debug, Clone, Copy, PartialEq, Eq, Structural)]
pub enum FfiExecutionMode {
    Preview,
    MainnetPreview,
    TestnetExperimental,
    ManualWallet,
}

#[derive(Debug, Clone, PartialEq, Eq)]
pub struct FfiRouteQuote {
    pub selected_method: FfiPaymentMethod,
    pub estimated_fee_sats: u64,
    pub estimated_confirmation: String,
    pub reason: String,
    pub execution: FfiExecutionMode,
    pub wallet_hint: String,
}

#[derive(Debug, Clone, PartialEq, Eq)]
pub struct FfiQuoteRecipient {
    pub alias: String,
    pub verified: bool,
    pub profile_signature_verified: bool,
    pub identifier_verified: bool,
    pub identifier_verification: String,
    pub fingerprint: String,
}

#[derive(Debug, Clone, PartialEq, Eq)]
pub struct FfiInvite {
    pub alias_hash: String,
    pub amount_sats: u64,
    pub created_at: i64,
    pub expires_at: i64,
    pub claim_url: String,
    pub warning: String,
    pub sender_signature: Option<String>,
    pub sender_pubkey: Option<String>,
}

#[derive(Debug, Clone, Copy, PartialEq, Eq, Structural)]
pub enum FfiInviteStatus {
    Created,
    EmailSent,
    ClaimedWithPublicProfile,
    Expired,
    Cancelled,
}

#[derive(Debug, Clone, PartialEq, Eq)]
pub struct FfiInviteRecord {
    pub invite_id: String,
    pub identifier_hash: String,
    pub display_hint: String,
    pub amount_sats: u64,
    pub memo: Option<String>,
    pub sender_fingerprint: String,
    pub status: FfiInviteStatus,
    pub created_at: i64,
    pub expires_at: i64,
}

#[derive(Debug, Clone, PartialEq, Eq)]
pub enum FfiQuoteResponse {
    Quote {
        recipient: FfiQuoteRecipient,
        selected_method: FfiPaymentMethod,
        fee_sats: u64,
        eta: String,
        reason: String,
        qr: String,
        execution: FfiExecutionMode,
        wallet_hint: String,
    },
    NotRegistered { invite: FfiInvite },
    NoRoute { reason: String },
    InvalidSignature { recipient: FfiQuoteRecipient },
}

#[derive(Debug, Clone, PartialEq, Eq)]
pub struct FfiSplitRecipient {
    pub alias: String,
    pub percent: u8,
}

#[derive(Debug, Clone, PartialEq, Eq)]
pub struct FfiSplitPaymentRequest {
    pub version: u32,
    pub total_amount_sats: u64,
    pub splits: Vec<FfiSplitRecipient>,
    pub memo: Option<String>,
}

/// The lowercase name of a network.
pub fn network_name(n: BitcoinNetwork) -> (r: String)
    ensures
        r@ == crate::profile::network_name(n),
{
    match n {
        BitcoinNetwork::Mainnet => "mainnet".to_string(),
        BitcoinNetwork::Testnet => "testnet".to_string(),
        BitcoinNetwork::Regtest => "regtest".to_string(),
    }
}

/// The network a name stands for: `testnet`, `regtest`, and mainnet for any
/// other name.
pub open spec fn parse_network_spec(s: Seq<char>) -> BitcoinNetwork {
    if s == "testnet"@ {
        BitcoinNetwork::Testnet
    } else if s == "regtest"@ {
        BitcoinNetwork::Regtest
    } else {
        BitcoinNetwork::Mainnet
    }
}

/// The network a name stands for.
pub fn parse_network(s: &str) -> (r: BitcoinNetwork)
    ensures
        r == parse_network_spec(s@),
{
    if crate::text::str_eq(s, "testnet") {
        BitcoinNetwork::Testnet
    } else if crate::text::str_eq(s, "regtest") {
        BitcoinNetwork::Regtest
    } else {
        BitcoinNetwork::Mainnet
    }
}

/// The binding record of an Ark ownership proof.
pub open spec fn ffi_proof_of(p: ArkOwnershipProof) -> FfiArkOwnershipProof {
    FfiArkOwnershipProof { message: p.message, signature: p.signature, pubkey: p.pubkey }
}

/// The library's Ark ownership proof of a binding record.
pub open spec fn core_proof_of(p: FfiArkOwnershipProof) -> ArkOwnershipProof {
    ArkOwnershipProof { message: p.message, signature: p.signature, pubkey: p.pubkey }
}

/// The binding record of a payment method: every field kept, the network by
/// its lowercase name; the binding fields the library has no counterpart for
/// (silent-payment key, address list, opaque URI) are empty.
pub open spec fn ffi_method_of(c: PaymentMethod, f: FfiPaymentMethod) -> bool {
    match c {
        PaymentMethod::Onchain { label, network, address, pubkey_hint, descriptor_hint } => match f {
            FfiPaymentMethod::Onchain { method } => {
                &&& method.label == label
                &&& method.network@ == crate::profile::network_name(network)
                &&& method.address == Some(address)
                &&& method.silent_payment_pubkey is None
                &&& method.pubkey_hint == pubkey_hint
                &&& method.descriptor_hint == descriptor_hint
                &&& method.address_list@.len() == 0
            },
            _ => false,
        },
        PaymentMethod::Lightning { label, lightning_address, lnurl, bolt12, receiver_pubkey } => f
            == (FfiPaymentMethod::Lightning {
            method: FfiLightningMethod { label, lightning_address, lnurl, bolt12, receiver_pubkey },
        }),
        PaymentMethod::Ark { label, server, pubkey, vtxo_pointer, proof: prf, expires_at } => match f {
            FfiPaymentMethod::Ark { method } => {
                &&& method.label == label
                &&& method.server == server
                &&& method.pubkey == pubkey
                &&& method.vtxo_pointer == vtxo_pointer
                &&& method.opaque_uri is None
                &&& method.proof == (match prf {
                    Some(p) => Some(ffi_proof_of(p)),
                    None => None,
                })
                &&& method.expires_at == expires_at
            },
            _ => false,
        },
    }
}

/// The library's payment method of a binding record: every field kept, the
/// network parsed from its name, a missing address empty; the silent-payment
/// key, address list and opaque URI are dropped.
pub open spec fn core_method_of(f: FfiPaymentMethod, c: PaymentMethod) -> bool {
    match f {
        FfiPaymentMethod::Onchain { method } => match c {
            PaymentMethod::Onchain { label, network, address, pubkey_hint, descriptor_hint } => {
                &&& label == method.label
                &&& network == parse_network_spec(method.network@)
                &&& (method.address matches Some(a) ==> address == a)
                &&& (method.address is None ==> address@ == Seq::<char>::empty())
                &&& pubkey_hint == method.pubkey_hint
                &&& descriptor_hint == method.descriptor_hint
            },
            _ => false,
        },
        FfiPaymentMethod::Lightning { method } => c == (PaymentMethod::Lightning {
            label: method.label,
            lightning_address: method.lightning_address,
            lnurl: method.lnurl,
            bolt12: method.bolt12,
            receiver_pubkey: method.receiver_pubkey,
        }),
        FfiPaymentMethod::Ark { method } => c == (PaymentMethod::Ark {
            label: method.label,
            server: method.server,
            pubkey: method.pubkey,
            vtxo_pointer: method.vtxo_pointer,
            proof: match method.proof {
                Some(p) => Some(core_proof_of(p)),
                None => None,
            },
            expires_at: method.expires_at,
        }),
    }
}

/// A payment method taken to the bindings and back is the same method.
pub proof fn method_round_trip(c: PaymentMethod, f: FfiPaymentMethod, back: PaymentMethod)
    requires
        ffi_method_of(c, f),
        core_method_of(f, back),
    ensures
        back == c,
{
    reveal_strlit("mainnet");
    reveal_strlit("testnet");
    reveal_strlit("regtest");
    match c {
        PaymentMethod::Onchain { label, network, address, pubkey_hint, descriptor_hint } => {
            match f {
                FfiPaymentMethod::Onchain { method } => {
                    assert("mainnet"@[0] != "testnet"@[0]);
                    assert("mainnet"@[0] != "regtest"@[0]);
                    assert("testnet"@[0] != "regtest"@[0]);
                    assert(parse_network_spec(method.network@) == network);
                },
                _ => {},
            }
        },
        PaymentMethod::Ark { proof: prf, .. } => {
            match prf {
                Some(p) => assert(core_proof_of(ffi_proof_of(p)) == p),
                None => {},
            }
        },
        _ => {},
    }
}

impl FfiArkOwnershipProof {
    /// The binding record of an Ark ownership proof.
    pub fn from_core(p: ArkOwnershipProof) -> (r: Self)
        ensures
            r == ffi_proof_of(p),
    {
        FfiArkOwnershipProof { message: p.message, signature: p.signature, pubkey: p.pubkey }
    }

    /// The library's Ark ownership proof.
    pub fn to_core(self) -> (r: ArkOwnershipProof)
        ensures
            r == core_proof_of(self),
    {
        ArkOwnershipProof { message: self.message, signature: self.signature, pubkey: self.pubkey }
    }
}

impl FfiPaymentMethod {
    /// The binding record of a payment method.
    pub fn from_core(m: PaymentMethod) -> (r: Self)
        ensures
            ffi_method_of(m, r),
    {
        match m {
            PaymentMethod::Onchain { label, network, address, pubkey_hint, descriptor_hint } => {
                FfiPaymentMethod::Onchain {
                    method: FfiOnchainMethod {
                        label,
                        network: network_name(network),
                        address: Some(address),
                        silent_payment_pubkey: None,
                        pubkey_hint,
                        descriptor_hint,
                        address_list: Vec::new(),
                    },
                }
            },
            PaymentMethod::Lightning { label, lightning_address, lnurl, bolt12, receiver_pubkey } => {
                FfiPaymentMethod::Lightning {
                    method: FfiLightningMethod { label, lightning_address, lnurl, bolt12, receiver_pubkey },
                }
            },
            PaymentMethod::Ark { label, server, pubkey, vtxo_pointer, proof: prf, expires_at } => {
                let fp = match prf {
                    Some(p) => Some(FfiArkOwnershipProof::from_core(p)),
                    None => None,
                };
                FfiPaymentMethod::Ark {
                    method: FfiArkMethod {
                        label,
                        server,
                        pubkey,
                        vtxo_pointer,
                        opaque_uri: None,
                        proof: fp,
                        expires_at,
                    },
                }
            },
        }
    }

    /// The library's payment method.
    pub fn to_core(self) -> (r: PaymentMethod)
        ensures
            core_method_of(self, r),
    {
        match self {
            FfiPaymentMethod::Onchain { method } => {
                let network = parse_network(method.network.as_str());
                let address = match method.address {
                    Some(a) => a,
                    None => String::new(),
                };
                PaymentMethod::Onchain {
                    label: method.label,
                    network,
                    address,
                    pubkey_hint: method.pubkey_hint,
                    descriptor_hint: method.descriptor_hint,
                }
            },
            FfiPaymentMethod::Lightning { method } => PaymentMethod::Lightning {
                label: method.label,
                lightning_address: method.lightning_address,
                lnurl: method.lnurl,
                bolt12: method.bolt12,
                receiver_pubkey: method.receiver_pubkey,
            },
            FfiPaymentMethod::Ark { method } => {
                let cp = match method.proof {
                    Some(p) => Some(p.to_core()),
                    None => None,
                };
                PaymentMethod::Ark {
                    label: method.label,
                    server: method.server,
                    pubkey: method.pubkey,
                    vtxo_pointer: method.vtxo_pointer,
                    proof: cp,
                    expires_at: method.expires_at,
                }
            },
        }
    }
}

/// The binding record of a key rotation.
pub open spec fn ffi_rotation_of(r: KeyRotation) -> FfiKeyRotation {
    FfiKeyRotation {
        previous_pubkey: r.previous_pubkey,
        new_pubkey: r.new_pubkey,
        authorization_signature: r.authorization_signature,
        rotated_at: r.rotated_at,
    }
}

/// The library's key rotation of a binding record.
pub open spec fn core_rotation_of(r: FfiKeyRotation) -> KeyRotation {
    KeyRotation {
        previous_pubkey: r.previous_pubkey,
        new_pubkey: r.new_pubkey,
        authorization_signature: r.authorization_signature,
        rotated_at: r.rotated_at,
    }
}

impl FfiKeyRotation {
    /// The binding record of a key rotation.
    pub fn from_core(r: KeyRotation) -> (f: Self)
        ensures
            f == ffi_rotation_of(r),
    {
        FfiKeyRotation {
            previous_pubkey: r.previous_pubkey,
            new_pubkey: r.new_pubkey,
            authorization_signature: r.authorization_signature,
            rotated_at: r.rotated_at,
        }
    }

    /// The library's key rotation.
    pub fn to_core(self) -> (r: KeyRotation)
        ensures
            r == core_rotation_of(self),
    {
        KeyRotation {
            previous_pubkey: self.previous_pubkey,
            new_pubkey: self.new_pubkey,
            authorization_signature: self.authorization_signature,
            rotated_at: self.rotated_at,
        }
    }
}

/// The binding record of a method verification.
pub open spec fn ffi_verification_of(v: MethodVerification) -> FfiMethodVerification {
    FfiMethodVerification {
        method_descriptor: v.method_descriptor,
        proof_type: v.proof_type,
        proof_data: v.proof_data,
        verified_at: v.verified_at,
    }
}

impl FfiMethodVerification {
    /// The binding record of a method verification.
    pub fn from_core(v: MethodVerification) -> (r: Self)
        ensures
            r == ffi_verification_of(v),
    {
        FfiMethodVerification {
            method_descriptor: v.method_descriptor,
            proof_type: v.proof_type,
            proof_data: v.proof_data,
            verified_at: v.verified_at,
        }
    }

    /// The library's verification of a binding record: only the method it is
    /// for is kept, as an unverified attestation (`unverified`, no proof
    /// data, verified at 0); a proof must be checked again on this side.
    pub fn to_core_unverified(self) -> (r: MethodVerification)
        ensures
            r.method_descriptor == self.method_descriptor,
            r.proof_type@ == "unverified"@,
            r.proof_data@.len() == 0,
            r.verified_at == 0,
    {
        MethodVerification {
            method_descriptor: self.method_descriptor,
            proof_type: "unverified".to_string(),
            proof_data: String::new(),
            verified_at: 0,
        }
    }
}

impl FfiPaymentProfile {
    /// The binding record of a profile: every field kept, methods,
    /// rotation and verifications converted one for one.
    pub fn from_core(p: PaymentProfile) -> (r: Self)
        ensures
            r.alias == p.alias,
            r.identity_pubkey == p.identity_pubkey,
            r.methods@.len() == p.methods@.len(),
            forall|i: int| 0 <= i < p.methods@.len() ==> ffi_method_of(p.methods@[i], #[trigger] r.methods@[i]),
            r.updated_at == p.updated_at,
            r.expires_at == p.expires_at,
            r.sequence == p.sequence,
            r.preferences@ == p.preferences@,
            r.nonce == p.nonce,
            r.rotation == (match p.rotation {
                Some(k) => Some(ffi_rotation_of(k)),
                None => None,
            }),
            r.method_verifications@ == p.method_verifications@.map_values(
                |v: MethodVerification| ffi_verification_of(v),
            ),
    {
        let PaymentProfile {
            alias,
            identity_pubkey,
            methods,
            updated_at,
            expires_at,
            sequence,
            preferences,
            nonce,
            rotation,
            method_verifications,
        } = p;
        let mut fm: Vec<FfiPaymentMethod> = Vec::new();
        let mut i: usize = 0;
        while i < methods.len()
            invariant
                i <= methods@.len(),
                fm@.len() == i,
                forall|j: int| 0 <= j < i ==> ffi_method_of(methods@[j], #[trigger] fm@[j]),
            decreases methods.len() - i,
        {
            fm.push(FfiPaymentMethod::from_core(methods[i].clone_method()));
            i = i + 1;
        }
        let mut fv: Vec<FfiMethodVerification> = Vec::new();
        let mut k: usize = 0;
        while k < method_verifications.len()
            invariant
                k <= method_verifications@.len(),
                fv@ == method_verifications@.subrange(0, k as int).map_values(
                    |v: MethodVerification| ffi_verification_of(v),
                ),
            decreases method_verifications.len() - k,
        {
            let v = &method_verifications[k];
            fv.push(
                FfiMethodVerification::from_core(
                    MethodVerification {
                        method_descriptor: v.method_descriptor.clone(),
                        proof_type: v.proof_type.clone(),
                        proof_data: v.proof_data.clone(),
                        verified_at: v.verified_at,
                    },
                ),
            );
            proof {
                assert(method_verifications@.subrange(0, k + 1) =~= method_verifications@.subrange(
                    0,
                    k as int,
                ).push(method_verifications@[k as int]));
            }
            k = k + 1;
        }
        proof {
            assert(method_verifications@.subrange(0, k as int) =~= method_verifications@);
        }
        let rotation = match rotation {
            Some(r) => Some(FfiKeyRotation::from_core(r)),
            None => None,
        };
        FfiPaymentProfile {
            alias,
            identity_pubkey,
            methods: fm,
            updated_at,
            expires_at,
            sequence,
            preferences,
            nonce,
            rotation,
            method_verifications: fv,
        }
    }

    /// The library's profile of a binding record: every field kept, methods
    /// and rotation converted one for one, verifications kept as unverified
    /// attestations of the same methods.
    pub fn to_core(self) -> (r: PaymentProfile)
        ensures
            r.alias == self.alias,
            r.identity_pubkey == self.identity_pubkey,
            r.methods@.len() == self.methods@.len(),
            forall|i: int|
                0 <= i < self.methods@.len() ==> core_method_of(self.methods@[i], #[trigger] r.methods@[i]),
            r.updated_at == self.updated_at,
            r.expires_at == self.expires_at,
            r.sequence == self.sequence,
            r.preferences@ == self.preferences@,
            r.nonce == self.nonce,
            r.rotation == (match self.rotation {
                Some(k) => Some(core_rotation_of(k)),
                None => None,
            }),
            r.method_verifications@.len() == self.method_verifications@.len(),
            forall|i: int|
                0 <= i < self.method_verifications@.len() ==> {
                    &&& (#[trigger] r.method_verifications@[i]).method_descriptor
                        == self.method_verifications@[i].method_descriptor
                    &&& r.method_verifications@[i].proof_type@ == "unverified"@
                    &&& r.method_verifications@[i].proof_data@.len() == 0
                    &&& r.method_verifications@[i].verified_at == 0
                },
    {
        let FfiPaymentProfile {
            alias,
            identity_pubkey,
            methods,
            updated_at,
            expires_at,
            sequence,
            preferences,
            nonce,
            rotation,
            method_verifications,
        } = self;
        let ghost orig = methods@;
        let mut rest = methods;
        let mut cm: Vec<PaymentMethod> = Vec::new();
        while rest.len() > 0
            invariant
                cm@.len() + rest@.len() == orig.len(),
                rest@ == orig.skip(cm@.len() as int),
                forall|j: int| 0 <= j < cm@.len() ==> core_method_of(orig[j], #[trigger] cm@[j]),
            decreases rest@.len(),
        {
            let m = rest.remove(0);
            proof {
                assert(orig[cm@.len() as int] == m);
                assert(rest@ =~= orig.skip(cm@.len() as int + 1));
            }
            cm.push(m.to_core());
        }
        let mut cv: Vec<MethodVerification> = Vec::new();
        let mut k: usize = 0;
        while k < method_verifications.len()
            invariant
                k <= method_verifications@.len(),
                cv@.len() == k,
                forall|j: int|
                    0 <= j < k ==> {
                        &&& (#[trigger] cv@[j]).method_descriptor == method_verifications@[j].method_descriptor
                        &&& cv@[j].proof_type@ == "unverified"@
                        &&& cv@[j].proof_data@.len() == 0
                        &&& cv@[j].verified_at == 0
                    },
            decreases method_verifications.len() - k,
        {
            let v = &method_verifications[k];
            let copy = FfiMethodVerification {
                method_descriptor: v.method_descriptor.clone(),
                proof_type: v.proof_type.clone(),
                proof_data: v.proof_data.clone(),
                verified_at: v.verified_at,
            };
            cv.push(copy.to_core_unverified());
            k = k + 1;
        }
        let rotation = match rotation {
            Some(r) => Some(r.to_core()),
            None => None,
        };
        PaymentProfile {
            alias,
            identity_pubkey,
            methods: cm,
            updated_at,
            expires_at,
            sequence,
            preferences,
            nonce,
            rotation,
            method_verifications: cv,
        }
    }
}

impl FfiSignedPaymentProfile {
    /// The binding record of a signed profile.
    pub fn from_core(sp: SignedPaymentProfile) -> (r: Self)
        ensures
            r.signature == sp.signature,
            r.profile.alias == sp.profile.alias,
            r.profile.identity_pubkey == sp.profile.identity_pubkey,
            r.profile.methods@.len() == sp.profile.methods@.len(),
            forall|i: int|
                0 <= i < sp.profile.methods@.len() ==> ffi_method_of(
                    sp.profile.methods@[i],
                    #[trigger] r.profile.methods@[i],
                ),
    {
        let SignedPaymentProfile { profile, signature } = sp;
        FfiSignedPaymentProfile { profile: FfiPaymentProfile::from_core(profile), signature }
    }

    /// The library's signed profile of a binding record.
    pub fn to_core(self) -> (r: SignedPaymentProfile)
        ensures
            r.signature == self.signature,
            r.profile.alias == self.profile.alias,
            r.profile.identity_pubkey == self.profile.identity_pubkey,
            r.profile.rotation == (match self.profile.rotation {
                Some(k) => Some(core_rotation_of(k)),
                None => None,
            }),
            r.profile.methods@.len() == self.profile.methods@.len(),
            forall|i: int|
                0 <= i < self.profile.methods@.len() ==> core_method_of(
                    self.profile.methods@[i],
                    #[trigger] r.profile.methods@[i],
                ),
    {
        let FfiSignedPaymentProfile { profile, signature } = self;
        SignedPaymentProfile { profile: profile.to_core(), signature }
    }
}

/// The binding status of an invite status.
pub open spec fn ffi_status_of(s: InviteStatus) -> FfiInviteStatus {
    match s {
        InviteStatus::Created => FfiInviteStatus::Created,
        InviteStatus::EmailSent => FfiInviteStatus::EmailSent,
        InviteStatus::ClaimedWithPublicProfile => FfiInviteStatus::ClaimedWithPublicProfile,
        InviteStatus::Expired => FfiInviteStatus::Expired,
        InviteStatus::Cancelled => FfiInviteStatus::Cancelled,
    }
}

impl FfiInviteStatus {
    /// The binding status of an invite status.
    pub fn from_core(s: InviteStatus) -> (r: Self)
        ensures
            r == ffi_status_of(s),
    {
        match s {
            InviteStatus::Created => FfiInviteStatus::Created,
            InviteStatus::EmailSent => FfiInviteStatus::EmailSent,
            InviteStatus::ClaimedWithPublicProfile => FfiInviteStatus::ClaimedWithPublicProfile,
            InviteStatus::Expired => FfiInviteStatus::Expired,
            InviteStatus::Cancelled => FfiInviteStatus::Cancelled,
        }
    }
}

impl FfiInviteRecord {
    /// The binding record of an invite record: every field kept.
    pub fn from_core(r: InviteRecord) -> (f: Self)
        ensures
            f == (FfiInviteRecord {
                invite_id: r.invite_id,
                identifier_hash: r.identifier_hash,
                display_hint: r.display_hint,
                amount_sats: r.amount_sats,
                memo: r.memo,
                sender_fingerprint: r.sender_fingerprint,
                status: ffi_status_of(r.status),
                created_at: r.created_at,
                expires_at: r.expires_at,
            }),
    {
        FfiInviteRecord {
            invite_id: r.invite_id,
            identifier_hash: r.identifier_hash,
            display_hint: r.display_hint,
            amount_sats: r.amount_sats,
            memo: r.memo,
            sender_fingerprint: r.sender_fingerprint,
            status: FfiInviteStatus::from_core(r.status),
            created_at: r.created_at,
            expires_at: r.expires_at,
        }
    }
}

impl PaymentMethod {
    /// A field-for-field copy.
    pub fn clone_method(&self) -> (r: Self)
        ensures
            r == *self,
    {
        match self {
            PaymentMethod::Onchain { label, network, address, pubkey_hint, descriptor_hint } => {
                PaymentMethod::Onchain {
                    label: label.clone(),
                    network: *network,
                    address: address.clone(),
                    pubkey_hint: crate::profile::copy_opt(pubkey_hint),
                    descriptor_hint: crate::profile::copy_opt(descriptor_hint),
                }
            },
            PaymentMethod::Lightning { label, lightning_address, lnurl, bolt12, receiver_pubkey } => {
                PaymentMethod::Lightning {
                    label: label.clone(),
                    lightning_address: crate::profile::copy_opt(lightning_address),
                    lnurl: crate::profile::copy_opt(lnurl),
                    bolt12: crate::profile::copy_opt(bolt12),
                    receiver_pubkey: crate::profile::copy_opt(receiver_pubkey),
                }
            },
            PaymentMethod::Ark { label, server, pubkey, vtxo_pointer, proof: prf, expires_at } => {
                let cp = match prf {
                    Some(p) => Some(
                        ArkOwnershipProof {
                            message: p.message.clone(),
                            signature: p.signature.clone(),
                            pubkey: p.pubkey.clone(),
                        },
                    ),
                    None => None,
                };
                PaymentMethod::Ark {
                    label: label.clone(),
                    server: server.clone(),
                    pubkey: pubkey.clone(),
                    vtxo_pointer: crate::profile::copy_opt(vtxo_pointer),
                    proof: cp,
                    expires_at: *expires_at,
                }
            },
        }
    }
}

/// The bindings' fingerprint of a hex public key: hex of the first eight
/// bytes of the SHA-256 of the key's compressed serialisation, or empty when
/// the text is not hex or not a key.
pub open spec fn ffi_fingerprint_spec(pubkey_hex: Seq<char>) -> Seq<char> {
    if hex_valid(pubkey_hex) && pubkey_valid(hex_decode_spec(pubkey_hex)) {
        hex_encode_spec(sha256(pubkey_compressed(hex_decode_spec(pubkey_hex))).take(8))
    } else {
        Seq::empty()
    }
}

/// The bindings' 16-character fingerprint of a hex public key.
pub fn compute_fingerprint(pubkey_hex: &str) -> (r: String)
    ensures
        r@ == ffi_fingerprint_spec(pubkey_hex@),
{
    let bytes = match hex_decode(pubkey_hex) {
        Ok(b) => b,
        Err(_) => return String::new(),
    };
    let compressed = match parse_pubkey(bytes.as_slice()) {
        Ok(c) => c,
        Err(_) => return String::new(),
    };
    let hash = sha256_digest(compressed.as_slice());
    let head = vstd::slice::slice_subrange(hash.as_slice(), 0, 8);
    proof {
        assert(head@ =~= hash@.take(8));
    }
    hex_encode(head)
}

/// The bindings' fingerprint of a hex public key.
pub fn fingerprint_pubkey(pubkey_hex: String) -> (r: String)
    ensures
        r@ == ffi_fingerprint_spec(pubkey_hex@),
{
    compute_fingerprint(pubkey_hex.as_str())
}

/// A fresh identity: the hex of a new key pair and the key's fingerprint.
pub fn create_identity() -> (r: FfiIdentity)
    ensures
        hex_valid(r.secret_key_hex@),
        secret_valid(hex_decode_spec(r.secret_key_hex@)),
        r.pubkey_hex@ == hex_encode_spec(pubkey_of(hex_decode_spec(r.secret_key_hex@))),
        r.fingerprint@ == ffi_fingerprint_spec(r.pubkey_hex@),
{
    let kp = generate_identity_keypair();
    let secret = kp.secret_key.secret_bytes();
    let pubkey_hex = hex_encode(kp.public_key.as_slice());
    let fingerprint = compute_fingerprint(pubkey_hex.as_str());
    let secret_key_hex = hex_encode(secret.as_slice());
    proof {
        crate::crypto::lemma_hex_roundtrip(secret@);
    }
    FfiIdentity { pubkey_hex, secret_key_hex, fingerprint }
}

/// The secret key of a hex text, or the crypto error that refuses it.
fn secret_from_hex(secret_key_hex: &str) -> (r: Result<SecretKey, FfiError>)
    ensures
        r is Ok <==> (hex_valid(secret_key_hex@) && secret_valid(hex_decode_spec(secret_key_hex@))),
        r matches Ok(k) ==> k@ == hex_decode_spec(secret_key_hex@),
        r matches Err(e) ==> e is CryptoError,
{
    let bytes = match hex_decode(secret_key_hex) {
        Ok(b) => b,
        Err(e) => return Err(FfiError::CryptoError { reason: e }),
    };
    match SecretKey::from_slice(bytes.as_slice()) {
        Ok(k) => Ok(k),
        Err(e) => Err(FfiError::CryptoError { reason: e }),
    }
}

/// Signs a message with a hex secret key; a key that is not hex or not a
/// valid key is a crypto error.
pub fn sign_message(message: String, secret_key_hex: String) -> (r: Result<String, FfiError>)
    ensures
        r is Ok <==> (hex_valid(secret_key_hex@) && secret_valid(hex_decode_spec(secret_key_hex@))),
        r matches Ok(sig) ==> sig@ == message_signature_hex(message@, hex_decode_spec(secret_key_hex@)),
        r matches Err(e) ==> e is CryptoError,
{
    let key = match secret_from_hex(secret_key_hex.as_str()) {
        Ok(k) => k,
        Err(e) => return Err(e),
    };
    Ok(crate::crypto::sign_message(message.as_str(), &key))
}

/// Verifies a message signature; any failure to check is a crypto error
/// with the library error's text.
pub fn verify_message_signature(message: String, signature_hex: String, pubkey_hex: String) -> (r: Result<
    bool,
    FfiError,
>)
    ensures
        match sig_check(message@, signature_hex@, pubkey_hex@) {
            SigCheck::Checked(b) => r == Ok::<bool, FfiError>(b),
            _ => r matches Err(FfiError::CryptoError { .. }),
        },
{
    match crate::crypto::verify_message_signature(message.as_str(), signature_hex.as_str(), pubkey_hex.as_str()) {
        Ok(b) => Ok(b),
        Err(e) => Err(FfiError::CryptoError { reason: e.message() }),
    }
}

/// Whether a signed profile's signature verifies over `canonical_bytes`; a
/// failure to check counts as no.
pub fn verify_signed_profile(profile: FfiSignedPaymentProfile, canonical_bytes: &[u8]) -> (r: bool)
    ensures
        r == (sig_check_bytes(canonical_bytes@, profile.signature@, profile.profile.identity_pubkey@)
            == SigCheck::Checked(true)),
{
    SatspathImpl.verify_profile(profile, canonical_bytes)
}

/// Signs a profile, whose canonical serialisation is `canonical_bytes`, with
/// a hex secret key.
pub fn sign_profile(profile: FfiPaymentProfile, secret_key_hex: String, canonical_bytes: &[u8]) -> (r:
    Result<FfiSignedPaymentProfile, FfiError>)
    ensures
        r is Ok <==> (hex_valid(secret_key_hex@) && secret_valid(hex_decode_spec(secret_key_hex@))),
        r matches Ok(sp) ==> sp.signature@ == crate::crypto::bytes_signature_hex(
            canonical_bytes@,
            hex_decode_spec(secret_key_hex@),
        ) && sp.profile.alias == profile.alias && sp.profile.identity_pubkey == profile.identity_pubkey,
        r matches Err(e) ==> e is CryptoError,
{
    let key = match secret_from_hex(secret_key_hex.as_str()) {
        Ok(k) => k,
        Err(e) => return Err(e),
    };
    let core = profile.to_core();
    let signed = crate::crypto::sign_profile(core, canonical_bytes, &key);
    Ok(FfiSignedPaymentProfile::from_core(signed))
}

/// `key_rotation_verdict` read on binding records.
pub open spec fn ffi_rotation_verdict(old: FfiSignedPaymentProfile, new: FfiSignedPaymentProfile) -> Option<bool> {
    match new.profile.rotation {
        Some(k) => if k.previous_pubkey@ != old.profile.identity_pubkey@ {
            Some(false)
        } else if k.new_pubkey@ != new.profile.identity_pubkey@ {
            Some(false)
        } else {
            match rotation_check(core_rotation_of(k)) {
                SigCheck::Checked(b) => Some(b),
                _ => None,
            }
        },
        None => Some(false),
    }
}

/// Whether the new profile's rotation verifies from the old profile; any
/// failure to check counts as no.
pub fn verify_key_rotation(old_profile: FfiSignedPaymentProfile, new_profile: FfiSignedPaymentProfile) -> (r:
    bool)
    ensures
        r == (ffi_rotation_verdict(old_profile, new_profile) == Some(true)),
{
    let old_core = old_profile.to_core();
    let new_core = new_profile.to_core();
    match crate::rotation::verify_key_rotation(&old_core, &new_core) {
        Ok(b) => b,
        Err(_) => false,
    }
}

/// The resolver chain offered to the bindings.
pub struct FfiResolverChain<R> {
    inner: ChainResolver<R>,
}

impl<R: ProfileResolver> FfiResolverChain<R> {
    pub closed spec fn chain(&self) -> ChainResolver<R> {
        self.inner
    }

    /// Offers `chain` to the bindings.
    pub fn new(chain: ChainResolver<R>) -> (r: Self)
        ensures
            r.chain() == chain,
    {
        FfiResolverChain { inner: chain }
    }

    /// Resolves an alias through the chain; errors become binding errors.
    pub fn resolve_alias(&self, alias: String) -> (r: Result<FfiSignedPaymentProfile, FfiError>)
        ensures
            exists|outcomes: Seq<Result<SignedPaymentProfile, SatsPathError>>, c: Result<
                SignedPaymentProfile,
                SatsPathError,
            >| #[trigger] chain_answers(self.chain().view(), alias@, outcomes, c) && ffi_answer_of(c, r),
            r matches Ok(p) ==> crate::privacy::canonical(p.profile.alias@) == crate::privacy::canonical(alias@),
            r matches Err(FfiError::NetworkError { .. }) ==> false,
            self.chain().view().len() == 0 ==> (r matches Err(FfiError::AliasNotFound { reason }) && reason@
                == alias@),
    {
        let core = self.inner.resolve_alias(alias.as_str());
        let ghost c = core;
        let r = match core {
            Ok(p) => Ok(FfiSignedPaymentProfile::from_core(p)),
            Err(e) => Err(FfiError::from_core(e)),
        };
        proof {
            let outcomes = choose|o: Seq<Result<SignedPaymentProfile, SatsPathError>>|
                chain_answers(self.inner.view(), alias@, o, c);
            assert(chain_answers(self.chain().view(), alias@, outcomes, c) && ffi_answer_of(c, r));
        }
        r
    }

    /// The chain itself.
    pub fn inner(&self) -> (r: &ChainResolver<R>)
        ensures
            *r == self.chain(),
    {
        &self.inner
    }
}

/// The library's entry points for the bindings.
pub struct SatspathImpl;

impl SatspathImpl {
    /// Whether a signed profile's signature verifies over its canonical
    /// serialisation `canonical_bytes`; any failure to check counts as no.
    pub fn verify_profile(&self, profile: FfiSignedPaymentProfile, canonical_bytes: &[u8]) -> (r: bool)
        ensures
            r == (sig_check_bytes(canonical_bytes@, profile.signature@, profile.profile.identity_pubkey@)
                == SigCheck::Checked(true)),
    {
        let core = profile.to_core();
        match crate::crypto::verify_signed_profile(&core, canonical_bytes) {
            Ok(b) => b,
            Err(_) => false,
        }
    }
}

/// The routing entry points for the bindings.
pub struct RouterImpl;

/// A resolver entry point for the bindings that resolves through a chain.
pub struct ProfileResolverImpl;

/// A resolver-chain entry point for the bindings.
pub struct ResolverChainImpl<R> {
    inner: FfiResolverChain<R>,
}

impl<R: ProfileResolver> ResolverChainImpl<R> {
    pub closed spec fn chain(&self) -> FfiResolverChain<R> {
        self.inner
    }

    /// Offers `chain` to the bindings.
    pub fn new(chain: FfiResolverChain<R>) -> (r: Self)
        ensures
            r.chain() == chain,
    {
        ResolverChainImpl { inner: chain }
    }

    /// Resolves an alias through the chain: a profile is always one for the
    /// same canonical identifier, a network failure never ends the chain, and
    /// an empty chain answers "not found" for the alias.
    pub fn resolve_alias(&self, alias: String) -> (r: Result<FfiSignedPaymentProfile, FfiError>)
        ensures
            r matches Ok(p) ==> crate::privacy::canonical(p.profile.alias@) == crate::privacy::canonical(alias@),
            r matches Err(FfiError::NetworkError { .. }) ==> false,
            self.chain().chain().view().len() == 0 ==> (r matches Err(FfiError::AliasNotFound { reason })
                && reason@ == alias@),
            exists|outcomes: Seq<Result<SignedPaymentProfile, SatsPathError>>, c: Result<
                SignedPaymentProfile,
                SatsPathError,
            >| #[trigger] chain_answers(self.chain().chain().view(), alias@, outcomes, c) && ffi_answer_of(c, r),
    {
        let r = self.inner.resolve_alias(alias);
        proof {
            let (outcomes, c) = choose|o: Seq<Result<SignedPaymentProfile, SatsPathError>>, c: Result<
                SignedPaymentProfile,
                SatsPathError,
            >| #[trigger] chain_answers(self.inner.chain().view(), alias@, o, c) && ffi_answer_of(c, r);
            assert(chain_answers(self.chain().chain().view(), alias@, outcomes, c) && ffi_answer_of(c, r));
        }
        r
    }
}

} // verus!
