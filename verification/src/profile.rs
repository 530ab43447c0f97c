//! Payment profiles, their methods, payment requests and invites.

use vstd::prelude::*;
use crate::text::{push_chars, push_str, string_of, chars_of, lower_chars, trim_chars, to_ascii_lower, trim};

verus! {

/// The Bitcoin network that an on-chain method lives on.
#[derive(Debug, Clone, Copy, PartialEq, Eq, Structural)]
pub enum BitcoinNetwork {
    Mainnet,
    Testnet,
    Regtest,
}

/// The network an on-chain method has when none is given.
pub fn default_bitcoin_network() -> (n: BitcoinNetwork)
    ensures
        n == BitcoinNetwork::Mainnet,
{
    BitcoinNetwork::Mainnet
}

/// A signature by an Ark receiver key over an ownership challenge.
#[derive(Debug, Clone, PartialEq, Eq)]
pub struct ArkOwnershipProof {
    pub message: String,
    pub signature: String,
    pub pubkey: String,
}

/// A proof that the previous identity key authorised a new one.
#[derive(Debug, Clone, PartialEq, Eq)]
pub struct KeyRotation {
    /// The previous identity public key (hex).
    pub previous_pubkey: String,
    /// The new identity public key (hex); matches the profile's identity key.
    pub new_pubkey: String,
    /// Signature of the rotation message by the previous key.
    pub authorization_signature: String,
    /// When the rotation happened (Unix seconds).
    pub rotated_at: i64,
}

/// An ownership attestation bound to a method's ownership descriptor.
#[derive(Debug, Clone, PartialEq, Eq)]
pub struct MethodVerification {
    pub method_descriptor: String,
    pub proof_type: String,
    pub proof_data: String,
    pub verified_at: i64,
}

/// A single payment method supported by the profile owner.
#[derive(Debug, Clone, PartialEq, Eq)]
pub enum PaymentMethod {
    /// On-chain Bitcoin. Multiple entries are encouraged for privacy.
    Onchain {
        label: String,
        network: BitcoinNetwork,
        address: String,
        pubkey_hint: Option<String>,
        descriptor_hint: Option<String>,
    },
    /// Lightning Network via LNURL, Lightning Address, or BOLT12.
    Lightning {
        label: String,
        lightning_address: Option<String>,
        lnurl: Option<String>,
        bolt12: Option<String>,
        receiver_pubkey: Option<String>,
    },
    /// Ark virtual UTXO protocol.
    Ark {
        label: String,
        server: String,
        pubkey: String,
        vtxo_pointer: Option<String>,
        proof: Option<ArkOwnershipProof>,
        expires_at: Option<i64>,
    },
}

/// A user-owned payment profile associating an alias with payment methods.
#[derive(Debug, Clone, PartialEq, Eq)]
pub struct PaymentProfile {
    /// Human-readable identifier, e.g. "alice@example.com".
    pub alias: String,
    /// Hex-encoded secp256k1 compressed public key.
    pub identity_pubkey: String,
    /// Ordered list of payment methods (most preferred first).
    pub methods: Vec<PaymentMethod>,
    /// Unix timestamp of last update.
    pub updated_at: i64,
    /// Unix timestamp from which the profile is expired; `None` never expires.
    pub expires_at: Option<i64>,
    /// Monotonic profile sequence number, when the publisher keeps one.
    pub sequence: Option<u64>,
    /// Preferred rails, most preferred first.
    pub preferences: Vec<String>,
    /// Publisher nonce.
    pub nonce: Option<String>,
    /// A key rotation that this profile carries.
    pub rotation: Option<KeyRotation>,
    /// Ownership attestations, one per proven method.
    pub method_verifications: Vec<MethodVerification>,
}

/// A payment profile with the owner's signature over its canonical bytes.
#[derive(Debug, Clone, PartialEq, Eq)]
pub struct SignedPaymentProfile {
    pub profile: PaymentProfile,
    /// Hex-encoded DER secp256k1 ECDSA signature.
    pub signature: String,
}

/// A parsed universal SatsPath payment request.
#[derive(Debug, Clone, PartialEq, Eq)]
pub struct PaymentRequest {
    pub version: u32,
    pub alias: String,
    pub amount_sats: Option<u64>,
    pub memo: Option<String>,
    pub profile_hint: Option<String>,
}

/// An invitation for an unregistered user to claim a pending payment.
#[derive(Debug, Clone, PartialEq, Eq)]
pub struct Invite {
    /// SHA-256 hash of the canonical alias (hex).
    pub alias_hash: String,
    pub amount_sats: u64,
    pub created_at: i64,
    pub claim_url: String,
    pub warning: String,
}

/// Non-custodial invite state for an identifier with no published profile.
#[derive(Debug, Clone, PartialEq, Eq)]
pub struct InviteRecord {
    pub invite_id: String,
    pub identifier_hash: String,
    pub display_hint: String,
    pub amount_sats: u64,
    pub memo: Option<String>,
    pub sender_fingerprint: String,
    pub status: InviteStatus,
    pub created_at: i64,
    pub expires_at: i64,
}

#[derive(Debug, Clone, Copy, PartialEq, Eq, Structural)]
pub enum InviteStatus {
    Created,
    EmailSent,
    ClaimedWithPublicProfile,
    Expired,
    Cancelled,
}

/// Public claim policy metadata only. It is never sufficient to spend funds.
#[derive(Debug, Clone, PartialEq, Eq)]
pub enum ClaimPolicy {
    SingleSig { receiver_pubkey: String },
    Multisig { threshold: u8, pubkeys: Vec<String>, descriptor: Option<String> },
    FutureTaproot { internal_key: String, script_policy_hint: Option<String> },
}

/// A copy of an optional string.
pub fn copy_opt(s: &Option<String>) -> (r: Option<String>)
    ensures
        r == *s,
{
    match s {
        Some(v) => Some(v.clone()),
        None => None,
    }
}

/// A copy of a list of strings.
pub fn copy_strings(v: &Vec<String>) -> (r: Vec<String>)
    ensures
        r@ == v@,
{
    let mut r: Vec<String> = Vec::new();
    let mut i: usize = 0;
    while i < v.len()
        invariant
            i <= v@.len(),
            r@ == v@.subrange(0, i as int),
        decreases v.len() - i,
    {
        r.push(v[i].clone());
        i = i + 1;
    }
    assert(r@ =~= v@);
    r
}

impl ArkOwnershipProof {
    /// A field-for-field copy.
    pub fn copy(&self) -> (r: Self)
        ensures
            r == *self,
    {
        ArkOwnershipProof {
            message: self.message.clone(),
            signature: self.signature.clone(),
            pubkey: self.pubkey.clone(),
        }
    }
}

impl KeyRotation {
    /// A field-for-field copy.
    pub fn copy(&self) -> (r: Self)
        ensures
            r == *self,
    {
        KeyRotation {
            previous_pubkey: self.previous_pubkey.clone(),
            new_pubkey: self.new_pubkey.clone(),
            authorization_signature: self.authorization_signature.clone(),
            rotated_at: self.rotated_at,
        }
    }
}

impl MethodVerification {
    /// A field-for-field copy.
    pub fn copy(&self) -> (r: Self)
        ensures
            r == *self,
    {
        MethodVerification {
            method_descriptor: self.method_descriptor.clone(),
            proof_type: self.proof_type.clone(),
            proof_data: self.proof_data.clone(),
            verified_at: self.verified_at,
        }
    }
}

impl PaymentMethod {
    /// A field-for-field copy.
    pub fn copy(&self) -> (r: Self)
        ensures
            r == *self,
    {
        match self {
            PaymentMethod::Onchain { label, network, address, pubkey_hint, descriptor_hint } => {
                PaymentMethod::Onchain {
                    label: label.clone(),
                    network: *network,
                    address: address.clone(),
                    pubkey_hint: copy_opt(pubkey_hint),
                    descriptor_hint: copy_opt(descriptor_hint),
                }
            },
            PaymentMethod::Lightning { label, lightning_address, lnurl, bolt12, receiver_pubkey } => {
                PaymentMethod::Lightning {
                    label: label.clone(),
                    lightning_address: copy_opt(lightning_address),
                    lnurl: copy_opt(lnurl),
                    bolt12: copy_opt(bolt12),
                    receiver_pubkey: copy_opt(receiver_pubkey),
                }
            },
            PaymentMethod::Ark { label, server, pubkey, vtxo_pointer, proof: ark_proof, expires_at } => {
                let proof_copy = match ark_proof {
                    Some(p) => Some(p.copy()),
                    None => None,
                };
                PaymentMethod::Ark {
                    label: label.clone(),
                    server: server.clone(),
                    pubkey: pubkey.clone(),
                    vtxo_pointer: copy_opt(vtxo_pointer),
                    proof: proof_copy,
                    expires_at: *expires_at,
                }
            },
        }
    }

    /// The rail name of the method.
    pub fn method_name(&self) -> (r: &'static str)
        ensures
            r@ == method_name_spec(*self),
    {
        proof {
            reveal_strlit("Onchain");
            reveal_strlit("Lightning");
            reveal_strlit("Ark");
        }
        match self {
            PaymentMethod::Onchain { .. } => "Onchain",
            PaymentMethod::Lightning { .. } => "Lightning",
            PaymentMethod::Ark { .. } => "Ark",
        }
    }

    /// The method's label.
    pub fn label(&self) -> (r: &str)
        ensures
            r@ == label_spec(*self),
    {
        match self {
            PaymentMethod::Onchain { label, .. } => label.as_str(),
            PaymentMethod::Lightning { label, .. } => label.as_str(),
            PaymentMethod::Ark { label, .. } => label.as_str(),
        }
    }

    /// A stable, public, privacy-safe identifier for this method.
    ///
    /// An ownership proof is bound to this descriptor so it cannot be lifted
    /// from one method and replayed onto another. It holds only public
    /// pointers.
    pub fn ownership_descriptor(&self) -> (r: String)
        ensures
            r@ == ownership_descriptor_spec(*self),
    {
        let mut out: Vec<char> = Vec::new();
        match self {
            PaymentMethod::Onchain { network, address, .. } => {
                push_str(&mut out, "onchain:");
                match network {
                    BitcoinNetwork::Mainnet => push_str(&mut out, "mainnet"),
                    BitcoinNetwork::Testnet => push_str(&mut out, "testnet"),
                    BitcoinNetwork::Regtest => push_str(&mut out, "regtest"),
                }
                push_str(&mut out, ":");
                push_str(&mut out, address.as_str());
            },
            PaymentMethod::Lightning { lightning_address, lnurl, bolt12, label, .. } => {
                if let Some(addr) = lightning_address {
                    push_str(&mut out, "ln-address:");
                    let a = chars_of(addr.as_str());
                    let t = trim_chars(&a);
                    let l = lower_chars(&t);
                    push_chars(&mut out, &l);
                } else if let Some(url) = lnurl {
                    push_str(&mut out, "lnurl:");
                    push_str(&mut out, url.as_str());
                } else if let Some(offer) = bolt12 {
                    push_str(&mut out, "bolt12:");
                    push_str(&mut out, offer.as_str());
                } else {
                    push_str(&mut out, "lightning:");
                    push_str(&mut out, label.as_str());
                }
            },
            PaymentMethod::Ark { pubkey, .. } => {
                push_str(&mut out, "ark:");
                push_str(&mut out, pubkey.as_str());
            },
        }
        string_of(out.as_slice())
    }
}

pub open spec fn method_name_spec(m: PaymentMethod) -> Seq<char> {
    match m {
        PaymentMethod::Onchain { .. } => "Onchain"@,
        PaymentMethod::Lightning { .. } => "Lightning"@,
        PaymentMethod::Ark { .. } => "Ark"@,
    }
}

pub open spec fn label_spec(m: PaymentMethod) -> Seq<char> {
    match m {
        PaymentMethod::Onchain { label, .. } => label@,
        PaymentMethod::Lightning { label, .. } => label@,
        PaymentMethod::Ark { label, .. } => label@,
    }
}

pub open spec fn network_name(n: BitcoinNetwork) -> Seq<char> {
    match n {
        BitcoinNetwork::Mainnet => "mainnet"@,
        BitcoinNetwork::Testnet => "testnet"@,
        BitcoinNetwork::Regtest => "regtest"@,
    }
}

/// `onchain:<network>:<address>`, `ln-address:<normalised address>`,
/// `lnurl:<url>`, `bolt12:<offer>`, `lightning:<label>` or `ark:<pubkey>`.
pub open spec fn ownership_descriptor_spec(m: PaymentMethod) -> Seq<char> {
    match m {
        PaymentMethod::Onchain { network, address, .. } => "onchain:"@ + network_name(network)
            + ":"@ + address@,
        PaymentMethod::Lightning { lightning_address, lnurl, bolt12, label, .. } => {
            if lightning_address is Some {
                "ln-address:"@ + to_ascii_lower(trim(lightning_address->0@))
            } else if lnurl is Some {
                "lnurl:"@ + lnurl->0@
            } else if bolt12 is Some {
                "bolt12:"@ + bolt12->0@
            } else {
                "lightning:"@ + label@
            }
        },
        PaymentMethod::Ark { pubkey, .. } => "ark:"@ + pubkey@,
    }
}

/// A copy of a list of methods.
pub fn copy_methods(v: &Vec<PaymentMethod>) -> (r: Vec<PaymentMethod>)
    ensures
        r@ == v@,
{
    let mut r: Vec<PaymentMethod> = Vec::new();
    let mut i: usize = 0;
    while i < v.len()
        invariant
            i <= v@.len(),
            r@ == v@.subrange(0, i as int),
        decreases v.len() - i,
    {
        r.push(v[i].copy());
        i = i + 1;
    }
    assert(r@ =~= v@);
    r
}

/// A copy of a list of method verifications.
pub fn copy_verifications(v: &Vec<MethodVerification>) -> (r: Vec<MethodVerification>)
    ensures
        r@ == v@,
{
    let mut r: Vec<MethodVerification> = Vec::new();
    let mut i: usize = 0;
    while i < v.len()
        invariant
            i <= v@.len(),
            r@ == v@.subrange(0, i as int),
        decreases v.len() - i,
    {
        r.push(v[i].copy());
        i = i + 1;
    }
    assert(r@ =~= v@);
    r
}

/// Two profiles hold the same values (lists compared by their elements).
pub open spec fn profile_eq(a: PaymentProfile, b: PaymentProfile) -> bool {
    &&& a.alias == b.alias
    &&& a.identity_pubkey == b.identity_pubkey
    &&& a.methods@ == b.methods@
    &&& a.updated_at == b.updated_at
    &&& a.expires_at == b.expires_at
    &&& a.sequence == b.sequence
    &&& a.preferences@ == b.preferences@
    &&& a.nonce == b.nonce
    &&& a.rotation == b.rotation
    &&& a.method_verifications@ == b.method_verifications@
}

/// Two signed profiles hold the same values.
pub open spec fn signed_eq(a: SignedPaymentProfile, b: SignedPaymentProfile) -> bool {
    profile_eq(a.profile, b.profile) && a.signature == b.signature
}

impl PaymentProfile {
    /// A field-for-field copy.
    pub fn copy(&self) -> (r: Self)
        ensures
            profile_eq(r, *self),
    {
        let rotation = match &self.rotation {
            Some(r) => Some(r.copy()),
            None => None,
        };
        PaymentProfile {
            alias: self.alias.clone(),
            identity_pubkey: self.identity_pubkey.clone(),
            methods: copy_methods(&self.methods),
            updated_at: self.updated_at,
            expires_at: self.expires_at,
            sequence: self.sequence,
            preferences: copy_strings(&self.preferences),
            nonce: copy_opt(&self.nonce),
            rotation,
            method_verifications: copy_verifications(&self.method_verifications),
        }
    }
}

impl SignedPaymentProfile {
    /// A field-for-field copy.
    pub fn copy(&self) -> (r: Self)
        ensures
            signed_eq(r, *self),
    {
        SignedPaymentProfile { profile: self.profile.copy(), signature: self.signature.clone() }
    }
}

} // verus!
