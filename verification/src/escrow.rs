//! Messages of the custodial escrow service that holds invite deposits.

use vstd::prelude::*;

verus! {

/// Where an escrowed deposit stands.
#[derive(Debug, Clone, Copy, PartialEq, Eq, Structural)]
pub enum EscrowStatus {
    WaitingForDeposit,
    Funded,
    Claimed,
    Refunded,
}

/// A deposit held for the owner of an identifier hash.
#[derive(Debug, Clone, PartialEq, Eq)]
pub struct EscrowRecord {
    pub escrow_id: String,
    pub receiver_alias_hash: String,
    pub amount_sats: u64,
    pub status: EscrowStatus,
    pub claim_secret_hash: String,
    pub deposit_invoice: String,
    pub created_at: i64,
    pub expires_at: i64,
}

/// A request to escrow `amount_sats` for the owner of an identifier hash.
#[derive(Debug, Clone, PartialEq, Eq)]
pub struct DepositRequest {
    pub receiver_alias_hash: String,
    pub amount_sats: u64,
}

/// The escrow's answer to a deposit: the claim secret and the invoice to pay.
#[derive(Debug, Clone, PartialEq, Eq)]
pub struct DepositResponse {
    pub escrow_id: String,
    pub claim_secret: String,
    pub deposit_invoice: String,
    pub status: EscrowStatus,
}

/// A claim of an escrowed deposit by the alias owner.
#[derive(Debug, Clone, PartialEq, Eq)]
pub struct ClaimRequest {
    pub escrow_id: String,
    pub claim_secret: String,
    pub receiver_alias: String,
}

/// The escrow's answer to a claim.
#[derive(Debug, Clone, PartialEq, Eq)]
pub struct ClaimResponse {
    pub status: String,
    pub message: String,
    pub amount_sats: u64,
}

} // verus!
