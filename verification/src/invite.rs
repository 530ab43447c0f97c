//! Invites for identifiers that have no published profile yet.

use vstd::prelude::*;
use crate::ark::unix_now;
use crate::encoding::{dec_nat, u64_to_dec};
use crate::privacy::{identifier_hash, identifier_hash_spec, mask_identifier, mask_identifier_spec};
use crate::profile::{Invite, InviteRecord, InviteStatus};
use crate::text::{chars_of, push_chars, push_str, slice_chars, string_of};

verus! {

/// The warning every invite carries.
pub open spec fn invite_warning() -> Seq<char> {
    "The receiver must claim this payment by generating their own keys locally. SatsPath never holds or generates keys on behalf of users."@
}

/// The claim link of an invite: the first 16 hex digits of the alias hash and
/// the amount.
pub open spec fn claim_url_spec(alias_hash: Seq<char>, amount_sats: u64) -> Seq<char> {
    "https://satspath.local/claim?alias_hash="@ + alias_hash.take(16) + "&amount="@ + dec_nat(
        amount_sats as nat,
    )
}

/// An invite for an unregistered alias, created at time `now`.
pub fn create_invite_at(alias: &str, amount_sats: u64, now: i64) -> (r: Invite)
    ensures
        r.alias_hash@ == identifier_hash_spec(alias@),
        r.amount_sats == amount_sats,
        r.created_at == now,
        r.claim_url@ == claim_url_spec(identifier_hash_spec(alias@), amount_sats),
        r.warning@ == invite_warning(),
{
    let alias_hash = identifier_hash(alias);
    let h = chars_of(alias_hash.as_str());
    let head = slice_chars(&h, 0, 16);
    let mut url: Vec<char> = Vec::new();
    push_str(&mut url, "https://satspath.local/claim?alias_hash=");
    push_chars(&mut url, &head);
    push_str(&mut url, "&amount=");
    let d = u64_to_dec(amount_sats);
    push_chars(&mut url, &d);
    let claim_url = string_of(url.as_slice());
    let warning = "The receiver must claim this payment by generating their own keys locally. SatsPath never holds or generates keys on behalf of users.".to_string();
    proof {
        reveal_strlit("The receiver must claim this payment by generating their own keys locally. SatsPath never holds or generates keys on behalf of users.");
    }
    Invite { alias_hash, amount_sats, created_at: now, claim_url, warning }
}

/// An invite for an unregistered alias, created now.
pub fn create_invite(alias: &str, amount_sats: u64) -> (r: Invite)
    ensures
        r.alias_hash@ == identifier_hash_spec(alias@),
        r.amount_sats == amount_sats,
        r.claim_url@ == claim_url_spec(identifier_hash_spec(alias@), amount_sats),
        r.warning@ == invite_warning(),
{
    let now = unix_now();
    create_invite_at(alias, amount_sats, now)
}

/// An invite record with the given id, created at `now` and expiring
/// `ttl_seconds` later (with `i64` wrap-around).
pub fn create_invite_record_with(
    identifier: &str,
    amount_sats: u64,
    memo: Option<String>,
    sender_fingerprint: String,
    ttl_seconds: i64,
    invite_id: String,
    now: i64,
) -> (r: InviteRecord)
    ensures
        r.invite_id == invite_id,
        r.identifier_hash@ == identifier_hash_spec(identifier@),
        r.display_hint@ == mask_identifier_spec(identifier@),
        r.amount_sats == amount_sats,
        r.memo == memo,
        r.sender_fingerprint == sender_fingerprint,
        r.status == InviteStatus::Created,
        r.created_at == now,
        r.expires_at == now.wrapping_add(ttl_seconds),
{
    InviteRecord {
        invite_id,
        identifier_hash: identifier_hash(identifier),
        display_hint: mask_identifier(identifier),
        amount_sats,
        memo,
        sender_fingerprint,
        status: InviteStatus::Created,
        created_at: now,
        expires_at: now.wrapping_add(ttl_seconds),
    }
}

/// A fresh random version-4 UUID in its hyphenated text form
/// (`uuid::Uuid::new_v4`).
///
/// Trusted: nothing is stated; the value is random.
#[verifier::external_body]
fn new_invite_id() -> (r: String) {
    uuid::Uuid::new_v4().to_string()
}

/// An invite record with a random id, created now.
pub fn create_invite_record(
    identifier: &str,
    amount_sats: u64,
    memo: Option<String>,
    sender_fingerprint: String,
    ttl_seconds: i64,
) -> (r: InviteRecord)
    ensures
        r.identifier_hash@ == identifier_hash_spec(identifier@),
        r.display_hint@ == mask_identifier_spec(identifier@),
        r.amount_sats == amount_sats,
        r.memo == memo,
        r.sender_fingerprint == sender_fingerprint,
        r.status == InviteStatus::Created,
        r.expires_at == r.created_at.wrapping_add(ttl_seconds),
{
    let now = unix_now();
    let id = new_invite_id();
    create_invite_record_with(identifier, amount_sats, memo, sender_fingerprint, ttl_seconds, id, now)
}

} // verus!
