//! Ark receive pointers and their ownership proofs.

use vstd::prelude::*;
use crate::crypto::{verify_message_signature, sig_check, sig_check_result, SigCheck};
use crate::errors::SatsPathError;
use crate::profile::copy_opt;
use crate::text::{chars_of, is_prefix, push_str, starts_with_chars, chars_eq, string_of};
use crate::validation::{
    assert_no_private_material, compressed_pubkey_ok, private_material_reason,
    validate_compressed_pubkey,
};

pub use crate::profile::ArkOwnershipProof;

verus! {

#[derive(Debug, Clone, Copy, PartialEq, Eq, Structural)]
pub enum ArkRouteKind {
    ArkToArk,
    ArkToLightning,
    LightningToArk,
    ArkToOnchain,
    OnchainToArk,
}

/// Where an Ark payment is received, with an optional ownership proof.
#[derive(Debug, Clone, PartialEq, Eq)]
pub struct ArkReceivePointer {
    pub server: String,
    pub receiver_pubkey: String,
    pub vtxo_pointer: Option<String>,
    pub proof: Option<ArkOwnershipProof>,
    pub expires_at: Option<i64>,
}

#[derive(Debug, Clone, Copy, PartialEq, Eq, Structural)]
pub enum ArkIntentStatus {
    PreviewOnly,
    TestnetReady,
    TestnetExecutionBlocked,
    ExecutedTestnet,
    Expired,
}

#[derive(Debug, Clone, PartialEq, Eq)]
pub struct ArkPaymentIntent {
    pub route_kind: ArkRouteKind,
    pub amount_sats: u64,
    pub receiver_pointer: ArkReceivePointer,
    pub status: ArkIntentStatus,
    pub created_at: i64,
    pub expires_at: i64,
}

#[derive(Debug, Clone, Default, PartialEq, Eq)]
pub struct ClientValidationReport {
    pub profile_signature_valid: bool,
    pub profile_fresh: bool,
    pub ark_pointer_valid: bool,
    pub ark_ownership_verified: bool,
    pub method_verified: bool,
    pub safe_for_preview: bool,
    pub safe_for_testnet_execution: bool,
    pub warnings: Vec<String>,
    pub errors: Vec<String>,
}

/// Whether `url::Url::parse` accepts the text.
pub uninterp spec fn url_parses(s: Seq<char>) -> bool;

/// The scheme of a URL that parses.
pub uninterp spec fn url_scheme(s: Seq<char>) -> Seq<char>;

/// Whether a URL that parses has a host.
pub uninterp spec fn url_has_host(s: Seq<char>) -> bool;

/// The query pairs (`query_pairs`) of a URL that parses, decoded, in order.
pub uninterp spec fn url_query_pairs(s: Seq<char>) -> Seq<(Seq<char>, Seq<char>)>;

/// The scheme, the presence of a host and the query pairs of a parsed URL.
pub struct UrlParts {
    pub scheme: String,
    pub has_host: bool,
    pub query: Vec<(String, String)>,
}

/// The texts of a list of string pairs.
pub open spec fn pair_views(v: Seq<(String, String)>) -> Seq<(Seq<char>, Seq<char>)> {
    v.map_values(|p: (String, String)| (p.0@, p.1@))
}

/// Parses a URL (`url::Url::parse`), keeping its scheme, whether it has a
/// host and its decoded query pairs; the error is the crate's message.
///
/// Trusted: the result depends on the text alone; the parts are those of the
/// parsed URL. The error text is not stated.
#[verifier::external_body]
pub(crate) fn parse_url(s: &str) -> (r: Result<UrlParts, String>)
    ensures
        r is Ok <==> url_parses(s@),
        r matches Ok(p) ==> p.scheme@ == url_scheme(s@) && p.has_host == url_has_host(s@) && pair_views(
            p.query@,
        ) == url_query_pairs(s@),
{
    match url::Url::parse(s) {
        Ok(u) => Ok(UrlParts {
            scheme: u.scheme().to_string(),
            has_host: u.host_str().is_some(),
            query: u.query_pairs().map(|(k, v)| (k.into_owned(), v.into_owned())).collect(),
        }),
        Err(e) => Err(e.to_string()),
    }
}

/// The current Unix time in seconds (`chrono::Utc::now().timestamp()`).
///
/// Trusted: nothing is stated; the value is the wall clock's.
#[verifier::external_body]
pub(crate) fn unix_now() -> (t: i64) {
    chrono::Utc::now().timestamp()
}

/// The challenge text an Ark receiver key signs:
/// `satspath-proof:<alias>:ark:<server>:<receiver_pubkey>:<nonce>`.
pub open spec fn ark_challenge_spec(
    alias: Seq<char>,
    server: Seq<char>,
    receiver_pubkey: Seq<char>,
    nonce: Seq<char>,
) -> Seq<char> {
    "satspath-proof:"@ + alias + ":ark:"@ + server + ":"@ + receiver_pubkey + ":"@ + nonce
}

/// The ownership challenge for an Ark receive pointer.
pub fn ark_ownership_challenge(alias: &str, ark_server: &str, receiver_pubkey: &str, nonce: &str) -> (r:
    String)
    ensures
        r@ == ark_challenge_spec(alias@, ark_server@, receiver_pubkey@, nonce@),
{
    let mut out: Vec<char> = Vec::new();
    push_str(&mut out, "satspath-proof:");
    push_str(&mut out, alias);
    push_str(&mut out, ":ark:");
    push_str(&mut out, ark_server);
    push_str(&mut out, ":");
    push_str(&mut out, receiver_pubkey);
    push_str(&mut out, ":");
    push_str(&mut out, nonce);
    string_of(out.as_slice())
}

/// An Ark server URL: no private material, parses, `https`, with a host.
pub open spec fn ark_server_ok(s: Seq<char>) -> bool {
    &&& private_material_reason(s) is None
    &&& url_parses(s)
    &&& url_scheme(s) == "https"@
    &&& url_has_host(s)
}

/// The error for a refused Ark server URL: the private material found, else
/// an invalid pointer.
pub open spec fn ark_server_error(s: Seq<char>, e: SatsPathError) -> bool {
    match private_material_reason(s) {
        Some(m) => e matches SatsPathError::PrivateMaterialRejected(t) && t@ == m,
        None => e is InvalidPaymentPointer,
    }
}

/// Checks an Ark server URL.
pub fn validate_ark_server_url(server: &str) -> (r: Result<(), SatsPathError>)
    ensures
        r is Ok <==> ark_server_ok(server@),
        r matches Err(e) ==> ark_server_error(server@, e),
{
    match assert_no_private_material(server) {
        Ok(()) => {},
        Err(e) => return Err(e),
    }
    let parts = match parse_url(server) {
        Ok(p) => p,
        Err(e) => return Err(SatsPathError::InvalidPaymentPointer(e)),
    };
    let https = chars_of("https");
    let scheme = chars_of(parts.scheme.as_str());
    proof {
        reveal_strlit("https");
    }
    if !chars_eq(&scheme, &https) {
        return Err(SatsPathError::InvalidPaymentPointer("Ark server URL must use https".to_string()));
    }
    if !parts.has_host {
        return Err(
            SatsPathError::InvalidPaymentPointer("Ark server URL must include a host".to_string()),
        );
    }
    Ok(())
}

/// What `validate_ark_receive_pointer` accepts at time `now`.
pub open spec fn ark_pointer_ok(p: ArkReceivePointer, now: i64) -> bool {
    &&& ark_server_ok(p.server@)
    &&& compressed_pubkey_ok(p.receiver_pubkey@)
    &&& (p.vtxo_pointer matches Some(v) ==> private_material_reason(v@) is None)
    &&& (p.expires_at matches Some(e) ==> e > now)
}

/// The error for a refused Ark receive pointer, by the first check that
/// fails: the server URL's, an invalid receiver key, the private material in
/// the VTXO pointer, or expiry (an invalid pointer).
pub open spec fn ark_pointer_error(p: ArkReceivePointer, now: i64, e: SatsPathError) -> bool {
    if !ark_server_ok(p.server@) {
        ark_server_error(p.server@, e)
    } else if !compressed_pubkey_ok(p.receiver_pubkey@) {
        e is InvalidPublicKey
    } else if p.vtxo_pointer is Some && private_material_reason(p.vtxo_pointer->0@) is Some {
        e matches SatsPathError::PrivateMaterialRejected(t) && Some(t@) == private_material_reason(
            p.vtxo_pointer->0@,
        )
    } else {
        e is InvalidPaymentPointer
    }
}

/// Checks an Ark receive pointer at time `now`: server URL, receiver key, no
/// private material in the VTXO pointer, and not expired.
pub fn validate_ark_receive_pointer(pointer: &ArkReceivePointer, now: i64) -> (r: Result<
    (),
    SatsPathError,
>)
    ensures
        r is Ok <==> ark_pointer_ok(*pointer, now),
        r matches Err(e) ==> ark_pointer_error(*pointer, now, e),
{
    match validate_ark_server_url(pointer.server.as_str()) {
        Ok(()) => {},
        Err(e) => return Err(e),
    }
    match validate_compressed_pubkey(pointer.receiver_pubkey.as_str()) {
        Ok(()) => {},
        Err(e) => return Err(e),
    }
    if let Some(vtxo) = &pointer.vtxo_pointer {
        match assert_no_private_material(vtxo.as_str()) {
            Ok(()) => {},
            Err(e) => return Err(e),
        }
    }
    if let Some(expires_at) = pointer.expires_at {
        if expires_at <= now {
            return Err(
                SatsPathError::InvalidPaymentPointer("Ark receive pointer expired".to_string()),
            );
        }
    }
    Ok(())
}

/// The verdict of `verify_ark_ownership_proof`: `None` for an error, else
/// whether a proof is present and its signature verifies.
///
/// The proof key must equal the receiver key, and the signed message must
/// strictly extend the challenge for this alias, server and receiver key with
/// an empty nonce.
pub open spec fn ark_proof_verdict(alias: Seq<char>, p: ArkReceivePointer, now: i64) -> Option<
    bool,
> {
    if !ark_pointer_ok(p, now) {
        None
    } else if p.proof is None {
        Some(false)
    } else {
        let pr = p.proof->0;
        let prefix = ark_challenge_spec(alias, p.server@, p.receiver_pubkey@, Seq::empty());
        if !compressed_pubkey_ok(pr.pubkey@) {
            None
        } else if pr.pubkey@ != p.receiver_pubkey@ {
            None
        } else if !is_prefix(prefix, pr.message@) || pr.message@ == prefix {
            None
        } else {
            match sig_check(pr.message@, pr.signature@, pr.pubkey@) {
                SigCheck::Checked(b) => Some(b),
                _ => None,
            }
        }
    }
}

/// The error for a refused Ark ownership proof, by the first check that
/// fails: the pointer's, an invalid proof key, a proof key other than the
/// receiver key or a message that does not extend the challenge (an invalid
/// signature), or the signature check's own error.
pub open spec fn ark_proof_error(alias: Seq<char>, p: ArkReceivePointer, now: i64, e: SatsPathError) -> bool {
    if !ark_pointer_ok(p, now) {
        ark_pointer_error(p, now, e)
    } else {
        let pr = p.proof->0;
        let prefix = ark_challenge_spec(alias, p.server@, p.receiver_pubkey@, Seq::empty());
        if !compressed_pubkey_ok(pr.pubkey@) {
            e is InvalidPublicKey
        } else if pr.pubkey@ != p.receiver_pubkey@ {
            e is InvalidSignature
        } else if !is_prefix(prefix, pr.message@) || pr.message@ == prefix {
            e is InvalidSignature
        } else {
            sig_check_result(sig_check(pr.message@, pr.signature@, pr.pubkey@), Err::<bool, SatsPathError>(e))
        }
    }
}

/// Verifies the ownership proof of an Ark receive pointer for `alias` at time
/// `now`. `Ok(false)` when there is no proof.
pub fn verify_ark_ownership_proof(alias: &str, pointer: &ArkReceivePointer, now: i64) -> (r: Result<
    bool,
    SatsPathError,
>)
    ensures
        r is Ok <==> ark_proof_verdict(alias@, *pointer, now) is Some,
        r matches Ok(b) ==> ark_proof_verdict(alias@, *pointer, now) == Some(b),
        r matches Err(e) ==> ark_proof_error(alias@, *pointer, now, e),
{
    match validate_ark_receive_pointer(pointer, now) {
        Ok(()) => {},
        Err(e) => return Err(e),
    }
    let proof_field = &pointer.proof;
    let owner_proof = match proof_field {
        Some(p) => p,
        None => return Ok(false),
    };
    match validate_compressed_pubkey(owner_proof.pubkey.as_str()) {
        Ok(()) => {},
        Err(e) => return Err(e),
    }
    if !crate::text::str_eq(owner_proof.pubkey.as_str(), pointer.receiver_pubkey.as_str()) {
        return Err(SatsPathError::InvalidSignature);
    }
    if let Some(expires_at) = pointer.expires_at {
        if expires_at <= now {
            return Err(
                SatsPathError::InvalidPaymentPointer("Ark ownership proof expired".to_string()),
            );
        }
    }
    let expected_prefix = ark_ownership_challenge(
        alias,
        pointer.server.as_str(),
        pointer.receiver_pubkey.as_str(),
        "",
    );
    proof {
        reveal_strlit("");
    }
    let msg = chars_of(owner_proof.message.as_str());
    let pre = chars_of(expected_prefix.as_str());
    if !starts_with_chars(&msg, &pre) || chars_eq(&msg, &pre) {
        return Err(SatsPathError::InvalidSignature);
    }
    match verify_message_signature(
        owner_proof.message.as_str(),
        owner_proof.signature.as_str(),
        owner_proof.pubkey.as_str(),
    ) {
        Ok(b) => Ok(b),
        Err(e) => Err(e),
    }
}

impl ArkReceivePointer {
    /// A field-for-field copy.
    pub fn copy(&self) -> (r: Self)
        ensures
            r == *self,
    {
        let proof_field = &self.proof;
        let proof_copy = match proof_field {
            Some(p) => Some(p.copy()),
            None => None,
        };
        ArkReceivePointer {
            server: self.server.clone(),
            receiver_pubkey: self.receiver_pubkey.clone(),
            vtxo_pointer: copy_opt(&self.vtxo_pointer),
            proof: proof_copy,
            expires_at: self.expires_at,
        }
    }
}

} // verus!
