//! Universal SatsPath payment URIs.
//!
//! Two forms: `satspath:<alias>` and `satspath:v1:<base64url_no_pad>` where the
//! payload is the JSON of a payment request. JSON (de)serialisation is the
//! caller's part; this module frames and unframes the payload bytes.

use vstd::prelude::*;
use crate::errors::SatsPathError;
use crate::profile::PaymentRequest;
use crate::text::{chars_of, is_prefix, push_str, slice_chars, starts_with_chars, string_of, push_chars};

verus! {

/// URL-safe base64 without padding of a byte string.
pub uninterp spec fn base64url_encode(data: Seq<u8>) -> Seq<char>;

/// What URL-safe, no-padding base64 decoding gives for a text, if it decodes.
pub uninterp spec fn base64url_decode(text: Seq<char>) -> Option<Seq<u8>>;

/// Encodes bytes (`URL_SAFE_NO_PAD.encode`).
///
/// Trusted: the result is the engine's encoding of the bytes, and the same
/// engine decodes it back to those bytes.
#[verifier::external_body]
fn b64_encode(data: &[u8]) -> (r: String)
    ensures
        r@ == base64url_encode(data@),
        base64url_decode(r@) == Some(data@),
{
    <base64::engine::GeneralPurpose as base64::Engine>::encode(
        &base64::engine::general_purpose::URL_SAFE_NO_PAD,
        data,
    )
}

/// Decodes text (`URL_SAFE_NO_PAD.decode`); the error is the crate's message.
///
/// Trusted: the result depends on the text alone. The error text is not stated.
#[verifier::external_body]
fn b64_decode(text: &str) -> (r: Result<Vec<u8>, String>)
    ensures
        match base64url_decode(text@) {
            Some(b) => r matches Ok(v) && v@ == b,
            None => r is Err,
        },
{
    <base64::engine::GeneralPurpose as base64::Engine>::decode(
        &base64::engine::general_purpose::URL_SAFE_NO_PAD,
        text,
    ).map_err(|e| e.to_string())
}

pub open spec fn v1_prefix() -> Seq<char> {
    "satspath:v1:"@
}

pub open spec fn scheme_prefix() -> Seq<char> {
    "satspath:"@
}

/// `satspath:v1:` followed by the base64url of the request JSON.
pub open spec fn payment_uri_spec(request_json: Seq<u8>) -> Seq<char> {
    v1_prefix() + base64url_encode(request_json)
}

/// Encodes the JSON of a payment request into a universal SatsPath URI.
/// Decoding the URI gives the same JSON back.
pub fn encode_payment_request(request_json: &[u8]) -> (r: String)
    ensures
        r@ == payment_uri_spec(request_json@),
        decode_spec(r@) == Ok::<DecodedUriView, ()>(DecodedUriView::Encoded(request_json@)),
{
    let encoded = b64_encode(request_json);
    let mut out: Vec<char> = Vec::new();
    push_str(&mut out, "satspath:v1:");
    push_str(&mut out, encoded.as_str());
    proof {
        reveal_strlit("satspath:v1:");
        encoded_uri_roundtrip(request_json@);
    }
    string_of(out.as_slice())
}

/// What a SatsPath URI carries: the JSON of an encoded request, or the alias
/// of the simple form.
#[derive(Debug, Clone, PartialEq, Eq)]
pub enum DecodedUri {
    Encoded(Vec<u8>),
    Simple(PaymentRequest),
}

/// The result of decoding a URI, with `Err(())` for a refusal.
pub open spec fn decode_spec(uri: Seq<char>) -> Result<DecodedUriView, ()> {
    if is_prefix(v1_prefix(), uri) {
        match base64url_decode(uri.skip(v1_prefix().len() as int)) {
            Some(b) => Ok(DecodedUriView::Encoded(b)),
            None => Err(()),
        }
    } else if is_prefix(scheme_prefix(), uri) {
        let alias = uri.skip(scheme_prefix().len() as int);
        if alias.len() == 0 {
            Err(())
        } else {
            Ok(DecodedUriView::Simple(alias))
        }
    } else {
        Err(())
    }
}

/// The mathematical content of a decoded URI.
pub enum DecodedUriView {
    Encoded(Seq<u8>),
    Simple(Seq<char>),
}

/// Decodes a SatsPath URI. The simple form gives a version-1 request with
/// only the alias; the encoded form gives the request JSON.
pub fn decode_payment_request(uri: &str) -> (r: Result<DecodedUri, SatsPathError>)
    ensures
        match decode_spec(uri@) {
            Ok(DecodedUriView::Encoded(b)) => r matches Ok(DecodedUri::Encoded(v)) && v@ == b,
            Ok(DecodedUriView::Simple(a)) => r matches Ok(DecodedUri::Simple(q)) && q.alias@ == a
                && q.version == 1 && q.amount_sats is None && q.memo is None && q.profile_hint is None,
            Err(()) => r matches Err(SatsPathError::InvalidPaymentUri(_)),
        },
{
    let u = chars_of(uri);
    let v1 = chars_of("satspath:v1:");
    let scheme = chars_of("satspath:");
    proof {
        reveal_strlit("satspath:v1:");
        reveal_strlit("satspath:");
    }
    if starts_with_chars(&u, &v1) {
        let rest = slice_chars(&u, v1.len(), u.len());
        let text = string_of(rest.as_slice());
        match b64_decode(text.as_str()) {
            Ok(bytes) => Ok(DecodedUri::Encoded(bytes)),
            Err(e) => Err(SatsPathError::InvalidPaymentUri(e)),
        }
    } else if starts_with_chars(&u, &scheme) {
        let rest = slice_chars(&u, scheme.len(), u.len());
        if rest.len() == 0 {
            return Err(SatsPathError::InvalidPaymentUri("alias is empty".to_string()));
        }
        let alias = string_of(rest.as_slice());
        Ok(
            DecodedUri::Simple(
                PaymentRequest { version: 1, alias, amount_sats: None, memo: None, profile_hint: None },
            ),
        )
    } else {
        let mut msg: Vec<char> = Vec::new();
        push_str(&mut msg, "unknown scheme in URI: ");
        push_chars(&mut msg, &u);
        Err(SatsPathError::InvalidPaymentUri(string_of(msg.as_slice())))
    }
}

/// Decoding the URI made from a payload gives the payload back, given that
/// the base64 engine decodes its own encoding.
proof fn encoded_uri_roundtrip(request_json: Seq<u8>)
    requires
        base64url_decode(base64url_encode(request_json)) == Some(request_json),
    ensures
        decode_spec(payment_uri_spec(request_json)) == Ok::<DecodedUriView, ()>(
            DecodedUriView::Encoded(request_json),
        ),
{
    let u = payment_uri_spec(request_json);
    assert(u.subrange(0, v1_prefix().len() as int) =~= v1_prefix());
    assert(u.skip(v1_prefix().len() as int) =~= base64url_encode(request_json));
}

} // verus!
