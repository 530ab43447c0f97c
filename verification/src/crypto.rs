//! secp256k1 ECDSA signatures over SHA-256 digests, and profile signing.

use vstd::prelude::*;
use crate::encoding::{
    hex_digit, is_hex_char,
    hex_decode, hex_decode_spec, hex_encode, hex_encode_spec, hex_valid, sha256, sha256_digest,
    utf8_bytes, utf8_of,
};
use crate::errors::SatsPathError;
use crate::encoding::{dec_int, i64_to_dec};
use crate::profile::{PaymentProfile, SignedPaymentProfile};
use crate::text::{chars_of, push_chars, push_str, str_eq, string_of, trim, trim_chars};

verus! {

/// Whether `secp256k1::PublicKey::from_slice` accepts the bytes.
pub uninterp spec fn pubkey_valid(bytes: Seq<u8>) -> bool;

/// Whether `secp256k1::ecdsa::Signature::from_der` accepts the bytes.
pub uninterp spec fn der_valid(bytes: Seq<u8>) -> bool;

/// Whether `secp256k1::SecretKey::from_slice` accepts the bytes.
pub uninterp spec fn secret_valid(bytes: Seq<u8>) -> bool;

/// Whether the DER signature verifies over the 32-byte digest under the
/// public key (`Secp256k1::verify_ecdsa`).
pub uninterp spec fn ecdsa_verifies(digest: Seq<u8>, sig_der: Seq<u8>, pubkey: Seq<u8>) -> bool;

/// The compressed public key of a secret key.
pub uninterp spec fn pubkey_of(secret: Seq<u8>) -> Seq<u8>;

/// The compressed serialisation (`PublicKey::serialize`) of the public key
/// that the bytes parse as.
pub uninterp spec fn pubkey_compressed(bytes: Seq<u8>) -> Seq<u8>;

/// The DER signature that `Secp256k1::sign_ecdsa` (RFC 6979 nonces) makes.
pub uninterp spec fn ecdsa_signature(digest: Seq<u8>, secret: Seq<u8>) -> Seq<u8>;

/// Parses bytes as a public key (`PublicKey::from_slice`) and gives its
/// compressed serialisation (`PublicKey::serialize`); the error is the
/// crate's message.
///
/// Trusted: the result is `Ok` exactly when libsecp256k1 parses the bytes as a
/// point. Parsing only succeeds on 33 bytes led by 0x02 or 0x03, or on 65
/// bytes; the serialisation is 33 bytes. The error text is not stated.
#[verifier::external_body]
pub(crate) fn parse_pubkey(bytes: &[u8]) -> (r: Result<Vec<u8>, String>)
    ensures
        r is Ok <==> pubkey_valid(bytes@),
        r is Ok ==> (bytes@.len() == 33 && (bytes@[0] == 2 || bytes@[0] == 3)) || bytes@.len()
            == 65,
        r matches Ok(c) ==> c@ == pubkey_compressed(bytes@) && c@.len() == 33,
{
    secp256k1::PublicKey::from_slice(bytes).map(|k| k.serialize().to_vec()).map_err(|e| e.to_string())
}

/// Whether bytes parse as a DER signature (`Signature::from_der`); the error
/// is the crate's message.
///
/// Trusted: the result is `Ok` exactly when libsecp256k1 parses the DER.
#[verifier::external_body]
fn parse_der(bytes: &[u8]) -> (r: Result<(), String>)
    ensures
        r is Ok <==> der_valid(bytes@),
{
    secp256k1::ecdsa::Signature::from_der(bytes).map(|_| ()).map_err(|e| e.to_string())
}

/// Whether bytes are a usable secret key (`SecretKey::from_slice`); the
/// error is the crate's message.
///
/// Trusted: `Ok` for exactly 32 bytes that libsecp256k1 accepts as a scalar.
/// The error text is not stated.
#[verifier::external_body]
fn parse_secret(bytes: &[u8]) -> (r: Result<(), String>)
    ensures
        r is Ok <==> secret_valid(bytes@),
        r is Ok ==> bytes@.len() == 32,
{
    secp256k1::SecretKey::from_slice(bytes).map(|_| ()).map_err(|e| e.to_string())
}

/// ECDSA verification (`Secp256k1::verify_ecdsa`).
///
/// Trusted: the result is the verification of the parsed signature over the
/// digest under the parsed key; both parse by the preconditions, so the
/// conversions in the body do not fail.
#[verifier::external_body]
fn verify_ecdsa(digest: &[u8], sig_der: &[u8], pubkey: &[u8]) -> (r: bool)
    requires
        digest@.len() == 32,
        der_valid(sig_der@),
        pubkey_valid(pubkey@),
    ensures
        r == ecdsa_verifies(digest@, sig_der@, pubkey@),
{
    let msg = secp256k1::Message::from_digest(<[u8; 32]>::try_from(digest).unwrap());
    let sig = secp256k1::ecdsa::Signature::from_der(sig_der).unwrap();
    let pk = secp256k1::PublicKey::from_slice(pubkey).unwrap();
    secp256k1::Secp256k1::verification_only().verify_ecdsa(&msg, &sig, &pk).is_ok()
}

/// ECDSA signing (`Secp256k1::sign_ecdsa`), DER-serialised.
///
/// Trusted: signing is deterministic (RFC 6979), its DER output parses, and a
/// signature made with a secret key verifies over the same digest under that
/// key's public key.
#[verifier::external_body]
fn sign_ecdsa(digest: &[u8], secret: &[u8]) -> (r: Vec<u8>)
    requires
        digest@.len() == 32,
        secret_valid(secret@),
    ensures
        r@ == ecdsa_signature(digest@, secret@),
        der_valid(r@),
        ecdsa_verifies(digest@, r@, pubkey_of(secret@)),
{
    let msg = secp256k1::Message::from_digest(<[u8; 32]>::try_from(digest).unwrap());
    let sk = secp256k1::SecretKey::from_slice(secret).unwrap();
    secp256k1::Secp256k1::new().sign_ecdsa(&msg, &sk).serialize_der().to_vec()
}

/// The compressed public key of a secret key (`PublicKey::from_secret_key`).
///
/// Trusted: the key is the 33-byte compressed serialisation (led by 0x02 or
/// 0x03, by the parity of y), which parses.
#[verifier::external_body]
fn derive_pubkey(secret: &[u8]) -> (r: Vec<u8>)
    requires
        secret_valid(secret@),
    ensures
        r@ == pubkey_of(secret@),
        r@.len() == 33,
        r@[0] == 2 || r@[0] == 3,
        pubkey_valid(r@),
{
    let sk = secp256k1::SecretKey::from_slice(secret).unwrap();
    secp256k1::PublicKey::from_secret_key(&secp256k1::Secp256k1::new(), &sk).serialize().to_vec()
}

/// A fresh random secret key (`Secp256k1::generate_keypair` with
/// `rand::thread_rng`).
///
/// Trusted: the key is valid; its value is random and nothing more is stated.
#[verifier::external_body]
fn generate_secret_key() -> (r: Vec<u8>)
    ensures
        secret_valid(r@),
{
    let (sk, _) = secp256k1::Secp256k1::new().generate_keypair(&mut rand::thread_rng());
    sk.secret_bytes().to_vec()
}

/// A secp256k1 secret key: 32 bytes that libsecp256k1 accepts as a scalar.
pub struct SecretKey {
    bytes: Vec<u8>,
}

impl View for SecretKey {
    type V = Seq<u8>;

    closed spec fn view(&self) -> Seq<u8> {
        self.bytes@
    }
}

impl SecretKey {
    /// A valid secret key, whose compressed public key is a valid point led
    /// by 0x02 or 0x03.
    #[verifier::type_invariant]
    spec fn inv(self) -> bool {
        &&& secret_valid(self.bytes@)
        &&& pubkey_valid(pubkey_of(self.bytes@))
        &&& pubkey_of(self.bytes@).len() == 33
        &&& (pubkey_of(self.bytes@)[0] == 2 || pubkey_of(self.bytes@)[0] == 3)
    }

    /// The key with these bytes, refused (with the secp256k1 message) unless
    /// they are a valid secret key.
    pub fn from_slice(bytes: &[u8]) -> (r: Result<SecretKey, String>)
        ensures
            r is Ok <==> secret_valid(bytes@),
            r matches Ok(k) ==> k@ == bytes@,
    {
        match parse_secret(bytes) {
            Ok(()) => {
                let owned = vstd::slice::slice_to_vec(bytes);
                let _public = derive_pubkey(owned.as_slice());
                Ok(SecretKey { bytes: owned })
            },
            Err(e) => Err(e),
        }
    }

    /// Lowercase hex of the key's 32 bytes.
    pub fn to_hex(&self) -> (r: String)
        ensures
            r@ == hex_encode_spec(self@),
            hex_valid(r@),
            hex_decode_spec(r@) == self@,
    {
        proof {
            lemma_hex_roundtrip(self@);
        }
        hex_encode(self.bytes.as_slice())
    }

    /// The key's 32 bytes.
    pub fn secret_bytes(&self) -> (r: Vec<u8>)
        ensures
            r@ == self@,
            secret_valid(r@),
            r@.len() == 32,
    {
        proof {
            use_type_invariant(self);
        }
        let b = vstd::slice::slice_to_vec(self.bytes.as_slice());
        let checked = parse_secret(b.as_slice());
        assert(checked is Ok);
        b
    }
}

/// An identity keypair: a secret key and its 33-byte compressed public key.
pub struct IdentityKeypair {
    pub secret_key: SecretKey,
    pub public_key: Vec<u8>,
}

/// A fresh random secp256k1 identity keypair.
pub fn generate_identity_keypair() -> (r: IdentityKeypair)
    ensures
        secret_valid(r.secret_key@),
        r.public_key@ == pubkey_of(r.secret_key@),
        r.public_key@.len() == 33,
        pubkey_valid(r.public_key@),
{
    let bytes = generate_secret_key();
    let public_key = derive_pubkey(bytes.as_slice());
    IdentityKeypair { secret_key: SecretKey { bytes }, public_key }
}

/// The digest that message signatures are made over: SHA-256 of the UTF-8
/// bytes of the message.
pub open spec fn message_digest(message: Seq<char>) -> Seq<u8> {
    sha256(utf8_of(message))
}

/// The outcome of checking a hex signature over some bytes under a hex key.
pub enum SigCheck {
    BadPubkeyHex,
    BadPubkey,
    BadSignatureHex,
    BadSignature,
    Checked(bool),
}

/// How a signature over bytes is checked, in order: the key hex, the key, the
/// signature hex, the DER, then the ECDSA check over the SHA-256 of the bytes.
pub open spec fn sig_check_bytes(data: Seq<u8>, sig_hex: Seq<char>, pubkey_hex: Seq<char>) -> SigCheck {
    if !hex_valid(pubkey_hex) {
        SigCheck::BadPubkeyHex
    } else if !pubkey_valid(hex_decode_spec(pubkey_hex)) {
        SigCheck::BadPubkey
    } else if !hex_valid(sig_hex) {
        SigCheck::BadSignatureHex
    } else if !der_valid(hex_decode_spec(sig_hex)) {
        SigCheck::BadSignature
    } else {
        SigCheck::Checked(
            ecdsa_verifies(sha256(data), hex_decode_spec(sig_hex), hex_decode_spec(pubkey_hex)),
        )
    }
}

/// How a signature over a UTF-8 message is checked.
pub open spec fn sig_check(message: Seq<char>, sig_hex: Seq<char>, pubkey_hex: Seq<char>) -> SigCheck {
    sig_check_bytes(utf8_of(message), sig_hex, pubkey_hex)
}

/// What a signature check returns for a given outcome.
pub open spec fn sig_check_result(c: SigCheck, r: Result<bool, SatsPathError>) -> bool {
    match c {
        SigCheck::BadPubkeyHex => r matches Err(SatsPathError::InvalidPublicKey(_)),
        SigCheck::BadPubkey => r matches Err(SatsPathError::InvalidPublicKey(_)),
        SigCheck::BadSignatureHex => r matches Err(SatsPathError::CryptoError(_)),
        SigCheck::BadSignature => r matches Err(SatsPathError::CryptoError(_)),
        SigCheck::Checked(b) => r == Ok::<bool, SatsPathError>(b),
    }
}

/// Verifies a hex DER ECDSA signature over bytes (SHA-256 digest) against a
/// hex public key.
pub fn verify_bytes_signature(data: &[u8], signature_hex: &str, pubkey_hex: &str) -> (r: Result<
    bool,
    SatsPathError,
>)
    ensures
        sig_check_result(sig_check_bytes(data@, signature_hex@, pubkey_hex@), r),
{
    let pubkey = match hex_decode(pubkey_hex) {
        Ok(b) => b,
        Err(e) => return Err(SatsPathError::InvalidPublicKey(e)),
    };
    match parse_pubkey(pubkey.as_slice()) {
        Ok(_) => {},
        Err(e) => return Err(SatsPathError::InvalidPublicKey(e)),
    }
    let sig = match hex_decode(signature_hex) {
        Ok(b) => b,
        Err(e) => return Err(SatsPathError::CryptoError(e)),
    };
    match parse_der(sig.as_slice()) {
        Ok(()) => {},
        Err(e) => return Err(SatsPathError::CryptoError(e)),
    }
    let digest = sha256_digest(data);
    Ok(verify_ecdsa(digest.as_slice(), sig.as_slice(), pubkey.as_slice()))
}

/// Verifies a hex DER ECDSA signature over a UTF-8 message (SHA-256 digest)
/// against a hex public key. `Ok(true)` only if the signature is well formed
/// and verifies.
pub fn verify_message_signature(message: &str, signature_hex: &str, pubkey_hex: &str) -> (r: Result<
    bool,
    SatsPathError,
>)
    ensures
        sig_check_result(sig_check(message@, signature_hex@, pubkey_hex@), r),
{
    let bytes = utf8_bytes(message);
    verify_bytes_signature(bytes.as_slice(), signature_hex, pubkey_hex)
}

/// The hex signature that `sign_bytes` makes.
pub open spec fn bytes_signature_hex(data: Seq<u8>, secret: Seq<u8>) -> Seq<char> {
    hex_encode_spec(ecdsa_signature(sha256(data), secret))
}

/// Signs bytes (SHA-256 digest) with a secret key, returning the hex DER
/// signature.
pub fn sign_bytes(data: &[u8], secret_key: &SecretKey) -> (r: String)
    ensures
        secret_valid(secret_key@),
        pubkey_valid(pubkey_of(secret_key@)),
        r@ == bytes_signature_hex(data@, secret_key@),
        der_valid(ecdsa_signature(sha256(data@), secret_key@)),
        ecdsa_verifies(sha256(data@), ecdsa_signature(sha256(data@), secret_key@), pubkey_of(secret_key@)),
{
    proof {
        use_type_invariant(secret_key);
    }
    let digest = sha256_digest(data);
    let sig = sign_ecdsa(digest.as_slice(), secret_key.bytes.as_slice());
    hex_encode(sig.as_slice())
}

/// The hex signature that `sign_message` makes.
pub open spec fn message_signature_hex(message: Seq<char>, secret: Seq<u8>) -> Seq<char> {
    hex_encode_spec(ecdsa_signature(message_digest(message), secret))
}

/// Signs a UTF-8 message (SHA-256 digest) with a secret key, returning the
/// hex DER signature. The signature checks out under the signer's public key.
pub fn sign_message(message: &str, secret_key: &SecretKey) -> (r: String)
    ensures
        secret_valid(secret_key@),
        pubkey_valid(pubkey_of(secret_key@)),
        r@ == message_signature_hex(message@, secret_key@),
        der_valid(ecdsa_signature(message_digest(message@), secret_key@)),
        ecdsa_verifies(
            message_digest(message@),
            ecdsa_signature(message_digest(message@), secret_key@),
            pubkey_of(secret_key@),
        ),
{
    let bytes = utf8_bytes(message);
    sign_bytes(bytes.as_slice(), secret_key)
}

/// A message signed with a secret key checks out, under `verify_message_signature`,
/// against the hex of that key's public key (which `pubkey_hex_of` gives and
/// shows to parse).
pub proof fn sign_then_verify(message: Seq<char>, secret: Seq<u8>)
    requires
        secret_valid(secret),
        pubkey_valid(pubkey_of(secret)),
        der_valid(ecdsa_signature(message_digest(message), secret)),
        ecdsa_verifies(
            message_digest(message),
            ecdsa_signature(message_digest(message), secret),
            pubkey_of(secret),
        ),
    ensures
        sig_check(message, message_signature_hex(message, secret), hex_encode_spec(pubkey_of(secret)))
            == SigCheck::Checked(true),
{
    lemma_hex_roundtrip(ecdsa_signature(message_digest(message), secret));
    lemma_hex_roundtrip(pubkey_of(secret));
}

/// Lowercase hex of the compressed public key of a secret key.
pub fn pubkey_hex_of(secret_key: &SecretKey) -> (r: String)
    ensures
        secret_valid(secret_key@),
        r@ == hex_encode_spec(pubkey_of(secret_key@)),
        pubkey_valid(pubkey_of(secret_key@)),
        pubkey_of(secret_key@).len() == 33,
        pubkey_of(secret_key@)[0] == 2 || pubkey_of(secret_key@)[0] == 3,
        crate::validation::compressed_pubkey_ok(r@),
{
    proof {
        use_type_invariant(secret_key);
    }
    let pk = derive_pubkey(secret_key.bytes.as_slice());
    proof {
        lemma_hex_roundtrip(pk@);
    }
    hex_encode(pk.as_slice())
}

/// The identity secret key stored as hex text (surrounding whitespace
/// ignored), checked against the identity public key `identity_pubkey_hex`
/// that it is meant to hold.
pub fn identity_key_from_text(text: &str, identity_pubkey_hex: &str) -> (r: Result<SecretKey, SatsPathError>)
    ensures
        r is Ok <==> {
            &&& hex_valid(trim(text@))
            &&& secret_valid(hex_decode_spec(trim(text@)))
            &&& hex_encode_spec(pubkey_of(hex_decode_spec(trim(text@)))) == identity_pubkey_hex@
        },
        r matches Ok(k) ==> k@ == hex_decode_spec(trim(text@)),
        !hex_valid(trim(text@)) ==> (r matches Err(SatsPathError::CryptoError(m))
            && m@ == "decoding identity key hex"@),
        hex_valid(trim(text@)) && !secret_valid(hex_decode_spec(trim(text@))) ==> r matches Err(
            SatsPathError::CryptoError(_),
        ),
        hex_valid(trim(text@)) && secret_valid(hex_decode_spec(trim(text@))) && hex_encode_spec(
            pubkey_of(hex_decode_spec(trim(text@))),
        ) != identity_pubkey_hex@ ==> (r matches Err(SatsPathError::CryptoError(m)) && m@
            == key_file_mismatch_message()),
{
    let chars = chars_of(text);
    let trimmed_chars = trim_chars(&chars);
    let trimmed = string_of(trimmed_chars.as_slice());
    let bytes = match hex_decode(trimmed.as_str()) {
        Ok(b) => b,
        Err(_) => return Err(SatsPathError::CryptoError("decoding identity key hex".to_string())),
    };
    let key = match SecretKey::from_slice(bytes.as_slice()) {
        Ok(k) => k,
        Err(e) => {
            let mut msg: Vec<char> = Vec::new();
            push_str(&mut msg, "parsing identity key: ");
            push_str(&mut msg, e.as_str());
            return Err(SatsPathError::CryptoError(string_of(msg.as_slice())));
        },
    };
    let pubkey_hex = pubkey_hex_of(&key);
    if !str_eq(pubkey_hex.as_str(), identity_pubkey_hex) {
        return Err(
            SatsPathError::CryptoError(
                "identity key file does not match the requested identity pubkey".to_string(),
            ),
        );
    }
    Ok(key)
}

/// The message when a stored identity key is not the requested one.
pub open spec fn key_file_mismatch_message() -> Seq<char> {
    "identity key file does not match the requested identity pubkey"@
}

/// Whether bytes are a usable secret key.
pub fn is_valid_secret_key(bytes: &[u8]) -> (r: bool)
    ensures
        r == secret_valid(bytes@),
{
    parse_secret(bytes).is_ok()
}

/// The fingerprint of a public key: hex of the first four bytes of the
/// SHA-256 of the decoded key.
pub open spec fn fingerprint_spec(pubkey_hex: Seq<char>) -> Seq<char> {
    hex_encode_spec(sha256(hex_decode_spec(pubkey_hex)).take(4))
}

/// Short human-readable fingerprint of a hex public key (first 8 hex chars of
/// its SHA-256); fails when the text is not hex.
pub fn fingerprint_pubkey(pubkey_hex: &str) -> (r: Result<String, SatsPathError>)
    ensures
        r is Ok <==> hex_valid(pubkey_hex@),
        r matches Ok(f) ==> f@ == fingerprint_spec(pubkey_hex@) && f@.len() == 8,
        r matches Err(e) ==> e is InvalidPublicKey,
{
    let bytes = match hex_decode(pubkey_hex) {
        Ok(b) => b,
        Err(e) => return Err(SatsPathError::InvalidPublicKey(e)),
    };
    let digest = sha256_digest(bytes.as_slice());
    let first = vstd::slice::slice_subrange(digest.as_slice(), 0, 4);
    assert(first@ =~= sha256(hex_decode_spec(pubkey_hex@)).take(4));
    Ok(hex_encode(first))
}

/// Hex text made by `hex_encode` is valid hex and decodes to the same bytes.
pub proof fn lemma_hex_roundtrip(b: Seq<u8>)
    ensures
        hex_valid(hex_encode_spec(b)),
        hex_decode_spec(hex_encode_spec(b)) == b,
{
    let h = hex_encode_spec(b);
    assert forall|i: int| 0 <= i < h.len() implies is_hex_char(#[trigger] h[i]) by {
        let x = b[i / 2] as int;
        assert(0 <= x / 16 < 16 && 0 <= x % 16 < 16) by (nonlinear_arith)
            requires
                0 <= x < 256,
        ;
    }
    assert forall|i: int| 0 <= i < b.len() implies #[trigger] hex_decode_spec(h)[i] == b[i] by {
        let x = b[i] as int;
        assert(h[2 * i] == hex_digit(x / 16));
        assert(h[2 * i + 1] == hex_digit(x % 16));
        assert(0 <= x / 16 < 16 && 0 <= x % 16 < 16 && x / 16 * 16 + x % 16 == x)
            by (nonlinear_arith)
            requires
                0 <= x < 256,
        ;
    }
    assert(hex_decode_spec(h) =~= b);
}

/// Bytes signed with a secret key check out against the hex of that key's
/// public key.
pub proof fn sign_bytes_then_verify(data: Seq<u8>, secret: Seq<u8>)
    requires
        pubkey_valid(pubkey_of(secret)),
        der_valid(ecdsa_signature(sha256(data), secret)),
        ecdsa_verifies(sha256(data), ecdsa_signature(sha256(data), secret), pubkey_of(secret)),
    ensures
        sig_check_bytes(data, bytes_signature_hex(data, secret), hex_encode_spec(pubkey_of(secret)))
            == SigCheck::Checked(true),
{
    lemma_hex_roundtrip(ecdsa_signature(sha256(data), secret));
    lemma_hex_roundtrip(pubkey_of(secret));
}

/// Signs a profile: the signature is over its canonical serialisation
/// `canonical_bytes` (the profile's JSON), made with `secret_key`.
pub fn sign_profile(profile: PaymentProfile, canonical_bytes: &[u8], secret_key: &SecretKey) -> (r:
    SignedPaymentProfile)
    ensures
        r.profile == profile,
        r.signature@ == bytes_signature_hex(canonical_bytes@, secret_key@),
        der_valid(ecdsa_signature(sha256(canonical_bytes@), secret_key@)),
        ecdsa_verifies(
            sha256(canonical_bytes@),
            ecdsa_signature(sha256(canonical_bytes@), secret_key@),
            pubkey_of(secret_key@),
        ),
{
    let signature = sign_bytes(canonical_bytes, secret_key);
    SignedPaymentProfile { profile, signature }
}

/// Verifies the signature of a signed profile over its canonical
/// serialisation `canonical_bytes`, under the profile's identity key.
pub fn verify_signed_profile(signed: &SignedPaymentProfile, canonical_bytes: &[u8]) -> (r: Result<
    bool,
    SatsPathError,
>)
    ensures
        sig_check_result(
            sig_check_bytes(canonical_bytes@, signed.signature@, signed.profile.identity_pubkey@),
            r,
        ),
{
    verify_bytes_signature(
        canonical_bytes,
        signed.signature.as_str(),
        signed.profile.identity_pubkey.as_str(),
    )
}

/// A profile is expired at `now` when it has an expiry no later than `now`.
pub open spec fn expired_at(profile: PaymentProfile, now: i64) -> bool {
    profile.expires_at matches Some(exp) && now >= exp
}

/// The message for an expired profile.
pub open spec fn expiry_message(alias: Seq<char>, exp: i64, now: i64) -> Seq<char> {
    "profile for '"@ + alias + "' expired at unix timestamp "@ + dec_int(exp as int) + " (now: "@
        + dec_int(now as int) + ")"@
}

/// Refuses a profile that is expired at `now`; profiles without an expiry
/// never expire.
pub fn check_profile_expiry_at(profile: &PaymentProfile, now: i64) -> (r: Result<(), SatsPathError>)
    ensures
        r is Ok <==> !expired_at(*profile, now),
        r matches Err(e) ==> e matches SatsPathError::RegistryError(m) && m@ == expiry_message(
            profile.alias@,
            profile.expires_at->0,
            now,
        ),
{
    if let Some(exp) = profile.expires_at {
        if now >= exp {
            let mut msg: Vec<char> = Vec::new();
            push_str(&mut msg, "profile for '");
            push_str(&mut msg, profile.alias.as_str());
            push_str(&mut msg, "' expired at unix timestamp ");
            let e = i64_to_dec(exp);
            push_chars(&mut msg, &e);
            push_str(&mut msg, " (now: ");
            let n = i64_to_dec(now);
            push_chars(&mut msg, &n);
            push_str(&mut msg, ")");
            return Err(SatsPathError::RegistryError(string_of(msg.as_slice())));
        }
    }
    Ok(())
}

/// Refuses a profile that is expired by the current wall clock.
pub fn check_profile_expiry(profile: &PaymentProfile) -> (r: Result<(), SatsPathError>)
    ensures
        profile.expires_at is None ==> r is Ok,
        r matches Err(e) ==> e is RegistryError,
        exists|now: i64|
            #![trigger expired_at(*profile, now)]
            (r is Ok <==> !expired_at(*profile, now)) && (r matches Err(e) ==> (e matches SatsPathError::RegistryError(m)
                && m@ == expiry_message(profile.alias@, profile.expires_at->0, now))),
{
    let now = crate::ark::unix_now();
    let r = check_profile_expiry_at(profile, now);
    assert((r is Ok <==> !expired_at(*profile, now)) && (r matches Err(e) ==> (e matches SatsPathError::RegistryError(m)
        && m@ == expiry_message(profile.alias@, profile.expires_at->0, now))));
    r
}

} // verus!
