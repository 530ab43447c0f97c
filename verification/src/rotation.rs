//! Identity key rotation.

use vstd::prelude::*;
use crate::ark::unix_now;
use crate::crypto::{
    message_signature_hex, pubkey_of, secret_valid, SecretKey, sig_check, sig_check_result, sign_message,
    pubkey_hex_of, verify_message_signature, SigCheck, sign_then_verify, pubkey_valid,
    message_digest, der_valid, ecdsa_verifies, ecdsa_signature,
};
use crate::encoding::{dec_int, hex_encode_spec, i64_to_dec};
use crate::errors::SatsPathError;
use crate::profile::{profile_eq, KeyRotation, PaymentProfile, SignedPaymentProfile};
use crate::text::{push_chars, push_str, str_eq, string_of};

verus! {

/// The text the previous key signs: `RotateSatsPathKey:<previous>-><new>@<rotated_at>`.
pub open spec fn rotation_message(previous: Seq<char>, new: Seq<char>, rotated_at: i64) -> Seq<
    char,
> {
    "RotateSatsPathKey:"@ + previous + "->"@ + new + "@"@ + dec_int(rotated_at as int)
}

/// How the authorisation of a rotation checks out.
pub open spec fn rotation_check(r: KeyRotation) -> SigCheck {
    sig_check(
        rotation_message(r.previous_pubkey@, r.new_pubkey@, r.rotated_at),
        r.authorization_signature@,
        r.previous_pubkey@,
    )
}

/// A rotation whose authorisation verifies.
pub open spec fn rotation_verified(r: KeyRotation) -> bool {
    rotation_check(r) == SigCheck::Checked(true)
}

fn rotation_text(previous: &str, new: &str, rotated_at: i64) -> (r: String)
    ensures
        r@ == rotation_message(previous@, new@, rotated_at),
{
    let mut out: Vec<char> = Vec::new();
    push_str(&mut out, "RotateSatsPathKey:");
    push_str(&mut out, previous);
    push_str(&mut out, "->");
    push_str(&mut out, new);
    push_str(&mut out, "@");
    let d = i64_to_dec(rotated_at);
    push_chars(&mut out, &d);
    string_of(out.as_slice())
}

impl KeyRotation {
    /// A rotation from `previous_pubkey_hex` to `new_pubkey_hex` at time
    /// `rotated_at`, authorised by the previous key: the message is signed
    /// with `old_secret_key`, the secret key of `previous_pubkey_hex`.
    pub fn create_at(
        previous_pubkey_hex: String,
        old_secret_key: &SecretKey,
        new_pubkey_hex: String,
        rotated_at: i64,
    ) -> (r: KeyRotation)
        requires
            previous_pubkey_hex@ == hex_encode_spec(pubkey_of(old_secret_key@)),
        ensures
            r.previous_pubkey == previous_pubkey_hex,
            r.new_pubkey == new_pubkey_hex,
            r.rotated_at == rotated_at,
            r.authorization_signature@ == message_signature_hex(
                rotation_message(previous_pubkey_hex@, new_pubkey_hex@, rotated_at),
                old_secret_key@,
            ),
            rotation_verified(r),
    {
        let message = rotation_text(previous_pubkey_hex.as_str(), new_pubkey_hex.as_str(), rotated_at);
        let signature = sign_message(message.as_str(), old_secret_key);
        let r = KeyRotation {
            previous_pubkey: previous_pubkey_hex,
            new_pubkey: new_pubkey_hex,
            authorization_signature: signature,
            rotated_at,
        };
        proof {
            created_rotation_verifies(r, old_secret_key@);
        }
        r
    }

    /// A rotation authorised by the previous key (`old_secret_key` is the
    /// secret key of `previous_pubkey_hex`), stamped with the current time.
    pub fn create(previous_pubkey_hex: String, old_secret_key: &SecretKey, new_pubkey_hex: String) -> (r:
        Result<KeyRotation, SatsPathError>)
        requires
            previous_pubkey_hex@ == hex_encode_spec(pubkey_of(old_secret_key@)),
        ensures
            r matches Ok(k) ==> {
                &&& k.previous_pubkey == previous_pubkey_hex
                &&& k.new_pubkey == new_pubkey_hex
                &&& k.authorization_signature@ == message_signature_hex(
                    rotation_message(previous_pubkey_hex@, new_pubkey_hex@, k.rotated_at),
                    old_secret_key@,
                )
                &&& rotation_verified(k)
            },
            r is Ok,
    {
        let now = unix_now();
        Ok(KeyRotation::create_at(previous_pubkey_hex, old_secret_key, new_pubkey_hex, now))
    }

    /// Verifies the rotation's authorisation signature against the previous key.
    pub fn verify(&self) -> (r: Result<bool, SatsPathError>)
        ensures
            sig_check_result(rotation_check(*self), r),
    {
        let message = rotation_text(self.previous_pubkey.as_str(), self.new_pubkey.as_str(), self.rotated_at);
        verify_message_signature(
            message.as_str(),
            self.authorization_signature.as_str(),
            self.previous_pubkey.as_str(),
        )
    }
}

/// A rotation made with a secret key whose public key is the rotation's
/// previous key verifies.
pub proof fn created_rotation_verifies(k: KeyRotation, secret: Seq<u8>)
    requires
        secret_valid(secret),
        pubkey_valid(pubkey_of(secret)),
        k.previous_pubkey@ == hex_encode_spec(pubkey_of(secret)),
        k.authorization_signature@ == message_signature_hex(
            rotation_message(k.previous_pubkey@, k.new_pubkey@, k.rotated_at),
            secret,
        ),
        der_valid(
            ecdsa_signature(
                message_digest(rotation_message(k.previous_pubkey@, k.new_pubkey@, k.rotated_at)),
                secret,
            ),
        ),
        ecdsa_verifies(
            message_digest(rotation_message(k.previous_pubkey@, k.new_pubkey@, k.rotated_at)),
            ecdsa_signature(
                message_digest(rotation_message(k.previous_pubkey@, k.new_pubkey@, k.rotated_at)),
                secret,
            ),
            pubkey_of(secret),
        ),
    ensures
        rotation_verified(k),
{
    sign_then_verify(rotation_message(k.previous_pubkey@, k.new_pubkey@, k.rotated_at), secret);
}

/// The outcome of `apply_key_rotation`: the error kind, or the new profile.
pub open spec fn apply_rotation_ok(profile: SignedPaymentProfile, new_pubkey: Seq<char>) -> bool {
    &&& profile.profile.rotation is Some
    &&& profile.profile.rotation->0.new_pubkey@ == new_pubkey
    &&& rotation_verified(profile.profile.rotation->0)
}

/// Applies the key rotation that a profile carries: the result has the new
/// identity key, no rotation and an empty signature (the owner re-signs it
/// with the new key).
pub fn apply_key_rotation(profile: &SignedPaymentProfile, new_pubkey_hex: &str) -> (r: Result<
    SignedPaymentProfile,
    SatsPathError,
>)
    ensures
        r is Ok <==> apply_rotation_ok(*profile, new_pubkey_hex@),
        profile.profile.rotation is None ==> r matches Err(SatsPathError::CryptoError(_)),
        (profile.profile.rotation matches Some(k) && k.new_pubkey@ != new_pubkey_hex@) ==> r matches Err(SatsPathError::CryptoError(_)),
        (profile.profile.rotation matches Some(k) && k.new_pubkey@ == new_pubkey_hex@
            && rotation_check(k) == SigCheck::Checked(false)) ==> r matches Err(SatsPathError::InvalidSignature),
        r matches Ok(s) ==> {
            &&& s.profile.identity_pubkey@ == new_pubkey_hex@
            &&& s.profile.rotation is None
            &&& s.signature@ == Seq::<char>::empty()
            &&& profile_eq(s.profile, PaymentProfile {
                identity_pubkey: s.profile.identity_pubkey,
                rotation: None,
                ..profile.profile
            })
        },
{
    let rot_field = &profile.profile.rotation;
    let rotation = match rot_field {
        Some(k) => k,
        None => return Err(SatsPathError::CryptoError("no key rotation in profile".to_string())),
    };
    if !str_eq(rotation.new_pubkey.as_str(), new_pubkey_hex) {
        return Err(SatsPathError::CryptoError("new pubkey doesn't match rotation".to_string()));
    }
    match rotation.verify() {
        Ok(true) => {},
        Ok(false) => return Err(SatsPathError::InvalidSignature),
        Err(e) => return Err(e),
    }
    let mut new_profile = profile.profile.copy();
    new_profile.identity_pubkey = new_pubkey_hex.to_string();
    new_profile.rotation = None;
    Ok(SignedPaymentProfile { profile: new_profile, signature: String::new() })
}

/// The effective identity key: the rotation's new key when the profile
/// carries a rotation that verifies, else the profile's identity key.
pub open spec fn effective_pubkey_spec(profile: SignedPaymentProfile) -> Option<Seq<char>> {
    match profile.profile.rotation {
        Some(k) => match rotation_check(k) {
            SigCheck::Checked(true) => Some(k.new_pubkey@),
            SigCheck::Checked(false) => Some(profile.profile.identity_pubkey@),
            _ => None,
        },
        None => Some(profile.profile.identity_pubkey@),
    }
}

/// The identity key in effect, considering key rotation. Fails when the
/// carried rotation is malformed.
pub fn get_effective_identity_pubkey(profile: &SignedPaymentProfile) -> (r: Result<String, SatsPathError>)
    ensures
        r is Ok <==> effective_pubkey_spec(*profile) is Some,
        r matches Ok(k) ==> Some(k@) == effective_pubkey_spec(*profile),
        r matches Err(e) ==> (profile.profile.rotation matches Some(k) && sig_check_result(
            rotation_check(k),
            Err::<bool, SatsPathError>(e),
        )),
{
    let rot_field = &profile.profile.rotation;
    if let Some(rotation) = rot_field {
        match rotation.verify() {
            Ok(true) => return Ok(rotation.new_pubkey.clone()),
            Ok(false) => {},
            Err(e) => return Err(e),
        }
    }
    Ok(profile.profile.identity_pubkey.clone())
}

/// Whether the profile carries a rotation whose authorisation verifies.
pub fn is_rotation_valid(profile: &SignedPaymentProfile) -> (r: Result<bool, SatsPathError>)
    ensures
        match profile.profile.rotation {
            Some(k) => sig_check_result(rotation_check(k), r),
            None => r == Ok::<bool, SatsPathError>(false),
        },
{
    let rot_field = &profile.profile.rotation;
    match rot_field {
        Some(rotation) => rotation.verify(),
        None => Ok(false),
    }
}

/// The new profile's rotation links the old profile's identity key to the new
/// one and is authorised: `Some(result)` for an outcome, `None` for an error.
pub open spec fn key_rotation_verdict(old: SignedPaymentProfile, new: SignedPaymentProfile) -> Option<
    bool,
> {
    match new.profile.rotation {
        Some(k) => if k.previous_pubkey@ != old.profile.identity_pubkey@ {
            Some(false)
        } else if k.new_pubkey@ != new.profile.identity_pubkey@ {
            Some(false)
        } else {
            match rotation_check(k) {
                SigCheck::Checked(b) => Some(b),
                _ => None,
            }
        },
        None => Some(false),
    }
}

/// Verifies a key rotation between an old and a new profile.
pub fn verify_key_rotation(old_profile: &SignedPaymentProfile, new_profile: &SignedPaymentProfile) -> (r:
    Result<bool, SatsPathError>)
    ensures
        r is Ok <==> key_rotation_verdict(*old_profile, *new_profile) is Some,
        r matches Ok(b) ==> key_rotation_verdict(*old_profile, *new_profile) == Some(b),
{
    let rot_field = &new_profile.profile.rotation;
    match rot_field {
        Some(rotation) => {
            if !str_eq(rotation.previous_pubkey.as_str(), old_profile.profile.identity_pubkey.as_str()) {
                return Ok(false);
            }
            if !str_eq(rotation.new_pubkey.as_str(), new_profile.profile.identity_pubkey.as_str()) {
                return Ok(false);
            }
            rotation.verify()
        },
        None => Ok(false),
    }
}

/// The message when the signing key is not the profile's identity key.
pub open spec fn key_mismatch_message() -> Seq<char> {
    "secret key does not match the profile's identity key"@
}

/// Rotates a profile from its identity key, whose secret key is
/// `old_secret_key`, to the key of `new_secret_key`: the result carries the
/// new identity key and a rotation from the old key, authorised by the old
/// key and stamped `rotated_at`; its signature is empty until re-signed with
/// the new key. Refused when `old_secret_key` is not the profile's key.
pub fn rotate_identity_key_at(
    profile: &SignedPaymentProfile,
    old_secret_key: &SecretKey,
    new_secret_key: &SecretKey,
    rotated_at: i64,
) -> (r: Result<SignedPaymentProfile, SatsPathError>)
    ensures
        r is Ok <==> profile.profile.identity_pubkey@ == hex_encode_spec(pubkey_of(old_secret_key@)),
        r matches Err(e) ==> (e matches SatsPathError::CryptoError(m) && m@ == key_mismatch_message()),
        r matches Ok(s) ==> {
            &&& s.profile.identity_pubkey@ == hex_encode_spec(pubkey_of(new_secret_key@))
            &&& s.profile.rotation matches Some(k) && k.previous_pubkey == profile.profile.identity_pubkey
                && k.new_pubkey == s.profile.identity_pubkey && k.rotated_at == rotated_at
                && k.authorization_signature@ == message_signature_hex(
                rotation_message(k.previous_pubkey@, k.new_pubkey@, rotated_at),
                old_secret_key@,
            ) && rotation_verified(k)
            &&& s.signature@ == Seq::<char>::empty()
            &&& profile_eq(s.profile, PaymentProfile {
                identity_pubkey: s.profile.identity_pubkey,
                rotation: s.profile.rotation,
                ..profile.profile
            })
        },
{
    let old_pubkey_hex = pubkey_hex_of(old_secret_key);
    if !str_eq(old_pubkey_hex.as_str(), profile.profile.identity_pubkey.as_str()) {
        return Err(key_mismatch());
    }
    let new_pubkey_hex = pubkey_hex_of(new_secret_key);
    let rotation = KeyRotation::create_at(
        profile.profile.identity_pubkey.clone(),
        old_secret_key,
        new_pubkey_hex.clone(),
        rotated_at,
    );
    Ok(with_rotation(profile, new_pubkey_hex, rotation))
}

fn key_mismatch() -> (e: SatsPathError)
    ensures
        e matches SatsPathError::CryptoError(m) && m@ == key_mismatch_message(),
{
    let msg = "secret key does not match the profile's identity key".to_string();
    proof {
        reveal_strlit("secret key does not match the profile's identity key");
    }
    SatsPathError::CryptoError(msg)
}

/// The profile with identity key `new_pubkey_hex` and `rotation`, unsigned.
fn with_rotation(profile: &SignedPaymentProfile, new_pubkey_hex: String, rotation: KeyRotation) -> (r:
    SignedPaymentProfile)
    ensures
        r.profile.identity_pubkey == new_pubkey_hex,
        r.profile.rotation == Some(rotation),
        r.signature@ == Seq::<char>::empty(),
        profile_eq(r.profile, PaymentProfile {
            identity_pubkey: r.profile.identity_pubkey,
            rotation: r.profile.rotation,
            ..profile.profile
        }),
{
    let mut new_profile = profile.profile.copy();
    new_profile.identity_pubkey = new_pubkey_hex;
    new_profile.rotation = Some(rotation);
    SignedPaymentProfile { profile: new_profile, signature: String::new() }
}

/// Rotates a profile from the key of `old_secret_key` to that of
/// `new_secret_key`, stamped with the current time.
pub fn rotate_identity_key(
    profile: &SignedPaymentProfile,
    old_secret_key: &SecretKey,
    new_secret_key: &SecretKey,
) -> (r: Result<SignedPaymentProfile, SatsPathError>)
    ensures
        r is Ok <==> profile.profile.identity_pubkey@ == hex_encode_spec(pubkey_of(old_secret_key@)),
        r matches Err(e) ==> (e matches SatsPathError::CryptoError(m) && m@ == key_mismatch_message()),
        r matches Ok(s) ==> {
            &&& s.profile.identity_pubkey@ == hex_encode_spec(pubkey_of(new_secret_key@))
            &&& s.profile.rotation matches Some(k) && k.previous_pubkey
                == profile.profile.identity_pubkey && k.new_pubkey == s.profile.identity_pubkey
                && k.authorization_signature@ == message_signature_hex(
                rotation_message(k.previous_pubkey@, k.new_pubkey@, k.rotated_at),
                old_secret_key@,
            ) && rotation_verified(k)
            &&& s.signature@ == Seq::<char>::empty()
            &&& profile_eq(s.profile, PaymentProfile {
                identity_pubkey: s.profile.identity_pubkey,
                rotation: s.profile.rotation,
                ..profile.profile
            })
        },
{
    let old_pubkey_hex = pubkey_hex_of(old_secret_key);
    if !str_eq(old_pubkey_hex.as_str(), profile.profile.identity_pubkey.as_str()) {
        return Err(key_mismatch());
    }
    let new_pubkey_hex = pubkey_hex_of(new_secret_key);
    let rotation = match KeyRotation::create(
        profile.profile.identity_pubkey.clone(),
        old_secret_key,
        new_pubkey_hex.clone(),
    ) {
        Ok(k) => k,
        Err(e) => return Err(e),
    };
    Ok(with_rotation(profile, new_pubkey_hex, rotation))
}

/// Applying a rotation consumes it: the resulting profile carries no rotation,
/// so it reports no valid rotation and its effective key is the new key.
pub proof fn applied_rotation_is_settled(s: SignedPaymentProfile, new_pubkey: Seq<char>)
    requires
        s.profile.identity_pubkey@ == new_pubkey,
        s.profile.rotation is None,
    ensures
        effective_pubkey_spec(s) == Some(new_pubkey),
        key_rotation_verdict(s, s) == Some(false),
{
}

/// When a rotation between two profiles verifies, the new profile's effective
/// key is its identity key, the key the rotation hands over to.
pub proof fn verified_rotation_hands_over(old: SignedPaymentProfile, new: SignedPaymentProfile)
    requires
        key_rotation_verdict(old, new) == Some(true),
    ensures
        effective_pubkey_spec(new) == Some(new.profile.identity_pubkey@),
        new.profile.rotation->0.previous_pubkey@ == old.profile.identity_pubkey@,
{
}

/// The key in effect is the profile's own identity key unless the profile
/// carries a rotation whose authorisation, over the rotation message, checks
/// out against the rotation's previous key; only then is it the rotation's
/// new key. A rotation that does not check out changes nothing.
pub proof fn effective_key_needs_authorised_rotation(profile: SignedPaymentProfile)
    ensures
        effective_pubkey_spec(profile) matches Some(key) ==> (key == profile.profile.identity_pubkey@
            || (profile.profile.rotation matches Some(k) && key == k.new_pubkey@ && sig_check(
            rotation_message(k.previous_pubkey@, k.new_pubkey@, k.rotated_at),
            k.authorization_signature@,
            k.previous_pubkey@,
        ) == SigCheck::Checked(true))),
        match profile.profile.rotation {
            Some(k) => {
                let check = sig_check(
                    rotation_message(k.previous_pubkey@, k.new_pubkey@, k.rotated_at),
                    k.authorization_signature@,
                    k.previous_pubkey@,
                );
                &&& check == SigCheck::Checked(false) ==> effective_pubkey_spec(profile) == Some(
                    profile.profile.identity_pubkey@,
                )
                &&& check == SigCheck::Checked(true) ==> effective_pubkey_spec(profile) == Some(k.new_pubkey@)
            },
            None => effective_pubkey_spec(profile) == Some(profile.profile.identity_pubkey@),
        },
{
}

} // verus!
