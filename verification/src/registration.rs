//! Checks of a username registration request at the identity server: the
//! base64 fields are decoded, the Ed25519 signature over
//! `register:USERNAME:TIMESTAMP` is verified against the submitted public
//! key, and the timestamp must lie within five minutes of the server clock.

use vstd::prelude::*;
use vstd::utf8::encode_utf8;
use vstd::string::StringSliceAdditionalSpecFns;
use base64::Engine;
use ed25519_dalek::Verifier;
use crate::text::{push_signed_decimal_str, signed_decimal_chars, string_of};
use crate::primitives::{ed25519_public, ed25519_signature};

verus! {

/// `base64::DecodeError`, the error of a base64 decode.
#[verifier::external_type_specification]
#[verifier::external_body]
pub struct ExDecodeError(base64::DecodeError);

/// `ed25519_dalek::SignatureError`, the error of key parsing and verification.
#[verifier::external_type_specification]
#[verifier::external_body]
pub struct ExSignatureError(ed25519_dalek::SignatureError);

/// Decoding with the standard base64 alphabet and canonical padding: the
/// bytes, or the text of the decoding error.
pub uninterp spec fn base64_standard_decoded(input: Seq<u8>) -> Result<Seq<u8>, Seq<char>>;

/// Whether 32 bytes are the compressed form of a point of the Edwards curve.
pub uninterp spec fn ed25519_point_valid(key: Seq<u8>) -> bool;

/// Whether a 64-byte signature verifies for a message under a 32-byte key
/// (RFC 8032 verification, with a canonical `s`).
pub uninterp spec fn ed25519_verifies(key: Seq<u8>, message: Seq<u8>, signature: Seq<u8>) -> bool;

/// Calls `general_purpose::STANDARD.decode(input)` and renders a decoding
/// error with `to_string`. Claimed: the outcome is the named decoding of the
/// input bytes.
#[verifier::external_body]
fn base64_decode(input: &str) -> (res: Result<Vec<u8>, String>)
    ensures
        match res {
            Ok(v) => base64_standard_decoded(input.spec_bytes()) == Ok::<Seq<u8>, Seq<char>>(v@),
            Err(e) => base64_standard_decoded(input.spec_bytes()) == Err::<Seq<u8>, Seq<char>>(e@),
        },
{
    match base64::engine::general_purpose::STANDARD.decode(input) {
        Ok(v) => Ok(v),
        Err(e) => Err(e.to_string()),
    }
}

/// Calls `VerifyingKey::from_bytes(public_key)` and, when the key parses,
/// its `verify(message, &Signature::from_bytes(signature))`. Claimed: the
/// outer result is `Ok` exactly for a valid curve point, the inner one
/// exactly when the signature verifies; and a signature that the seed of a
/// key made on the message always verifies under that key.
#[verifier::external_body]
fn ed25519_check(public_key: &[u8; 32], message: &[u8], signature: &[u8; 64]) -> (res: Result<
    Result<(), ed25519_dalek::SignatureError>,
    ed25519_dalek::SignatureError,
>)
    ensures
        res is Ok <==> ed25519_point_valid(public_key@),
        res is Ok ==> (res->Ok_0 is Ok <==> ed25519_verifies(public_key@, message@, signature@)),
        forall|seed: Seq<u8>|
            #![trigger ed25519_signature(seed, message@)]
            seed.len() == 32 && public_key@ == ed25519_public(seed) && signature@
                == ed25519_signature(seed, message@) ==> (res is Ok
                && res->Ok_0 is Ok),
{
    match ed25519_dalek::VerifyingKey::from_bytes(public_key) {
        Ok(k) => Ok(k.verify(message, &ed25519_dalek::Signature::from_bytes(signature))),
        Err(e) => Err(e),
    }
}

/// Calls `to_string` on a signature error. Nothing is claimed of the text.
#[verifier::external_body]
fn signature_error_text(e: &ed25519_dalek::SignatureError) -> String {
    e.to_string()
}

/// Calls `chrono::Utc::now().timestamp()`. Nothing is claimed: it is the clock.
#[verifier::external_body]
fn unix_now() -> i64 {
    chrono::Utc::now().timestamp()
}

/// Why a registration request was refused.
#[derive(Debug)]
pub enum RegistrationError {
    /// A malformed field or a stale timestamp, with its message.
    Internal(String),
    /// The signature does not verify.
    InvalidSignature,
}

/// The text that a registering client signs.
pub open spec fn registration_message(username: Seq<char>, timestamp: int) -> Seq<char> {
    "register:"@ + username + ":"@ + signed_decimal_chars(timestamp)
}

/// Largest distance between a request's timestamp and the server clock, in seconds.
pub open spec fn max_clock_skew() -> int {
    300
}

/// Distance of two instants in seconds.
pub open spec fn skew(now: int, timestamp: int) -> int {
    if now >= timestamp {
        now - timestamp
    } else {
        timestamp - now
    }
}

/// Why a registration signature is refused, as the contracts see it.
pub enum SignatureRefusal {
    /// A malformed field, with the message of the refusal.
    Malformed(Seq<char>),
    /// The public key is not a point of the curve; the message starts
    /// with `Invalid public key: ` and goes on with the key error's text.
    KeyNotOnCurve,
    /// The signature does not verify.
    BadSignature,
    /// The timestamp is too far from the server clock.
    Stale,
}

/// The refusal that the request's fields earn, whatever the clock reads:
/// the first failing check decides.
pub open spec fn signature_field_refusal(
    public_key: Seq<u8>,
    signature_b64: Seq<u8>,
    timestamp: int,
    username: Seq<char>,
) -> Option<SignatureRefusal> {
    match base64_standard_decoded(signature_b64) {
        Err(e) => Some(SignatureRefusal::Malformed("Invalid signature base64: "@ + e)),
        Ok(sig) => if sig.len() != 64 {
            Some(SignatureRefusal::Malformed("Invalid signature length"@))
        } else if public_key.len() != 32 {
            Some(SignatureRefusal::Malformed("Invalid public key length"@))
        } else if !ed25519_point_valid(public_key) {
            Some(SignatureRefusal::KeyNotOnCurve)
        } else if !ed25519_verifies(
            public_key,
            encode_utf8(registration_message(username, timestamp)),
            sig,
        ) {
            Some(SignatureRefusal::BadSignature)
        } else {
            None
        },
    }
}

/// The refusal of a request with the server clock reading `now`.
pub open spec fn signature_refusal_at(
    public_key: Seq<u8>,
    signature_b64: Seq<u8>,
    timestamp: int,
    username: Seq<char>,
    now: int,
) -> Option<SignatureRefusal> {
    match signature_field_refusal(public_key, signature_b64, timestamp, username) {
        Some(r) => Some(r),
        None => if skew(now, timestamp) > max_clock_skew() {
            Some(SignatureRefusal::Stale)
        } else {
            None
        },
    }
}

/// Whether an error is the one returned for a refusal.
pub open spec fn refusal_error(r: SignatureRefusal, e: RegistrationError) -> bool {
    match r {
        SignatureRefusal::Malformed(m) => e matches RegistrationError::Internal(s) && s@ == m,
        SignatureRefusal::KeyNotOnCurve => e matches RegistrationError::Internal(s) && s@.len() >= 20
            && s@.subrange(0, 20) == "Invalid public key: "@,
        SignatureRefusal::BadSignature => e is InvalidSignature,
        SignatureRefusal::Stale => e matches RegistrationError::Internal(s) && s@
            == "Timestamp too old or in future"@,
    }
}

/// Law: a request whose fields all pass is refused as stale exactly when
/// its timestamp lies more than 300 seconds from the server clock, whether
/// in the past or in the future; the refusal is answered with the message
/// `Timestamp too old or in future`.
pub proof fn law_freshness_window(
    public_key: Seq<u8>,
    signature_b64: Seq<u8>,
    timestamp: int,
    username: Seq<char>,
    now: int,
    e: RegistrationError,
)
    requires
        signature_field_refusal(public_key, signature_b64, timestamp, username) is None,
    ensures
        now - timestamp > 300 ==> signature_refusal_at(
            public_key,
            signature_b64,
            timestamp,
            username,
            now,
        ) == Some(SignatureRefusal::Stale),
        timestamp - now > 300 ==> signature_refusal_at(
            public_key,
            signature_b64,
            timestamp,
            username,
            now,
        ) == Some(SignatureRefusal::Stale),
        -300 <= now - timestamp <= 300 ==> signature_refusal_at(
            public_key,
            signature_b64,
            timestamp,
            username,
            now,
        ) is None,
        refusal_error(SignatureRefusal::Stale, e) <==> (e matches RegistrationError::Internal(m)
            && m@ == "Timestamp too old or in future"@),
{
}

/// Verifies a registration signature with the server clock reading `now`.
/// Refusals in order: the signature is not base64, not 64 bytes long, the
/// public key is not 32 bytes or not a curve point, the signature does not
/// verify over `register:USERNAME:TIMESTAMP`, or the timestamp is more than
/// 300 seconds away from `now`.
pub fn verify_signature_at(
    public_key: &[u8],
    signature_b64: &str,
    timestamp: i64,
    username: &str,
    now: i64,
) -> (res: Result<(), RegistrationError>)
    ensures
        match signature_refusal_at(
            public_key@,
            signature_b64.spec_bytes(),
            timestamp as int,
            username@,
            now as int,
        ) {
            None => res is Ok,
            Some(r) => res is Err && refusal_error(r, res->Err_0),
        },
        forall|seed: Seq<u8>|
            #![trigger ed25519_public(seed)]
            seed.len() == 32 && public_key@.len() == 32 && public_key@ == ed25519_public(seed)
                && ed25519_signature(
                seed,
                encode_utf8(registration_message(username@, timestamp as int)),
            ).len() == 64 && base64_standard_decoded(signature_b64.spec_bytes()) == Ok::<
                Seq<u8>,
                Seq<char>,
            >(ed25519_signature(seed, encode_utf8(registration_message(username@, timestamp as int))))
                && skew(now as int, timestamp as int) <= max_clock_skew() ==> res is Ok,
{
    let sig = match base64_decode(signature_b64) {
        Ok(v) => v,
        Err(e) => {
            let mut m = string_of("Invalid signature base64: ");
            m.append(e.as_str());
            return Err(RegistrationError::Internal(m));
        },
    };
    if sig.len() != 64 {
        return Err(RegistrationError::Internal(string_of("Invalid signature length")));
    }
    if public_key.len() != 32 {
        return Err(RegistrationError::Internal(string_of("Invalid public key length")));
    }
    let mut sig_arr = [0u8; 64];
    let mut i: usize = 0;
    while i < 64
        invariant
            sig@.len() == 64,
            i <= 64,
            forall|j: int| 0 <= j < i ==> sig_arr@[j] == sig@[j],
        decreases 64 - i,
    {
        sig_arr[i] = sig[i];
        i = i + 1;
    }
    assert(sig_arr@ =~= sig@);
    let mut key_arr = [0u8; 32];
    let mut i: usize = 0;
    while i < 32
        invariant
            public_key@.len() == 32,
            i <= 32,
            forall|j: int| 0 <= j < i ==> key_arr@[j] == public_key@[j],
        decreases 32 - i,
    {
        key_arr[i] = public_key[i];
        i = i + 1;
    }
    assert(key_arr@ =~= public_key@);
    let mut message = string_of("register:");
    message.append(username);
    message.append(":");
    push_signed_decimal_str(&mut message, timestamp);
    assert(message@ =~= registration_message(username@, timestamp as int));
    let checked = ed25519_check(&key_arr, message.as_str().as_bytes(), &sig_arr);
    match checked {
        Err(e) => {
            let mut m = string_of("Invalid public key: ");
            let t = signature_error_text(&e);
            m.append(t.as_str());
            proof {
                reveal_strlit("Invalid public key: ");
            }
            assert(m@.subrange(0, 20) =~= "Invalid public key: "@);
            return Err(RegistrationError::Internal(m));
        },
        Ok(Err(_)) => {
            return Err(RegistrationError::InvalidSignature);
        },
        Ok(Ok(())) => {},
    }
    let diff: i128 = (now as i128) - (timestamp as i128);
    let dist: i128 = if diff < 0 {
        -diff
    } else {
        diff
    };
    if dist > 300 {
        return Err(RegistrationError::Internal(string_of("Timestamp too old or in future")));
    }
    Ok(())
}

/// Verifies a registration signature against the server clock. A request
/// whose fields are refused is refused whatever the clock reads; one whose
/// fields pass is accepted or refused as stale, as the clock decides.
pub fn verify_signature(
    public_key: &[u8],
    signature_b64: &str,
    timestamp: i64,
    username: &str,
) -> (res: Result<(), RegistrationError>)
    ensures
        match signature_field_refusal(
            public_key@,
            signature_b64.spec_bytes(),
            timestamp as int,
            username@,
        ) {
            Some(r) => res is Err && refusal_error(r, res->Err_0),
            None => res is Ok || refusal_error(SignatureRefusal::Stale, res->Err_0),
        },
{
    let now = unix_now();
    verify_signature_at(public_key, signature_b64, timestamp, username, now)
}

/// Decodes the base64 public key of a registration request.
pub fn decode_public_key(public_key_b64: &str) -> (res: Result<Vec<u8>, RegistrationError>)
    ensures
        match base64_standard_decoded(public_key_b64.spec_bytes()) {
            Ok(k) => res matches Ok(v) && v@ == k,
            Err(e) => res matches Err(RegistrationError::Internal(m)) && m@ == "Invalid base64: "@ + e,
        },
{
    match base64_decode(public_key_b64) {
        Ok(v) => Ok(v),
        Err(e) => {
            let mut m = string_of("Invalid base64: ");
            m.append(e.as_str());
            Err(RegistrationError::Internal(m))
        },
    }
}

} // verus!
