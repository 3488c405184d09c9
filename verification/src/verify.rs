//! Offline verification of signed access tokens.

use vstd::prelude::*;
use crate::clock::now_secs;
use crate::crypto::{Base64Error, base64_standard_decode, base64_standard_decoding, ed25519_verify, ed25519_verifies};
use crate::json::JsonError;
use crate::keys::VerifyingKey;
use crate::sign::{SignedAccessToken, SignedAccessTokenModel, token_payload};

verus! {

/// The decision on a token text.
#[derive(Clone, Copy, Debug, PartialEq, Eq, Structural)]
pub enum VerificationStatus {
    Valid,
    Invalid,
}

/// Why a signed token was refused.
#[derive(Clone, Debug)]
pub enum VerifyError {
    /// The signature text is not standard Base64.
    Decode(Base64Error),
    /// The signature does not have 64 bytes.
    InvalidSignatureLength,
    /// The signature does not verify under the public key.
    InvalidSignature,
    /// The token text is not a signed token.
    InvalidToken(JsonError),
    /// The token expired at `expires_at`, which is not after `now`.
    Expired { now: u64, expires_at: u64 },
}

/// The time check alone: valid strictly before `expires_at`.
pub open spec fn expiry_outcome(expires_at: u64, now: u64) -> Result<(), VerifyError> {
    if expires_at <= now {
        Err(VerifyError::Expired { now, expires_at })
    } else {
        Ok(())
    }
}

/// The outcome of verifying a signed token at time `now`: the signature
/// must decode to 64 bytes that verify over the token's canonical JSON
/// bytes, and then the token must not have expired.
pub open spec fn verify_signed_token_spec(signed: SignedAccessTokenModel, public: Seq<u8>, now: u64) -> Result<(), VerifyError> {
    match base64_standard_decoding(signed.signature) {
        Err(e) => Err(VerifyError::Decode(e)),
        Ok(signature) => {
            if signature.len() != 64 {
                Err(VerifyError::InvalidSignatureLength)
            } else if !ed25519_verifies(public, token_payload(signed.token), signature) {
                Err(VerifyError::InvalidSignature)
            } else {
                expiry_outcome(signed.token.expires_at, now)
            }
        },
    }
}

/// Verifies a signed token against the issuer's public key at time `now_secs`.
pub fn verify_signed_token_at(signed: &SignedAccessToken, public_key: &VerifyingKey, now_secs: u64) -> (r: Result<(), VerifyError>)
    ensures
        r == verify_signed_token_spec(signed@, public_key@, now_secs),
        r is Ok ==> now_secs < signed@.token.expires_at,
        r matches Err(VerifyError::Expired { now, expires_at }) ==> {
            &&& now == now_secs
            &&& expires_at == signed@.token.expires_at
            &&& expires_at <= now
        },
{
    let json = signed.token.to_json();
    let payload = json.as_str().as_bytes();
    let signature = match base64_standard_decode(signed.signature.as_str()) {
        Ok(bytes) => bytes,
        Err(e) => return Err(VerifyError::Decode(e)),
    };
    if signature.len() != 64 {
        return Err(VerifyError::InvalidSignatureLength);
    }
    if !ed25519_verify(public_key.as_bytes(), payload, signature.as_slice()) {
        return Err(VerifyError::InvalidSignature);
    }
    if signed.token.expires_at <= now_secs {
        Err(VerifyError::Expired { now: now_secs, expires_at: signed.token.expires_at })
    } else {
        Ok(())
    }
}

/// A token is valid strictly before its expiry and expired from then on:
/// when a signed token verifies at some time `t`, then `t` is before its
/// expiry, it verifies at every time before its expiry, and at every time
/// from its expiry on it is refused as expired, with that time and expiry.
pub proof fn law_signed_token_expiry(signed: SignedAccessTokenModel, public: Seq<u8>, t: u64, now: u64)
    requires
        verify_signed_token_spec(signed, public, t) is Ok,
    ensures
        t < signed.token.expires_at,
        now < signed.token.expires_at ==> verify_signed_token_spec(signed, public, now) is Ok,
        now >= signed.token.expires_at ==> verify_signed_token_spec(signed, public, now)
            == Err::<(), VerifyError>(VerifyError::Expired { now, expires_at: signed.token.expires_at }),
{
}

/// Verifies a signed token against the issuer's public key at the current time.
pub fn verify_signed_token(signed: &SignedAccessToken, public_key: &VerifyingKey) -> (r: Result<(), VerifyError>)
    ensures
        exists|now: u64| r == verify_signed_token_spec(signed@, public_key@, now),
{
    verify_signed_token_at(signed, public_key, now_secs())
}

/// The decision on a token text once it has been read as JSON: invalid when
/// it did not read as a signed token, otherwise the decision of verifying it
/// at the current time.
pub fn verify_parsed_token(parsed: Result<SignedAccessToken, VerifyError>, public_key: &VerifyingKey) -> (status: VerificationStatus)
    ensures
        parsed is Err ==> status == VerificationStatus::Invalid,
        parsed matches Ok(signed) ==> exists|now: u64|
            (status == VerificationStatus::Valid) == (verify_signed_token_spec(signed@, public_key@, now) is Ok),
{
    match parsed {
        Err(_) => VerificationStatus::Invalid,
        Ok(signed) => {
            let r = verify_signed_token(&signed, public_key);
            if r.is_ok() {
                VerificationStatus::Valid
            } else {
                VerificationStatus::Invalid
            }
        },
    }
}

} // verus!
