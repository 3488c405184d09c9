//! The offline admission decision: the issuer's public key from its Base64
//! text, and the acceptance rule for a scanned pass.

use vstd::prelude::*;
use crate::clock::now_secs;
use crate::compact::{CompactAccessPayload, CompactVerifyError};
use crate::crypto::{Base64Error, base64_standard_decode, base64_standard_decoding, ed25519_public_key_valid};
use crate::keys::VerifyingKey;
use crate::text::{trim, trim_spec};
use crate::verify::VerificationStatus;

verus! {

/// Why a public key text was refused.
#[derive(Clone, Copy, Debug, PartialEq, Eq, Structural)]
pub enum PublicKeyError {
    /// The text is not standard Base64.
    Base64(Base64Error),
    /// The key does not have 32 bytes.
    InvalidLength,
    /// The bytes are no curve point.
    InvalidPoint,
}

/// The outcome of reading a public key text: surrounding white space is
/// ignored, the rest must be standard Base64 of 32 bytes forming a curve point.
pub open spec fn public_key_spec(text: Seq<char>) -> Result<Seq<u8>, PublicKeyError> {
    match base64_standard_decoding(trim_spec(text)) {
        Err(e) => Err(PublicKeyError::Base64(e)),
        Ok(bytes) => {
            if bytes.len() != 32 {
                Err(PublicKeyError::InvalidLength)
            } else if !ed25519_public_key_valid(bytes) {
                Err(PublicKeyError::InvalidPoint)
            } else {
                Ok(bytes)
            }
        },
    }
}

/// The view of a read public key.
pub open spec fn key_result_view(r: Result<VerifyingKey, PublicKeyError>) -> Result<Seq<u8>, PublicKeyError> {
    match r {
        Ok(k) => Ok(k@),
        Err(e) => Err(e),
    }
}

/// Reads the issuer's public key from its Base64 text.
pub fn public_key_from_base64(text: &str) -> (r: Result<VerifyingKey, PublicKeyError>)
    ensures
        key_result_view(r) == public_key_spec(text@),
{
    let trimmed = trim(text);
    let bytes = match base64_standard_decode(trimmed.as_str()) {
        Ok(b) => b,
        Err(e) => return Err(PublicKeyError::Base64(e)),
    };
    if bytes.len() != 32 {
        return Err(PublicKeyError::InvalidLength);
    }
    let mut array = [0u8; 32];
    let mut i: usize = 0;
    while i < 32
        invariant
            i <= 32,
            bytes@.len() == 32,
            forall|j: int| 0 <= j < i ==> array@[j] == bytes@[j],
        decreases 32 - i,
    {
        array.set(i, bytes[i]);
        i = i + 1;
    }
    assert(array@ =~= bytes@);
    match VerifyingKey::from_bytes(&array) {
        Ok(k) => Ok(k),
        Err(_) => Err(PublicKeyError::InvalidPoint),
    }
}

/// A compact pass has expired once the time is past its expiry.
pub open spec fn compact_expired(expires_at: u64, now: u64) -> bool {
    now > expires_at
}

/// Whether a compact pass expiring at `expires_at` has expired at `now`.
pub fn is_expired_at(expires_at: u64, now: u64) -> (r: bool)
    ensures
        r == compact_expired(expires_at, now),
        r <==> now > expires_at,
{
    now > expires_at
}

/// Expiry of a compact pass is for good: a pass has expired exactly when the
/// time is past its expiry, so once expired it stays expired at every later
/// time, and before that it has not expired at any earlier time.
pub proof fn law_compact_expiry_monotone(expires_at: u64, t: u64, later: u64)
    requires
        t <= later,
    ensures
        compact_expired(expires_at, t) <==> t > expires_at,
        compact_expired(expires_at, t) ==> compact_expired(expires_at, later),
        !compact_expired(expires_at, later) ==> !compact_expired(expires_at, t),
{
}

/// Whether a compact pass expiring at `expires_at` has expired now.
pub fn is_expired(expires_at: u64) -> (r: bool)
    ensures
        exists|now: u64| r == compact_expired(expires_at, now),
{
    is_expired_at(expires_at, now_secs())
}

/// The admission decision on a scanned pass at time `now`: accepted when it is a
/// valid signed token; otherwise accepted when it is a compact pass whose
/// signature checked out and that has not expired.
pub fn pass_accepted(
    signed_status: VerificationStatus,
    compact: &Result<CompactAccessPayload, CompactVerifyError>,
    now: u64,
) -> (accepted: bool)
    ensures
        accepted == (signed_status == VerificationStatus::Valid || match compact {
            Ok(p) => !compact_expired(p.expires_at, now),
            Err(_) => false,
        }),
        signed_status != VerificationStatus::Valid ==> (accepted <==> match compact {
            Ok(p) => now <= p.expires_at,
            Err(_) => false,
        }),
        signed_status == VerificationStatus::Valid ==> accepted,
{
    if signed_status == VerificationStatus::Valid {
        return true;
    }
    match compact {
        Ok(p) => !is_expired_at(p.expires_at, now),
        Err(_) => false,
    }
}

} // verus!
