//! Compact access tokens: `payload.signature`, both parts URL-safe Base64
//! without padding, short enough for a small QR code.

use vstd::prelude::*;
use vstd::utf8::encode_utf8;
use crate::crypto::{
    Base64Error, base64_encodable, base64_url_encode, base64_url_decode, base64_url_encoding,
    base64_url_decoding, is_base64_url_char, ed25519_sign, ed25519_signature,
    ed25519_public_key, ed25519_verify, ed25519_verifies,
};
use crate::json::{
    JsonError, json_member, json_string, json_u64, push_json_member_string, push_json_member_u64,
};
use crate::keys::{SigningKey, VerifyingKey};
use crate::text::{push_char, push_str, str_chars, find_char, string_from_char_range, first_index_of, lemma_first_index_of};

verus! {

/// What a compact token grants: access to an event until a time, for the
/// payment with the given hash.
#[derive(Clone, Debug)]
pub struct CompactAccessPayload {
    pub payment_hash: String,
    pub expires_at: u64,
    pub event_id: String,
}

/// The mathematical content of a compact payload.
pub struct CompactPayloadModel {
    pub payment_hash: Seq<char>,
    pub expires_at: u64,
    pub event_id: Seq<char>,
}

impl View for CompactAccessPayload {
    type V = CompactPayloadModel;

    open spec fn view(&self) -> CompactPayloadModel {
        CompactPayloadModel {
            payment_hash: self.payment_hash@,
            expires_at: self.expires_at,
            event_id: self.event_id@,
        }
    }
}

/// Why a compact token was refused.
#[derive(Clone, Debug)]
pub enum CompactVerifyError {
    /// No `.` separates payload and signature.
    InvalidFormat,
    /// The payload bytes are not a compact payload.
    InvalidPayload(JsonError),
    /// The signature does not verify under the public key.
    InvalidSignature,
    /// The signature does not have 64 bytes.
    InvalidSignatureLength,
    /// A part is not URL-safe Base64.
    Base64(Base64Error),
}

/// The canonical JSON text of a compact payload.
pub open spec fn compact_payload_json(p: CompactPayloadModel) -> Seq<char> {
    seq!['{']
        + json_member("payment_hash"@, json_string(p.payment_hash)) + seq![',']
        + json_member("expires_at"@, json_u64(p.expires_at)) + seq![',']
        + json_member("event_id"@, json_string(p.event_id))
        + seq!['}']
}

/// The bytes signed for a compact payload.
pub open spec fn compact_payload_bytes(p: CompactPayloadModel) -> Seq<u8> {
    encode_utf8(compact_payload_json(p))
}

/// The compact token that the issuer with secret key `secret` writes for a payload.
pub open spec fn compact_token(secret: Seq<u8>, p: CompactPayloadModel) -> Seq<char> {
    base64_url_encoding(compact_payload_bytes(p)) + seq!['.']
        + base64_url_encoding(ed25519_signature(secret, compact_payload_bytes(p)))
}

/// The outcome of checking a compact token's signature: the text is split at
/// its first `.`, both parts must decode, the signature must have 64 bytes
/// and verify over the payload bytes, which are then the result.
pub open spec fn verify_compact_spec(token: Seq<char>, public: Seq<u8>) -> Result<Seq<u8>, CompactVerifyError> {
    match first_index_of(token, '.') {
        None => Err(CompactVerifyError::InvalidFormat),
        Some(i) => match base64_url_decoding(token.take(i)) {
            Err(e) => Err(CompactVerifyError::Base64(e)),
            Ok(payload) => match base64_url_decoding(token.skip(i + 1)) {
                Err(e) => Err(CompactVerifyError::Base64(e)),
                Ok(signature) => {
                    if signature.len() != 64 {
                        Err(CompactVerifyError::InvalidSignatureLength)
                    } else if !ed25519_verifies(public, payload, signature) {
                        Err(CompactVerifyError::InvalidSignature)
                    } else {
                        Ok(payload)
                    }
                },
            },
        },
    }
}

/// The view of a checked compact token.
pub open spec fn compact_result_view(r: Result<Vec<u8>, CompactVerifyError>) -> Result<Seq<u8>, CompactVerifyError> {
    match r {
        Ok(v) => Ok(v@),
        Err(e) => Err(e),
    }
}

impl CompactAccessPayload {
    /// The canonical JSON text of the payload.
    pub fn to_json(&self) -> (s: String)
        ensures
            s@ == compact_payload_json(self@),
    {
        let mut s = String::new();
        push_char(&mut s, '{');
        push_json_member_string(&mut s, "payment_hash", self.payment_hash.as_str());
        push_char(&mut s, ',');
        push_json_member_u64(&mut s, "expires_at", self.expires_at);
        push_char(&mut s, ',');
        push_json_member_string(&mut s, "event_id", self.event_id.as_str());
        push_char(&mut s, '}');
        s
    }
}

/// Signs a payload into a compact token `payload.signature`.
///
/// Always succeeds; the token's signature checks out under the key's public
/// key and gives back exactly the payload's canonical JSON bytes.
pub fn sign_compact_payload(payload: &CompactAccessPayload, signing_key: &SigningKey) -> (r: Result<String, JsonError>)
    requires
        base64_encodable(compact_payload_bytes(payload@).len()),
    ensures
        r matches Ok(token) && token@ == compact_token(signing_key@, payload@),
        r matches Ok(token) ==> verify_compact_spec(token@, ed25519_public_key(signing_key@))
            == decoded_compact(compact_payload_bytes(payload@)),
{
    let json = payload.to_json();
    let bytes = json.as_str().as_bytes();
    let secret = signing_key.to_bytes();
    let signature = ed25519_sign(&secret, bytes);
    let payload_b64 = base64_url_encode(bytes);
    let sig_b64 = base64_url_encode(signature.as_slice());
    let mut token = String::new();
    push_str(&mut token, payload_b64.as_str());
    push_char(&mut token, '.');
    push_str(&mut token, sig_b64.as_str());
    proof {
        let a = payload_b64@;
        let b = sig_b64@;
        let t = token@;
        assert(t =~= a + seq!['.'] + b);
        assert forall|j: int| 0 <= j < a.len() implies t[j] != '.' by {
            assert(is_base64_url_char(a[j]));
        }
        lemma_first_index_of(t, '.', a.len() as int);
        assert(t.take(a.len() as int) =~= a);
        assert(t.skip(a.len() as int + 1) =~= b);
    }
    Ok(token)
}

/// A successful compact check giving `bytes`.
pub open spec fn decoded_compact(bytes: Seq<u8>) -> Result<Seq<u8>, CompactVerifyError> {
    Ok(bytes)
}

/// Checks a compact token's signature and gives back the signed payload
/// bytes (the canonical JSON text of the payload).
pub fn verify_compact_token_bytes(token: &str, public_key: &VerifyingKey) -> (r: Result<Vec<u8>, CompactVerifyError>)
    ensures
        compact_result_view(r) == verify_compact_spec(token@, public_key@),
{
    let chars = str_chars(token);
    let dot = match find_char(&chars, '.') {
        Some(i) => i,
        None => return Err(CompactVerifyError::InvalidFormat),
    };
    let n = chars.len();
    assert(dot < n);
    let payload_b64 = string_from_char_range(&chars, 0, dot);
    let sig_b64 = string_from_char_range(&chars, dot + 1, n);
    assert(payload_b64@ =~= token@.take(dot as int));
    assert(sig_b64@ =~= token@.skip(dot + 1));
    let payload = match base64_url_decode(payload_b64.as_str()) {
        Ok(bytes) => bytes,
        Err(e) => return Err(CompactVerifyError::Base64(e)),
    };
    let signature = match base64_url_decode(sig_b64.as_str()) {
        Ok(bytes) => bytes,
        Err(e) => return Err(CompactVerifyError::Base64(e)),
    };
    if signature.len() != 64 {
        return Err(CompactVerifyError::InvalidSignatureLength);
    }
    if !ed25519_verify(public_key.as_bytes(), payload.as_slice(), signature.as_slice()) {
        return Err(CompactVerifyError::InvalidSignature);
    }
    Ok(payload)
}

} // verus!
