//! The outside primitives the token formats rest on: Ed25519 signatures
//! (`ed25519-dalek`), Base64 transport encodings (`base64`), and the
//! system's random source. Each is reached through one trusted wrapper
//! whose contract names what the outside function computes.

use vstd::prelude::*;
use base64::Engine;
use ed25519_dalek::{Signer, Verifier};

verus! {

/// The public key that Ed25519 derives from a 32-byte secret key.
pub uninterp spec fn ed25519_public_key(secret: Seq<u8>) -> Seq<u8>;

/// The Ed25519 signature of `message` under a 32-byte secret key.
pub uninterp spec fn ed25519_signature(secret: Seq<u8>, message: Seq<u8>) -> Seq<u8>;

/// Whether `signature` is a valid Ed25519 signature of `message` under the
/// 32 public key bytes (false when the bytes are no curve point).
pub uninterp spec fn ed25519_verifies(public: Seq<u8>, message: Seq<u8>, signature: Seq<u8>) -> bool;

/// Whether 32 bytes decompress to an Ed25519 public key.
pub uninterp spec fn ed25519_public_key_valid(public: Seq<u8>) -> bool;

/// The standard Base64 text (with padding) of some bytes.
pub uninterp spec fn base64_standard_encoding(bytes: Seq<u8>) -> Seq<char>;

/// What standard Base64 decoding (canonical padding required) gives for a text.
pub uninterp spec fn base64_standard_decoding(text: Seq<char>) -> Result<Seq<u8>, Base64Error>;

/// The URL-safe Base64 text (no padding) of some bytes.
pub uninterp spec fn base64_url_encoding(bytes: Seq<u8>) -> Seq<char>;

/// What URL-safe Base64 decoding (padding refused) gives for a text.
pub uninterp spec fn base64_url_decoding(text: Seq<char>) -> Result<Seq<u8>, Base64Error>;

/// Why a Base64 text did not decode.
#[derive(Clone, Copy, Debug, PartialEq, Eq, Structural)]
pub enum Base64Error {
    /// A byte outside the alphabet, at the given offset.
    InvalidByte(usize, u8),
    /// A symbol count that no encoding produces.
    InvalidLength(usize),
    /// A last symbol whose discarded bits are not zero.
    InvalidLastSymbol(usize, u8),
    /// Padding absent where required or present where refused.
    InvalidPadding,
}

/// Inputs short enough for a Base64 encoder to size its output in a `usize`.
pub open spec fn base64_encodable(len: nat) -> bool {
    len <= (usize::MAX / 4) * 3
}

/// A character of the URL-safe Base64 alphabet.
pub open spec fn is_base64_url_char(c: char) -> bool {
    ('A' <= c && c <= 'Z') || ('a' <= c && c <= 'z') || ('0' <= c && c <= '9') || c == '-' || c == '_'
}

/// A successful decoding that gives `bytes`.
pub open spec fn decoded_bytes(bytes: Seq<u8>) -> Result<Seq<u8>, Base64Error> {
    Ok(bytes)
}

/// The view of a decoding result.
pub open spec fn decoded_view(r: Result<Vec<u8>, Base64Error>) -> Result<Seq<u8>, Base64Error> {
    match r {
        Ok(v) => Ok(v@),
        Err(e) => Err(e),
    }
}

/// The public key of a secret key.
///
/// Trusted: `ed25519_dalek::SigningKey::from_bytes` then `verifying_key`
/// and `VerifyingKey::to_bytes`. Claimed: the result is the derived public
/// key, and it is a valid curve point (it was computed as one).
#[verifier::external_body]
pub(crate) fn ed25519_derive_public(secret: &[u8; 32]) -> (public: [u8; 32])
    ensures
        public@ == ed25519_public_key(secret@),
        ed25519_public_key_valid(public@),
{
    ed25519_dalek::SigningKey::from_bytes(secret).verifying_key().to_bytes()
}

/// Signs a message.
///
/// Trusted: `Signer::sign` of `ed25519_dalek::SigningKey`, then
/// `Signature::to_bytes`. Claimed: the 64 bytes are the named signature,
/// and they verify under the key's own public key (Ed25519 correctness,
/// as the crate documents it). Nothing is claimed of other keys or messages.
#[verifier::external_body]
pub(crate) fn ed25519_sign(secret: &[u8; 32], message: &[u8]) -> (signature: Vec<u8>)
    ensures
        signature@ == ed25519_signature(secret@, message@),
        signature@.len() == 64,
        ed25519_verifies(ed25519_public_key(secret@), message@, signature@),
{
    ed25519_dalek::SigningKey::from_bytes(secret).sign(message).to_bytes().to_vec()
}

/// Checks a signature.
///
/// Trusted: `ed25519_dalek::VerifyingKey::from_bytes`, `Signature::from_bytes`
/// and `Verifier::verify`. Claimed: the answer is the named predicate of the
/// three byte strings (false when the key bytes are no curve point).
#[verifier::external_body]
pub(crate) fn ed25519_verify(public: &[u8; 32], message: &[u8], signature: &[u8]) -> (ok: bool)
    requires
        signature@.len() == 64,
    ensures
        ok == ed25519_verifies(public@, message@, signature@),
{
    let signature: [u8; 64] = signature.try_into().unwrap();
    let signature = ed25519_dalek::Signature::from_bytes(&signature);
    match ed25519_dalek::VerifyingKey::from_bytes(public) {
        Ok(key) => key.verify(message, &signature).is_ok(),
        Err(_) => false,
    }
}

/// Whether 32 bytes are a usable public key.
///
/// Trusted: `ed25519_dalek::VerifyingKey::from_bytes`. Claimed: it succeeds
/// exactly on the bytes the named predicate accepts.
#[verifier::external_body]
pub(crate) fn ed25519_check_public(public: &[u8; 32]) -> (ok: bool)
    ensures
        ok == ed25519_public_key_valid(public@),
{
    ed25519_dalek::VerifyingKey::from_bytes(public).is_ok()
}

/// A fresh secret key from the operating system's random source.
///
/// Trusted: `ed25519_dalek::SigningKey::generate` with `rand::rngs::OsRng`.
/// Nothing is claimed of the bytes: they are random.
#[verifier::external_body]
pub(crate) fn random_secret_key() -> (secret: [u8; 32]) {
    ed25519_dalek::SigningKey::generate(&mut rand::rngs::OsRng).to_bytes()
}

/// Standard Base64 with padding.
///
/// Trusted: `base64::engine::general_purpose::STANDARD.encode`. Claimed: the
/// text is the named encoding, and decoding it with the same engine gives
/// the bytes back (the round trip the crate documents). The encoder panics
/// only when the output length overflows `usize`, which `requires` rules out.
#[verifier::external_body]
pub(crate) fn base64_standard_encode(bytes: &[u8]) -> (text: String)
    requires
        base64_encodable(bytes@.len()),
    ensures
        text@ == base64_standard_encoding(bytes@),
        base64_standard_decoding(text@) == decoded_bytes(bytes@),
{
    base64::engine::general_purpose::STANDARD.encode(bytes)
}

/// Standard Base64 decoding.
///
/// Trusted: `base64::engine::general_purpose::STANDARD.decode` on the
/// text's bytes. Claimed: the outcome, bytes or error, is the named one;
/// the error's variants are carried over one for one.
#[verifier::external_body]
pub(crate) fn base64_standard_decode(text: &str) -> (r: Result<Vec<u8>, Base64Error>)
    ensures
        decoded_view(r) == base64_standard_decoding(text@),
{
    match base64::engine::general_purpose::STANDARD.decode(text) {
        Ok(v) => Ok(v),
        Err(base64::DecodeError::InvalidByte(i, b)) => Err(Base64Error::InvalidByte(i, b)),
        Err(base64::DecodeError::InvalidLength(n)) => Err(Base64Error::InvalidLength(n)),
        Err(base64::DecodeError::InvalidLastSymbol(i, b)) => Err(Base64Error::InvalidLastSymbol(i, b)),
        Err(base64::DecodeError::InvalidPadding) => Err(Base64Error::InvalidPadding),
    }
}

/// URL-safe Base64 without padding.
///
/// Trusted: `base64::engine::general_purpose::URL_SAFE_NO_PAD.encode`.
/// Claimed: the text is the named encoding, it decodes back to the bytes
/// with the same engine, and all its characters are from the URL-safe
/// alphabet (`A-Z a-z 0-9 - _`, no padding), as the crate documents.
#[verifier::external_body]
pub(crate) fn base64_url_encode(bytes: &[u8]) -> (text: String)
    requires
        base64_encodable(bytes@.len()),
    ensures
        text@ == base64_url_encoding(bytes@),
        base64_url_decoding(text@) == decoded_bytes(bytes@),
        forall|i: int| 0 <= i < text@.len() ==> is_base64_url_char(#[trigger] text@[i]),
{
    base64::engine::general_purpose::URL_SAFE_NO_PAD.encode(bytes)
}

/// URL-safe Base64 decoding without padding.
///
/// Trusted: `base64::engine::general_purpose::URL_SAFE_NO_PAD.decode` on the
/// text's bytes. Claimed: the outcome is the named one.
#[verifier::external_body]
pub(crate) fn base64_url_decode(text: &str) -> (r: Result<Vec<u8>, Base64Error>)
    ensures
        decoded_view(r) == base64_url_decoding(text@),
{
    match base64::engine::general_purpose::URL_SAFE_NO_PAD.decode(text) {
        Ok(v) => Ok(v),
        Err(base64::DecodeError::InvalidByte(i, b)) => Err(Base64Error::InvalidByte(i, b)),
        Err(base64::DecodeError::InvalidLength(n)) => Err(Base64Error::InvalidLength(n)),
        Err(base64::DecodeError::InvalidLastSymbol(i, b)) => Err(Base64Error::InvalidLastSymbol(i, b)),
        Err(base64::DecodeError::InvalidPadding) => Err(Base64Error::InvalidPadding),
    }
}

} // verus!

