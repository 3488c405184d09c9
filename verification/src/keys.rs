//! Issuer keys: a secret signing key and the public key that entrances use
//! to verify passes offline.

use vstd::prelude::*;
use crate::crypto::{
    ed25519_public_key, ed25519_public_key_valid, ed25519_derive_public, ed25519_check_public,
    random_secret_key,
};

verus! {

/// An Ed25519 secret key of an access-pass issuer.
#[derive(Clone)]
pub struct SigningKey {
    secret: [u8; 32],
}

/// An Ed25519 public key, always a valid curve point.
#[derive(Clone, Copy, Debug, PartialEq, Eq)]
pub struct VerifyingKey {
    bytes: [u8; 32],
}

/// Why bytes were refused as a public key.
#[derive(Clone, Copy, Debug, PartialEq, Eq, Structural)]
pub enum KeyError {
    /// The bytes do not decompress to a curve point.
    InvalidPoint,
}

impl View for SigningKey {
    type V = Seq<u8>;

    closed spec fn view(&self) -> Seq<u8> {
        self.secret@
    }
}

impl View for VerifyingKey {
    type V = Seq<u8>;

    closed spec fn view(&self) -> Seq<u8> {
        self.bytes@
    }
}

impl VerifyingKey {
    #[verifier::type_invariant]
    spec fn is_point(self) -> bool {
        ed25519_public_key_valid(self.bytes@)
    }
}

impl SigningKey {
    /// The key with the given 32 secret bytes (any 32 bytes are a key).
    pub fn from_bytes(secret: &[u8; 32]) -> (key: SigningKey)
        ensures
            key@ == secret@,
    {
        SigningKey { secret: *secret }
    }

    /// The 32 secret bytes.
    pub fn to_bytes(&self) -> (secret: [u8; 32])
        ensures
            secret@ == self@,
    {
        self.secret
    }

    /// The public key that verifies this key's signatures.
    pub fn verifying_key(&self) -> (public: VerifyingKey)
        ensures
            public@ == ed25519_public_key(self@),
    {
        let bytes = ed25519_derive_public(&self.secret);
        VerifyingKey { bytes }
    }
}

impl VerifyingKey {
    /// The public key with the given bytes, refused when they are no curve point.
    pub fn from_bytes(bytes: &[u8; 32]) -> (r: Result<VerifyingKey, KeyError>)
        ensures
            r is Ok <==> ed25519_public_key_valid(bytes@),
            r matches Ok(key) ==> key@ == bytes@,
            r matches Err(e) ==> e == KeyError::InvalidPoint,
    {
        if ed25519_check_public(bytes) {
            Ok(VerifyingKey { bytes: *bytes })
        } else {
            Err(KeyError::InvalidPoint)
        }
    }

    /// The 32 public key bytes.
    pub fn to_bytes(&self) -> (bytes: [u8; 32])
        ensures
            bytes@ == self@,
            ed25519_public_key_valid(bytes@),
    {
        proof { use_type_invariant(self); }
        self.bytes
    }

    pub(crate) fn as_bytes(&self) -> (bytes: &[u8; 32])
        ensures
            bytes@ == self@,
    {
        &self.bytes
    }
}

/// A fresh random signing key.
pub fn generate_keypair() -> SigningKey {
    SigningKey { secret: random_secret_key() }
}

} // verus!
