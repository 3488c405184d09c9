//! HASKEpay: Lightning-settled access passes that verify offline.
//!
//! The library holds the token formats (canonical JSON framing, Ed25519
//! signatures, Base64 transport), the offline verification rules, the
//! session stores of the payment services and the pure decisions of the
//! payment rails.

pub mod text;
pub mod json;
pub mod crypto;
pub mod keys;
pub mod random;
pub mod clock;
pub mod store;
pub mod token;
pub mod sign;
pub mod verify;
pub mod compact;
pub mod shared;
pub mod node;
pub mod access;
pub mod lightning_adapter;
pub mod stellar;
pub mod checkout;
pub mod admission;
pub mod funding;
pub mod mock_backend;

pub use compact::{
    sign_compact_payload, verify_compact_token_bytes, CompactAccessPayload, CompactVerifyError,
};
pub use keys::{generate_keypair, SigningKey, VerifyingKey};
pub use sign::{sign_token, sign_token_to_string, signed_token_to_json, SignError, SignedAccessToken};
pub use token::AccessToken;
pub use verify::{
    verify_parsed_token, verify_signed_token, verify_signed_token_at, VerificationStatus,
    VerifyError,
};
