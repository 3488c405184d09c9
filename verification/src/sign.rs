//! Signing access tokens with the issuer key.

use vstd::prelude::*;
use vstd::utf8::encode_utf8;
use crate::crypto::{
    base64_standard_encode, base64_standard_encoding, base64_standard_decoding, decoded_bytes,
    ed25519_sign, ed25519_signature, ed25519_public_key, ed25519_verifies,
};
use crate::json::{JsonError, json_member, json_string, push_json_member_string};
use crate::keys::SigningKey;
use crate::text::push_char;
use crate::token::{AccessToken, AccessTokenModel, access_token_json};
use crate::verify::{verify_signed_token_spec, expiry_outcome};

verus! {

/// A token together with the Base64 (standard alphabet, padded) Ed25519
/// signature of its canonical JSON bytes.
#[derive(Clone, Debug)]
pub struct SignedAccessToken {
    pub token: AccessToken,
    pub signature: String,
}

/// The mathematical content of a signed token.
pub struct SignedAccessTokenModel {
    pub token: AccessTokenModel,
    pub signature: Seq<char>,
}

impl View for SignedAccessToken {
    type V = SignedAccessTokenModel;

    open spec fn view(&self) -> SignedAccessTokenModel {
        SignedAccessTokenModel { token: self.token@, signature: self.signature@ }
    }
}

/// Why a token could not be signed or written out.
#[derive(Clone, Debug)]
pub enum SignError {
    /// The token could not be serialised.
    Serialize(JsonError),
}

/// The bytes that are signed for a token: the UTF-8 encoding of its
/// canonical JSON text.
pub open spec fn token_payload(t: AccessTokenModel) -> Seq<u8> {
    encode_utf8(access_token_json(t))
}

/// The signature text that the issuer with secret key `secret` attaches to
/// a token.
pub open spec fn token_signature(secret: Seq<u8>, t: AccessTokenModel) -> Seq<char> {
    base64_standard_encoding(ed25519_signature(secret, token_payload(t)))
}

/// The canonical JSON text of a signed token: `{"token":…,"signature":…}`.
pub open spec fn signed_token_json(s: SignedAccessTokenModel) -> Seq<char> {
    seq!['{'] + json_member("token"@, access_token_json(s.token)) + seq![',']
        + json_member("signature"@, json_string(s.signature)) + seq!['}']
}

/// Signs a token with the issuer key.
///
/// Always succeeds. The signature covers the token's canonical JSON bytes;
/// the signed token verifies under the key's public key at every time before
/// its expiry and is refused as expired from then on.
pub fn sign_token(token: AccessToken, signing_key: &SigningKey) -> (r: Result<SignedAccessToken, SignError>)
    ensures
        r matches Ok(signed) && signed.token@ == token@
            && signed.signature@ == token_signature(signing_key@, token@),
        r matches Ok(signed) ==> forall|now: u64|
            #[trigger] verify_signed_token_spec(signed@, ed25519_public_key(signing_key@), now)
                == expiry_outcome(token@.expires_at, now),
{
    let json = token.to_json();
    let payload = json.as_str().as_bytes();
    let secret = signing_key.to_bytes();
    let signature = ed25519_sign(&secret, payload);
    let signature_b64 = base64_standard_encode(signature.as_slice());
    let signed = SignedAccessToken { token, signature: signature_b64 };
    assert(base64_standard_decoding(signed.signature@) == decoded_bytes(signature@));
    assert(ed25519_verifies(ed25519_public_key(signing_key@), token_payload(signed.token@), signature@));
    Ok(signed)
}

/// The canonical JSON text of a signed token.
pub fn signed_token_to_json(signed: &SignedAccessToken) -> (r: Result<String, SignError>)
    ensures
        r matches Ok(s) && s@ == signed_token_json(signed@),
{
    let mut s = String::new();
    push_char(&mut s, '{');
    let ghost start = s@;
    crate::json::push_json_key(&mut s, "token");
    let token_json = signed.token.to_json();
    crate::text::push_str(&mut s, token_json.as_str());
    assert(s@ =~= start + json_member("token"@, access_token_json(signed.token@)));
    push_char(&mut s, ',');
    push_json_member_string(&mut s, "signature", signed.signature.as_str());
    push_char(&mut s, '}');
    Ok(s)
}

/// Signs a token and writes the signed token out as JSON text.
pub fn sign_token_to_string(token: AccessToken, signing_key: &SigningKey) -> (r: Result<String, SignError>)
    ensures
        r matches Ok(s) && s@ == signed_token_json(SignedAccessTokenModel {
            token: token@,
            signature: token_signature(signing_key@, token@),
        }),
{
    let signed = match sign_token(token, signing_key) {
        Ok(signed) => signed,
        Err(e) => return Err(e),
    };
    signed_token_to_json(&signed)
}

} // verus!
