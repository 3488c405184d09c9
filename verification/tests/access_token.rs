use haskepay::compact::verify_compact_token_bytes;
use haskepay::crypto::Base64Error;
use haskepay::{
    generate_keypair, sign_compact_payload, sign_token, sign_token_to_string, signed_token_to_json,
    verify_signed_token_at, AccessToken, CompactAccessPayload, CompactVerifyError, SigningKey,
    VerifyError,
};

#[test]
fn verifies_signed_lightning_settlement_token() {
    let signing_key = generate_keypair();
    let token = AccessToken::new_lightning(
        2,
        "event-1",
        "payment-hash",
        Some("preimage".to_string()),
        Some("lnbc2500n1test".to_string()),
        250_000,
        1_700_000_000,
        1_800_000_000,
        "nonce-1",
    );

    let signed = sign_token(token, &signing_key).unwrap();

    verify_signed_token_at(&signed, &signing_key.verifying_key(), 1_700_000_001).unwrap();
    assert_eq!(signed.token.version, 2);
    assert_eq!(signed.token.event_id, "event-1");
    assert_eq!(signed.token.payment_hash, "payment-hash");
    assert_eq!(signed.token.preimage.as_deref(), Some("preimage"));
    assert_eq!(signed.token.invoice.as_deref(), Some("lnbc2500n1test"));
    assert_eq!(signed.token.amount_msat, 250_000);
    assert_eq!(signed.token.settled_at, 1_700_000_000);
}

#[test]
fn rejects_tampered_lightning_token() {
    let signing_key = generate_keypair();
    let mut signed = sign_token(
        AccessToken::new_lightning(
            2,
            "event-1",
            "payment-hash",
            None,
            Some("lnbc2500n1test".to_string()),
            250_000,
            1_700_000_000,
            1_800_000_000,
            "nonce-1",
        ),
        &signing_key,
    )
    .unwrap();

    signed.token.payment_hash = "different-payment-hash".to_string();

    let err = verify_signed_token_at(&signed, &signing_key.verifying_key(), 1_700_000_001)
        .unwrap_err();
    assert!(matches!(err, VerifyError::InvalidSignature));
}

#[test]
fn rejects_expired_lightning_token() {
    let signing_key = generate_keypair();
    let signed = sign_token(
        AccessToken::new_lightning(
            2,
            "event-1",
            "payment-hash",
            None,
            None,
            250_000,
            1_700_000_000,
            1_700_000_010,
            "nonce-1",
        ),
        &signing_key,
    )
    .unwrap();

    let err = verify_signed_token_at(&signed, &signing_key.verifying_key(), 1_700_000_010)
        .unwrap_err();
    assert!(matches!(err, VerifyError::Expired { .. }));
}

fn fixed_key() -> SigningKey {
    SigningKey::from_bytes(&[7u8; 32])
}

#[test]
fn token_json_is_compact_in_field_order() {
    let token = AccessToken::new_lightning(
        2,
        "event-1",
        "payment-hash",
        Some("preimage".to_string()),
        None,
        250_000,
        1_700_000_000,
        1_800_000_000,
        "nonce-1",
    );
    assert_eq!(
        token.to_json(),
        "{\"version\":2,\"event_id\":\"event-1\",\"payment_hash\":\"payment-hash\",\"preimage\":\"preimage\",\"invoice\":null,\"amount_msat\":250000,\"settled_at\":1700000000,\"expires_at\":1800000000,\"nonce\":\"nonce-1\",\"product\":\"HASKEpay\",\"rail\":\"lightning\"}"
    );
}

#[test]
fn new_token_has_no_settlement_details() {
    let token = AccessToken::new(1, "ev", "hash", 42, "n");
    assert_eq!(token.version, 1);
    assert_eq!(token.preimage, None);
    assert_eq!(token.invoice, None);
    assert_eq!(token.amount_msat, 0);
    assert_eq!(token.settled_at, 0);
    assert_eq!(token.expires_at, 42);
    assert_eq!(token.product, "HASKEpay");
    assert_eq!(token.rail, "lightning");
}

#[test]
fn random_nonce_has_sixteen_alphanumerics() {
    let token = AccessToken::with_random_nonce(2, "ev", "hash", 42);
    assert_eq!(token.nonce.len(), 16);
    assert!(token.nonce.chars().all(|c| c.is_ascii_alphanumeric()));
    assert_eq!(token.event_id, "ev");
}

#[test]
fn signed_token_verifies_until_expiry_and_not_after() {
    let key = fixed_key();
    let public = key.verifying_key();
    let signed = sign_token(AccessToken::new(2, "e", "h", 100, "n"), &key).unwrap();
    assert!(verify_signed_token_at(&signed, &public, 0).is_ok());
    assert!(verify_signed_token_at(&signed, &public, 99).is_ok());
    match verify_signed_token_at(&signed, &public, 100) {
        Err(VerifyError::Expired { now, expires_at }) => {
            assert_eq!(now, 100);
            assert_eq!(expires_at, 100);
        }
        other => panic!("unexpected {:?}", other),
    }
}

#[test]
fn signature_under_other_key_is_refused() {
    let signed = sign_token(AccessToken::new(2, "e", "h", 100, "n"), &fixed_key()).unwrap();
    let other = SigningKey::from_bytes(&[9u8; 32]).verifying_key();
    assert!(matches!(
        verify_signed_token_at(&signed, &other, 1),
        Err(VerifyError::InvalidSignature)
    ));
}

#[test]
fn malformed_signature_texts_are_refused() {
    let key = fixed_key();
    let mut signed = sign_token(AccessToken::new(2, "e", "h", 100, "n"), &key).unwrap();
    signed.signature = "not base64!".to_string();
    assert!(matches!(
        verify_signed_token_at(&signed, &key.verifying_key(), 1),
        Err(VerifyError::Decode(Base64Error::InvalidByte(3, b' ')))
    ));
    signed.signature = "AAAA".to_string();
    assert!(matches!(
        verify_signed_token_at(&signed, &key.verifying_key(), 1),
        Err(VerifyError::InvalidSignatureLength)
    ));
}

#[test]
fn signature_is_standard_base64_of_ed25519_signature() {
    let signed = sign_token(AccessToken::new(2, "e", "h", 100, "n"), &fixed_key()).unwrap();
    // 64 bytes in padded Base64 take 88 characters ending in "==".
    assert_eq!(signed.signature.len(), 88);
    assert!(signed.signature.ends_with("=="));
    assert_ne!(signed.signature, "");
}

#[test]
fn signed_token_json_wraps_token_and_signature() {
    let key = fixed_key();
    let token = AccessToken::new(2, "e", "h", 100, "n");
    let token_json = token.to_json();
    let signed = sign_token(token.clone(), &key).unwrap();
    let json = signed_token_to_json(&signed).unwrap();
    assert_eq!(
        json,
        format!("{{\"token\":{},\"signature\":\"{}\"}}", token_json, signed.signature)
    );
    assert_eq!(sign_token_to_string(token, &key).unwrap(), json);
}

#[test]
fn json_strings_match_serde_json() {
    let samples = [
        "",
        "plain",
        "quote\"back\\slash",
        "tab\tnew\nline\rcr",
        "\u{8}\u{c}\u{0}\u{1f}\u{7f}",
        "caf\u{e9} \u{1f600} \u{2028}",
    ];
    for s in samples {
        let mut out = String::new();
        haskepay::json::push_json_string(&mut out, s);
        assert_eq!(out, serde_json::to_string(s).unwrap());
    }
    for n in [0u64, 7, 10, 250_000, u64::MAX] {
        let mut out = String::new();
        haskepay::json::push_json_u64(&mut out, n);
        assert_eq!(out, serde_json::to_string(&n).unwrap());
    }
}

#[test]
fn compact_token_round_trip() {
    let key = fixed_key();
    let payload = CompactAccessPayload {
        payment_hash: "abc".to_string(),
        expires_at: 1_800_000_000,
        event_id: "demo-event".to_string(),
    };
    let token = sign_compact_payload(&payload, &key).unwrap();
    let (left, right) = token.split_once('.').unwrap();
    assert!(!left.is_empty() && !right.is_empty());
    assert!(!token.contains('='));
    let bytes = verify_compact_token_bytes(&token, &key.verifying_key()).unwrap();
    assert_eq!(
        String::from_utf8(bytes).unwrap(),
        "{\"payment_hash\":\"abc\",\"expires_at\":1800000000,\"event_id\":\"demo-event\"}"
    );
    assert_eq!(payload.to_json(), "{\"payment_hash\":\"abc\",\"expires_at\":1800000000,\"event_id\":\"demo-event\"}");
}

#[test]
fn compact_token_errors() {
    let key = fixed_key();
    let public = key.verifying_key();
    assert!(matches!(
        verify_compact_token_bytes("nodot", &public),
        Err(CompactVerifyError::InvalidFormat)
    ));
    assert!(matches!(
        verify_compact_token_bytes("a*b.AAAA", &public),
        Err(CompactVerifyError::Base64(Base64Error::InvalidByte(1, b'*')))
    ));
    assert!(matches!(
        verify_compact_token_bytes("AAAA.AAAA", &public),
        Err(CompactVerifyError::InvalidSignatureLength)
    ));
    let payload = CompactAccessPayload {
        payment_hash: "abc".to_string(),
        expires_at: 5,
        event_id: "e".to_string(),
    };
    let token = sign_compact_payload(&payload, &key).unwrap();
    let other = SigningKey::from_bytes(&[1u8; 32]).verifying_key();
    assert!(matches!(
        verify_compact_token_bytes(&token, &other),
        Err(CompactVerifyError::InvalidSignature)
    ));
    // a second dot belongs to the signature part and breaks its Base64
    let doubled = format!("{}.x", token);
    assert!(matches!(
        verify_compact_token_bytes(&doubled, &public),
        Err(CompactVerifyError::Base64(_))
    ));
}
