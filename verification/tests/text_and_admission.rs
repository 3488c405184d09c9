use haskepay::admission::{is_expired_at, pass_accepted, public_key_from_base64, PublicKeyError};
use haskepay::crypto::Base64Error;
use haskepay::random::{random_hex, random_id, to_hex};
use haskepay::store::KeyedStore;
use haskepay::text::{parse_u64, trim, u64_to_decimal, ascii_eq_ignore_case, str_eq};
use haskepay::{CompactAccessPayload, CompactVerifyError, SigningKey, VerificationStatus};

#[test]
fn parses_u64_like_std() {
    for s in ["0", "7", "+7", "0007", "18446744073709551615", "", "+", "-1", "1 ", "18446744073709551616", "99999999999999999999", "１"] {
        assert_eq!(parse_u64(s), s.parse::<u64>().ok(), "input {:?}", s);
    }
}

#[test]
fn decimal_text() {
    for n in [0u64, 9, 10, 1234567890, u64::MAX] {
        assert_eq!(u64_to_decimal(n), n.to_string());
    }
}

#[test]
fn trims_like_std() {
    for s in ["", "  ", " a ", "\t\nkey\r\n", "\u{3000}x\u{a0}", "a b", "\u{200b}x"] {
        assert_eq!(trim(s), s.trim());
    }
}

#[test]
fn case_and_equality() {
    assert!(ascii_eq_ignore_case("TrUe", "true"));
    assert!(!ascii_eq_ignore_case("tru", "true"));
    assert!(!ascii_eq_ignore_case("É", "é"));
    assert!(str_eq("abc", "abc"));
    assert!(!str_eq("abc", "abd"));
}

#[test]
fn random_texts() {
    let id = random_id(20);
    assert_eq!(id.len(), 20);
    assert!(id.chars().all(|c| c.is_ascii_lowercase() || c.is_ascii_digit()));
    let h = random_hex(4);
    assert_eq!(h.len(), 8);
    assert_eq!(to_hex(&vec![0x00, 0x0f, 0xab, 0xff]), "000fabff");
}

#[test]
fn keyed_store_replaces_and_finds() {
    let mut s: KeyedStore<u32> = KeyedStore::new();
    assert!(s.get("a").is_none());
    s.insert("a".to_string(), 1);
    s.insert("b".to_string(), 2);
    s.insert("a".to_string(), 3);
    assert_eq!(s.get("a"), Some(&3));
    assert_eq!(s.get("b"), Some(&2));
    assert!(s.get("c").is_none());
}

#[test]
fn public_key_texts() {
    let key = SigningKey::from_bytes(&[4u8; 32]).verifying_key();
    let text = format!("  {}\n", base64_of(&key.to_bytes()));
    let loaded = public_key_from_base64(&text).unwrap();
    assert_eq!(loaded.to_bytes(), key.to_bytes());
    assert_eq!(public_key_from_base64("AAAA").unwrap_err(), PublicKeyError::InvalidLength);
    assert_eq!(
        public_key_from_base64("REPLACE_WITH_BASE64_PUBLIC_KEY").unwrap_err(),
        PublicKeyError::Base64(Base64Error::InvalidByte(7, b'_'))
    );
}

fn base64_of(bytes: &[u8]) -> String {
    const ALPHABET: &[u8] = b"ABCDEFGHIJKLMNOPQRSTUVWXYZabcdefghijklmnopqrstuvwxyz0123456789+/";
    let mut out = String::new();
    for chunk in bytes.chunks(3) {
        let b = [chunk[0], *chunk.get(1).unwrap_or(&0), *chunk.get(2).unwrap_or(&0)];
        let n = ((b[0] as u32) << 16) | ((b[1] as u32) << 8) | b[2] as u32;
        for i in 0..4 {
            if i <= chunk.len() {
                out.push(ALPHABET[((n >> (18 - 6 * i)) & 63) as usize] as char);
            } else {
                out.push('=');
            }
        }
    }
    out
}

#[test]
fn compact_pass_expiry_is_after_the_expiry_second() {
    assert!(!is_expired_at(100, 100));
    assert!(is_expired_at(100, 101));
    let ok: Result<CompactAccessPayload, CompactVerifyError> = Ok(CompactAccessPayload {
        payment_hash: "h".to_string(),
        expires_at: 100,
        event_id: "e".to_string(),
    });
    assert!(pass_accepted(VerificationStatus::Invalid, &ok, 100));
    assert!(!pass_accepted(VerificationStatus::Invalid, &ok, 101));
    let bad: Result<CompactAccessPayload, CompactVerifyError> = Err(CompactVerifyError::InvalidFormat);
    assert!(!pass_accepted(VerificationStatus::Invalid, &bad, 0));
    assert!(pass_accepted(VerificationStatus::Valid, &bad, 0));
}
