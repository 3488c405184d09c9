use haskepay::access::{
    default_config, demo_config, new_invoice_id, AppConfig, InvoiceArtifacts, InvoiceResponse,
    InvoiceStatus, ProofError, ProofService,
};
use haskepay::node::{
    demo_mode_enabled, invoice_paid_event, parse_network, LightningInvoice, Network,
};
use haskepay::SigningKey;

fn service() -> ProofService {
    ProofService::new(SigningKey::from_bytes(&[3u8; 32]), default_config("live-event".to_string()))
}

fn invoice(hash: &str) -> LightningInvoice {
    LightningInvoice { invoice: format!("lnbc{}", hash), payment_hash: hash.to_string() }
}

fn artifacts(hash: &str, png: &str, ascii: &str) -> Option<InvoiceArtifacts> {
    Some(InvoiceArtifacts {
        invoice: invoice(hash),
        invoice_qr_png: png.to_string(),
        invoice_qr_ascii: ascii.to_string(),
    })
}

fn register(s: &mut ProofService, id: &str, hash: &str, amount: u64, now: u64) -> InvoiceResponse {
    s.finish_invoice(id.to_string(), amount, now, artifacts(hash, "", "")).unwrap()
}

#[test]
fn configs() {
    let demo = demo_config();
    assert!(demo.demo_mode);
    assert_eq!(demo.event_id, "demo-event");
    assert_eq!(demo.invoice_expiry_secs, 120);
    assert_eq!(demo.amount_msat, 250_000);
    let live = default_config("live-event".to_string());
    assert!(!live.demo_mode);
    assert_eq!(live.event_id, "live-event");
    assert_eq!(live.invoice_expiry_secs, 900);
}

#[test]
fn invoice_terms_defaults_and_limits() {
    let s = service();
    let t = s.invoice_terms(None, None).unwrap();
    assert_eq!(t.amount_msat, 250_000);
    assert_eq!(t.memo, "HASKEpay access");
    assert_eq!(t.expiry_secs, 900);
    let t = s.invoice_terms(Some(7), Some("vip".to_string())).unwrap();
    assert_eq!((t.amount_msat, t.memo.as_str()), (7, "vip"));

    let long = ProofService::new(
        SigningKey::from_bytes(&[3u8; 32]),
        AppConfig {
            demo_mode: false,
            event_id: "e".to_string(),
            invoice_expiry_secs: u32::MAX as u64 + 1,
            amount_msat: 1,
        },
    );
    assert_eq!(long.invoice_terms(None, None).unwrap_err(), ProofError::Internal);
}

#[test]
fn unknown_invoice_is_not_found() {
    let s = service();
    assert_eq!(s.check_invoice("nope").unwrap_err(), ProofError::NotFound);
    assert_eq!(s.get_access_token("nope").unwrap_err(), ProofError::NotFound);
}

#[test]
fn registered_invoice_is_pending_until_paid() {
    let mut s = service();
    let r = s
        .finish_invoice("inv1".to_string(), 5_000, 1_000, artifacts("hash1", "png", "ascii"))
        .unwrap();
    assert_eq!(r.invoice_id, "inv1");
    assert_eq!(r.amount_msat, 5_000);
    assert_eq!(r.invoice_qr_png, "png");
    assert_eq!(r.invoice_qr_ascii, "ascii");
    assert_eq!(r.expires_at, 1_900);
    assert_eq!(r.invoice, "lnbchash1");
    let status = s.check_invoice("inv1").unwrap();
    assert_eq!(status.status, "pending");
    assert_eq!(status.expires_at, 1_900);
    assert!(status.access_token.is_none());

    assert!(s.pass_fits("unknown-hash"));
    assert!(s.prepare_settlement("unknown-hash").is_none());
    assert!(s.pass_fits("hash1"));
    let pending = s.prepare_settlement("hash1").unwrap();
    assert_eq!(pending.invoice_id(), "inv1");
    let token = pending.token().to_string();
    s.finish_settlement(pending, Some(("qr-png".to_string(), "qr-ascii".to_string()))).unwrap();

    let status = s.get_access_token("inv1").unwrap();
    assert_eq!(status.status, "settled");
    assert_eq!(status.access_token.as_deref(), Some(token.as_str()));
    assert_eq!(status.access_qr_png.as_deref(), Some("qr-png"));
    assert_eq!(status.access_qr_ascii.as_deref(), Some("qr-ascii"));

    // a second report of the same payment issues nothing new
    assert!(s.prepare_settlement("hash1").is_none());

    // the pass checks out under the service's public key and carries the session's terms
    let public = SigningKey::from_bytes(&[3u8; 32]).verifying_key();
    let bytes = haskepay::verify_compact_token_bytes(&token, &public).unwrap();
    assert_eq!(
        String::from_utf8(bytes).unwrap(),
        "{\"payment_hash\":\"hash1\",\"expires_at\":1900,\"event_id\":\"live-event\"}"
    );
}

#[test]
fn reregistering_an_id_replaces_the_session() {
    let mut s = service();
    register(&mut s, "a", "h1", 1, 0);
    register(&mut s, "a", "h2", 2, 10);
    assert_eq!(s.check_invoice("a").unwrap().expires_at, 910);
    assert!(s.prepare_settlement("h2").is_some());
}

#[test]
fn failed_invoice_leaves_no_session() {
    let mut s = service();
    assert_eq!(s.finish_invoice("inv1".to_string(), 5_000, 1_000, None).unwrap_err(), ProofError::Internal);
    assert_eq!(s.check_invoice("inv1").unwrap_err(), ProofError::NotFound);
    assert!(s.prepare_settlement("hash1").is_none());
}

#[test]
fn failed_rendering_leaves_session_pending() {
    let mut s = service();
    register(&mut s, "inv1", "hash1", 5_000, 1_000);
    let pending = s.prepare_settlement("hash1").unwrap();
    assert_eq!(s.finish_settlement(pending, None).unwrap_err(), ProofError::Internal);
    let status = s.check_invoice("inv1").unwrap();
    assert_eq!(status.status, "pending");
    assert!(status.access_token.is_none());
    assert!(status.access_qr_png.is_none());
    assert!(status.access_qr_ascii.is_none());

    // the payment can be completed on a later report
    let pending = s.prepare_settlement("hash1").unwrap();
    s.finish_settlement(pending, Some(("p".to_string(), "a".to_string()))).unwrap();
    let status = s.check_invoice("inv1").unwrap();
    assert_eq!(status.status, "settled");
    assert_eq!(status.access_qr_png.as_deref(), Some("p"));
}

#[test]
fn settled_session_stays_as_it_is() {
    let mut s = service();
    register(&mut s, "inv1", "hash1", 5_000, 1_000);
    let pending = s.prepare_settlement("hash1").unwrap();
    s.finish_settlement(pending, Some(("p".to_string(), "a".to_string()))).unwrap();
    let before = s.check_invoice("inv1").unwrap();
    assert!(s.prepare_settlement("hash1").is_none());
    let after = s.check_invoice("inv1").unwrap();
    assert_eq!(before.access_token, after.access_token);
    assert_eq!(after.status, "settled");
}

#[test]
fn invoice_ids_are_twelve_alphanumerics() {
    let id = new_invoice_id();
    assert_eq!(id.len(), 12);
    assert!(id.chars().all(|c| c.is_ascii_alphanumeric()));
    let _ = InvoiceStatus::Pending;
}

#[test]
fn node_settings() {
    assert_eq!(parse_network(None), Network::Signet);
    assert_eq!(parse_network(Some("MainNet")), Network::Bitcoin);
    assert_eq!(parse_network(Some("bitcoin")), Network::Bitcoin);
    assert_eq!(parse_network(Some("REGTEST")), Network::Regtest);
    assert_eq!(parse_network(Some("testnet")), Network::Signet);
    assert!(demo_mode_enabled(Some("1")));
    assert!(demo_mode_enabled(Some("TRUE")));
    assert!(!demo_mode_enabled(Some("yes")));
    assert!(!demo_mode_enabled(None));
}

#[test]
fn paid_invoice_events() {
    let e = invoice_paid_event("h".to_string(), None, 9);
    assert_eq!((e.payment_hash.as_str(), e.amount_msat, e.timestamp), ("h", 0, 9));
    let e = invoice_paid_event("h".to_string(), Some(21), 9);
    assert_eq!(e.amount_msat, 21);
}
