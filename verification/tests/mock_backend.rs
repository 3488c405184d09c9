use haskepay::access::ProofError;
use haskepay::mock_backend::MockBackend;

#[test]
fn demo_invoices_settle_after_six_seconds() {
    let mut backend = MockBackend::new();
    let created = backend.create_invoice(1_000);
    assert_eq!(created.invoice_id.len(), 12);
    assert_eq!(created.amount_msat, 250_000);
    assert!(created.invoice.starts_with("lnbc250000"));
    assert_eq!(created.invoice.len(), "lnbc250000".len() + 18);
    let lower = |c: char| c.is_ascii_lowercase() || c.is_ascii_digit();
    assert!(created.invoice_id.chars().all(lower));
    assert!(created.invoice["lnbc250000".len()..].chars().all(lower));
    assert_eq!(created.expires_at, 1_900);
    assert!(created.invoice_qr_png.is_empty() && created.invoice_qr_ascii.is_empty());

    let early = backend.check_invoice(&created.invoice_id, 1_005).unwrap();
    assert_eq!(early.status, "pending");
    assert!(early.access_token.is_none());

    let paid = backend.check_invoice(&created.invoice_id, 1_006).unwrap();
    assert_eq!(paid.status, "settled");
    let token = paid.access_token.unwrap();
    assert!(token.starts_with("access_"));
    assert_eq!(token.len(), 31);

    let again = backend.get_access_token(&created.invoice_id, 2_000).unwrap();
    assert_eq!(again.access_token.as_deref(), Some(token.as_str()));
    assert_eq!(again.expires_at, 1_900);
}

#[test]
fn unknown_demo_invoice_is_not_found() {
    let mut backend = MockBackend::new();
    assert_eq!(backend.check_invoice("missing", 0).unwrap_err(), ProofError::NotFound);
}
