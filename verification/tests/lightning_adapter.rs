use haskepay::lightning_adapter::{
    AdapterError, CreateInvoiceRequest, LightningAdapter, LightningAdapterConfig,
    MockLightningConfig, MockLightningProvider,
};
use haskepay::shared::{CreatePaymentRequest, JsonValue, PaymentEvent, PaymentRequest};

fn now_secs() -> u64 {
    std::time::SystemTime::now().duration_since(std::time::UNIX_EPOCH).unwrap().as_secs()
}

fn checkout(amount: &str) -> CreatePaymentRequest {
    CreatePaymentRequest {
        amount: amount.to_string(),
        currency: "msat".to_string(),
        asset: String::new(),
        event_id: "test-event".to_string(),
    }
}

fn create(
    adapter: &LightningAdapter,
    provider: &mut MockLightningProvider,
    request: CreatePaymentRequest,
    now: u64,
) -> PaymentRequest {
    let invoice_request = adapter.invoice_request(&request, now).unwrap();
    let created = provider.create_invoice(invoice_request.clone(), now);
    adapter.payment_request(&invoice_request, created)
}

fn find(provider: &MockLightningProvider, request: &PaymentRequest, now: u64) -> Option<PaymentEvent> {
    let query = LightningAdapter::settlement_query(request)?;
    let settlement =
        provider.check_invoice_settlement(&query.session_id, &query.invoice, &query.payment_hash, now);
    LightningAdapter::confirmed_event(request, settlement, now)
}

fn member_total(v: &JsonValue) -> usize {
    match v {
        JsonValue::Object(members) => members.len(),
        _ => 0,
    }
}

fn text_member<'a>(value: &'a JsonValue, key: &str) -> Option<&'a str> {
    match value {
        JsonValue::Object(members) => members.iter().find(|(k, _)| k == key).and_then(|(_, v)| match v {
            JsonValue::Text(t) => Some(t.as_str()),
            _ => None,
        }),
        _ => None,
    }
}

fn number_member(value: &JsonValue, key: &str) -> Option<u64> {
    match value {
        JsonValue::Object(members) => members.iter().find(|(k, _)| k == key).and_then(|(_, v)| match v {
            JsonValue::Number(n) => Some(*n),
            _ => None,
        }),
        _ => None,
    }
}

#[test]
fn mock_provider_creates_lightning_payment_request() {
    let (adapter, mut provider) = LightningAdapter::mock(None);
    let request = create(&adapter, &mut provider, checkout("250000"), now_secs());

    assert_eq!(request.rail, "lightning");
    assert_eq!(request.amount_msat, Some(250_000));
    assert!(request.invoice.unwrap().starts_with("lnbc250000n1"));
    assert_eq!(request.payment_hash.unwrap().len(), 64);
}

#[test]
fn mock_provider_returns_no_settlement_when_disabled() {
    let (adapter, mut provider) = LightningAdapter::mock(None);
    let now = now_secs();
    let request = create(&adapter, &mut provider, checkout("250000"), now);

    let event = find(&provider, &request, now);
    assert!(event.is_none());
}

#[test]
fn mock_provider_returns_normalized_settlement_event() {
    let (adapter, mut provider) = LightningAdapter::mock(Some(0));
    let now = now_secs();
    let request = create(&adapter, &mut provider, checkout("250000"), now);

    let event = find(&provider, &request, now).unwrap();

    assert_eq!(event.session_id, request.session_id);
    assert_eq!(event.payment_hash, request.payment_hash);
    assert_eq!(event.invoice, request.invoice);
    assert_eq!(event.amount_msat, Some(250_000));
    assert!(event.preimage.is_some());
    assert!(event.settled_at.is_some());
    assert_eq!(text_member(&event.provider_metadata, "provider"), Some("mock"));
}

#[test]
fn payment_request_fields() {
    let adapter = LightningAdapter::new(LightningAdapterConfig { request_expiry_secs: 60 });
    let mut provider = MockLightningProvider::new(MockLightningConfig { settle_after_secs: None });
    let request = create(&adapter, &mut provider, checkout("+0012"), 1_000);
    assert_eq!(request.amount, "12");
    assert_eq!(request.currency, "msat");
    assert_eq!(request.expires_at, 1_060);
    assert_eq!(request.session_id.len(), 16);
    assert!(request.session_id.chars().all(|c| c.is_ascii_lowercase() || c.is_ascii_digit()));
    assert_eq!(request.payment_request, request.qr_payload);
    assert_eq!(request.invoice.as_deref(), Some(request.payment_request.as_str()));
    let invoice = request.invoice.unwrap();
    assert_eq!(invoice.len(), "lnbc12n1".len() + 96);
    assert!(request.payment_hash.unwrap().chars().all(|c| c.is_ascii_hexdigit() && !c.is_ascii_uppercase()));
    assert!(request.destination.is_none() && request.asset.is_none() && request.memo.is_none());
}

#[test]
fn default_expiry_is_fifteen_minutes() {
    assert_eq!(LightningAdapterConfig::default().request_expiry_secs, 900);
}

#[test]
fn amounts_must_be_millisatoshi_numbers() {
    let (adapter, _) = LightningAdapter::mock(None);
    for bad in ["", "+", "-5", "2.5", "12a", "18446744073709551616", " 1"] {
        assert_eq!(
            adapter.invoice_request(&checkout(bad), 0).unwrap_err(),
            AdapterError::AmountNotMillisatoshis
        );
    }
    // the amount is refused before the expiry is worked out
    assert_eq!(
        adapter.invoice_request(&checkout("x"), u64::MAX).unwrap_err(),
        AdapterError::AmountNotMillisatoshis
    );
    let ok = adapter.invoice_request(&checkout("18446744073709551615"), 0).unwrap();
    assert_eq!(ok.amount_msat, u64::MAX);
    assert_eq!(ok.description, "test-event");
    assert_eq!(ok.expires_at, 900);
}

#[test]
fn settlement_waits_for_the_delay() {
    let (adapter, mut provider) = LightningAdapter::mock(Some(10));
    let request = create(&adapter, &mut provider, checkout("5000"), 100);
    assert!(find(&provider, &request, 109).is_none());
    let event = find(&provider, &request, 110).unwrap();
    assert_eq!(event.settled_at, Some(110));
    assert_eq!(event.confirmed_at, 110);
    assert_eq!(event.rail, "lightning");
    assert_eq!(event.currency, "msat");
    assert_eq!(Some(event.settlement_id.clone()), request.payment_hash);
    let hash = request.payment_hash.clone().unwrap();
    assert_eq!(event.preimage, Some(format!("mock_preimage_{}", hash)));
    assert_eq!(number_member(&event.provider_metadata, "amount_msat"), Some(5000));
    assert_eq!(number_member(&event.provider_metadata, "settle_after_secs"), Some(10));
    assert_eq!(member_total(&event.provider_metadata), 3);
}

#[test]
fn mock_refuses_unknown_and_mismatched_invoices() {
    let (adapter, mut provider) = LightningAdapter::mock(Some(0));
    let request = create(&adapter, &mut provider, checkout("1"), 0);
    let hash = request.payment_hash.clone().unwrap();
    let invoice = request.invoice.clone().unwrap();

    let unknown = provider.check_invoice_settlement(&request.session_id, &invoice, "00", 5);
    assert!(!unknown.settled);
    assert_eq!(text_member(&unknown.provider_metadata, "reason"), Some("unknown_invoice"));
    assert_eq!(member_total(&unknown.provider_metadata), 2);

    let mismatch = provider.check_invoice_settlement("other-session", &invoice, &hash, 5);
    assert!(!mismatch.settled && mismatch.preimage.is_none() && mismatch.settled_at.is_none());
    assert_eq!(text_member(&mismatch.provider_metadata, "reason"), Some("invoice_mismatch"));
    assert_eq!(member_total(&mismatch.provider_metadata), 2);

    let ok = provider.check_invoice_settlement(&request.session_id, &invoice, &hash, 5);
    assert!(ok.settled);
    assert_eq!(ok.settled_at, Some(0));
}

#[test]
fn requests_without_invoice_are_never_confirmed() {
    let (adapter, mut provider) = LightningAdapter::mock(Some(0));
    let mut request = create(&adapter, &mut provider, checkout("1"), 0);
    request.invoice = None;
    assert!(LightningAdapter::settlement_query(&request).is_none());
    assert!(find(&provider, &request, 10).is_none());
}

#[test]
fn settlement_time_falls_back_to_now() {
    let (adapter, mut provider) = LightningAdapter::mock(None);
    let request = create(&adapter, &mut provider, checkout("1"), 0);
    let settlement = haskepay::lightning_adapter::InvoiceSettlement {
        settled: true,
        preimage: None,
        settled_at: None,
        provider_metadata: JsonValue::Null,
    };
    let event = LightningAdapter::confirmed_event(&request, settlement, 77).unwrap();
    assert_eq!(event.settled_at, Some(77));
    assert_eq!(event.confirmed_at, 77);
    let _unused: Option<CreateInvoiceRequest> = None;
}
