use haskepay::checkout::{
    amount_sats, checkout_amount_msat, checkout_request, checkout_response, AccessArtifact,
    AccessService, CreatePaymentBody, IssueError,
};
use haskepay::funding::{bitcoin_signet_target, funding_outcome, is_success_status, FundingError};
use haskepay::shared::{CreatePaymentRequest, JsonValue, PaymentEvent, PaymentRequest};
use haskepay::stellar::{parse_payment, PaymentRecord, StellarConfig, StellarProvider};
use haskepay::{SigningKey, SignedAccessToken};

fn body() -> CreatePaymentBody {
    CreatePaymentBody { amount: None, amount_msat: None, amount_sats: None, currency: None, event_id: None }
}

#[test]
fn checkout_amount_precedence() {
    assert_eq!(checkout_amount_msat(&body()), 250_000);
    let mut b = body();
    b.amount_sats = Some(3);
    assert_eq!(checkout_amount_msat(&b), 3_000);
    b.amount = Some("x".to_string());
    assert_eq!(checkout_amount_msat(&b), 3_000);
    b.amount = Some("42".to_string());
    assert_eq!(checkout_amount_msat(&b), 42);
    b.amount_msat = Some(7);
    assert_eq!(checkout_amount_msat(&b), 7);
    assert_eq!(amount_sats(250_000), Some(250));
    assert_eq!(amount_sats(250_001), None);
}

#[test]
fn checkout_request_defaults() {
    let r = checkout_request(body());
    assert_eq!(r.amount, "250000");
    assert_eq!(r.currency, "msat");
    assert_eq!(r.asset, "");
    assert_eq!(r.event_id, "demo-event");
    let mut b = body();
    b.currency = Some("sat".to_string());
    b.event_id = Some("ev".to_string());
    b.amount_msat = Some(9);
    let r = checkout_request(b);
    assert_eq!((r.amount.as_str(), r.currency.as_str(), r.event_id.as_str()), ("9", "sat", "ev"));
}

fn lightning_request() -> PaymentRequest {
    PaymentRequest {
        session_id: "s".to_string(),
        rail: "lightning".to_string(),
        amount: "2000".to_string(),
        currency: "msat".to_string(),
        amount_msat: Some(2000),
        payment_request: "lnbc".to_string(),
        qr_payload: "lnbc".to_string(),
        invoice: Some("lnbc".to_string()),
        payment_hash: Some("h".to_string()),
        destination: None,
        asset: None,
        memo: None,
        expires_at: 99,
    }
}

#[test]
fn checkout_response_is_waiting() {
    let r = checkout_response(lightning_request(), "png".to_string());
    assert_eq!(r.status, "waiting");
    assert_eq!(r.amount, "2000");
    assert_eq!(r.currency, "msat");
    assert_eq!(r.amount_sats, Some(2));
    assert_eq!(r.bolt11.as_deref(), Some("lnbc"));
    assert_eq!(r.request_expires_at, 99);
    assert!(matches!(r.metadata, JsonValue::Null));
    assert!(r.access_token.is_none());
}

fn lightning_event(rail: &str) -> PaymentEvent {
    PaymentEvent {
        session_id: "s".to_string(),
        rail: rail.to_string(),
        settlement_id: "h".to_string(),
        payment_hash: Some("h".to_string()),
        preimage: Some("p".to_string()),
        invoice: Some("lnbc".to_string()),
        tx_hash: None,
        source_account: None,
        destination_account: None,
        amount: "2000".to_string(),
        currency: "msat".to_string(),
        amount_msat: Some(2000),
        asset: None,
        memo: None,
        ledger_sequence: None,
        confirmed_at: 50,
        settled_at: None,
        provider_metadata: JsonValue::Null,
    }
}

#[test]
fn access_service_issues_only_lightning_passes() {
    let key = SigningKey::from_bytes(&[5u8; 32]);
    let service = AccessService::new(SigningKey::from_bytes(&[5u8; 32]));
    assert!(matches!(
        service.issue_token(&lightning_event("stellar"), "ev", 100),
        Err(IssueError::NotLightning)
    ));
    let json = service.issue_token(&lightning_event("lightning"), "ev", 100).unwrap();
    assert!(json.starts_with("{\"token\":{\"version\":2,\"event_id\":\"ev\",\"payment_hash\":\"h\",\"preimage\":\"p\",\"invoice\":\"lnbc\",\"amount_msat\":2000,\"settled_at\":50,\"expires_at\":100,\"nonce\":\""));
    // rebuild the signed token from its JSON text and verify it offline
    let start = json.find("\"nonce\":\"").unwrap() + 9;
    let nonce = &json[start..start + 16];
    let sig_start = json.find("\"signature\":\"").unwrap() + 13;
    let signature = json[sig_start..json.len() - 2].to_string();
    let token = haskepay::AccessToken::new_lightning(
        2, "ev", "h", Some("p".to_string()), Some("lnbc".to_string()), 2000, 50, 100, nonce,
    );
    let signed = SignedAccessToken { token, signature };
    assert!(haskepay::verify_signed_token_at(&signed, &key.verifying_key(), 99).is_ok());
    assert!(haskepay::verify_signed_token_at(&signed, &key.verifying_key(), 100).is_err());

    let event = lightning_event("lightning");
    let artifact = AccessArtifact::for_event(json.clone(), "png".to_string(), "ascii".to_string(), &event);
    assert_eq!(artifact.settlement_id, "h");
    assert_eq!(artifact.payment_hash.as_deref(), Some("h"));
    assert_eq!(artifact.token, json);
}

fn record() -> PaymentRecord {
    PaymentRecord {
        id: "op-1".to_string(),
        record_type: "payment".to_string(),
        transaction_hash: "tx-1".to_string(),
        transaction_successful: true,
        from: "GFROM".to_string(),
        to: "GDEST".to_string(),
        amount: "10.0000000".to_string(),
        asset_type: "native".to_string(),
        asset_code: None,
        memo: Some("memo-1".to_string()),
        ledger: Some(77),
    }
}

#[test]
fn stellar_records_normalise() {
    let e = parse_payment(&record());
    assert_eq!(e.rail, "stellar");
    assert_eq!(e.settlement_id, "tx-1");
    assert_eq!(e.tx_hash.as_deref(), Some("tx-1"));
    assert_eq!(e.currency, "XLM");
    assert_eq!(e.asset.as_deref(), Some("XLM"));
    assert_eq!(e.ledger_sequence, Some(77));
    assert_eq!(e.session_id, "");
    let mut r = record();
    r.transaction_hash = String::new();
    r.asset_type = "credit_alphanum4".to_string();
    r.asset_code = Some("USDC".to_string());
    let e = parse_payment(&r);
    assert_eq!(e.settlement_id, "op-1");
    assert_eq!(e.currency, "USDC");
    r.asset_code = None;
    assert_eq!(parse_payment(&r).currency, "credit_alphanum4");
}

#[test]
fn stellar_requests_and_matching() {
    let provider = StellarProvider::new(StellarConfig {
        horizon_url: "https://horizon".to_string(),
        destination_address: "GDEST".to_string(),
    });
    let request = provider.create_payment_request(
        CreatePaymentRequest {
            amount: "10.0000000".to_string(),
            currency: "xlm".to_string(),
            asset: String::new(),
            event_id: "e".to_string(),
        },
        "memo-1".to_string(),
    );
    assert_eq!(request.qr_payload, "web+stellar:pay?destination=GDEST&amount=10.0000000&memo=memo-1");
    assert_eq!(request.session_id, "memo-1");
    assert_eq!(request.currency, "xlm");
    assert_eq!(request.expires_at, 0);

    let mut failed = record();
    failed.transaction_successful = false;
    let mut other_memo = record();
    other_memo.memo = Some("memo-2".to_string());
    other_memo.id = "op-0".to_string();
    let mut good = record();
    good.transaction_hash = "tx-good".to_string();
    let records = vec![failed, other_memo, good, record()];
    let found = StellarProvider::find_confirmed_payment(&request, &records).unwrap();
    assert_eq!(found.settlement_id, "tx-good");

    let none = StellarProvider::find_confirmed_payment(&request, &vec![record_with_amount("1")]);
    assert!(none.is_none());
    let mut no_memo = request.clone();
    no_memo.memo = None;
    assert!(StellarProvider::find_confirmed_payment(&no_memo, &records).is_none());
}

fn record_with_amount(a: &str) -> PaymentRecord {
    let mut r = record();
    r.amount = a.to_string();
    r
}

#[test]
fn funding_decisions() {
    let t = bitcoin_signet_target(None);
    assert_eq!(t.network, "bitcoin-signet");
    assert_eq!(t.faucet_name, "Signet Faucet");
    assert_eq!(t.faucet_url, "http://localhost:3002/faucet");
    assert_eq!(bitcoin_signet_target(Some("http://f".to_string())).faucet_url, "http://f");
    assert!(is_success_status(200) && is_success_status(299));
    assert!(!is_success_status(199) && !is_success_status(300) && !is_success_status(500));
    let ok = funding_outcome("addr".to_string(), 5, 201, Some("tx".to_string()), t.clone(), "x".to_string()).unwrap();
    assert_eq!((ok.address.as_str(), ok.sats_requested), ("addr", 5));
    match funding_outcome("addr".to_string(), 5, 500, None, t, "faucet HTTP 500".to_string()) {
        Err(FundingError::Http(m)) => assert_eq!(m, "faucet HTTP 500"),
        other => panic!("unexpected {:?}", other),
    }
}
