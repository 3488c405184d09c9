//! The Lightning payment rail: turning checkout requests into invoices and
//! invoice settlements into normalised payment events, and a mock invoice
//! provider that settles after a delay.

use vstd::prelude::*;
use crate::json::opt_string_view;
use crate::random::{random_hex, random_id, is_lower_alphanumeric, is_lower_hex};
use crate::shared::{
    CreatePaymentRequest, JsonValue, PaymentEvent, PaymentRequest, text_member, number_member,
    first_member, member_count,
};
use crate::store::KeyedStore;
use crate::text::{decimal, parse_u64, parse_u64_spec, push_decimal, push_str, u64_to_decimal};
use crate::token::{lightning_rail, lightning_string};

verus! {

/// How long a payment request stays payable, in seconds.
pub const DEFAULT_REQUEST_EXPIRY_SECS: u64 = 15 * 60;

/// Settings of the Lightning rail.
#[derive(Clone, Debug)]
pub struct LightningAdapterConfig {
    pub request_expiry_secs: u64,
}

impl Default for LightningAdapterConfig {
    fn default() -> (c: Self)
        ensures
            c.request_expiry_secs == DEFAULT_REQUEST_EXPIRY_SECS,
    {
        LightningAdapterConfig { request_expiry_secs: DEFAULT_REQUEST_EXPIRY_SECS }
    }
}

/// What the invoice provider is asked to invoice.
#[derive(Clone, Debug)]
pub struct CreateInvoiceRequest {
    pub session_id: String,
    pub amount_msat: u64,
    pub description: String,
    pub expires_at: u64,
}

/// An invoice as the provider created it.
#[derive(Debug)]
pub struct CreatedInvoice {
    pub invoice: String,
    pub payment_hash: String,
    pub amount_msat: u64,
    pub provider_metadata: JsonValue,
}

/// Whether and when an invoice was paid, as the provider reports it.
#[derive(Debug)]
pub struct InvoiceSettlement {
    pub settled: bool,
    pub preimage: Option<String>,
    pub settled_at: Option<u64>,
    pub provider_metadata: JsonValue,
}

/// What identifies an invoice to its provider when asking whether it was paid.
#[derive(Clone, Debug)]
pub struct SettlementQuery {
    pub session_id: String,
    pub invoice: String,
    pub payment_hash: String,
}

/// Why the Lightning rail refused a request.
#[derive(Clone, Copy, Debug, PartialEq, Eq, Structural)]
pub enum AdapterError {
    /// The amount is not a whole number of millisatoshis.
    AmountNotMillisatoshis,
}

/// The Lightning rail; its invoice provider is held beside it by the caller.
#[derive(Clone, Debug)]
pub struct LightningAdapter {
    config: LightningAdapterConfig,
}

/// The currency word of Lightning amounts.
pub open spec fn msat_word() -> Seq<char> {
    seq!['m', 's', 'a', 't']
}

fn msat_string() -> (s: String)
    ensures
        s@ == msat_word(),
{
    let s = "msat".to_owned();
    proof { reveal_strlit("msat"); }
    assert(s@ =~= msat_word());
    s
}

impl LightningAdapter {
    /// The settings.
    pub closed spec fn config_spec(&self) -> LightningAdapterConfig {
        self.config
    }

    /// The rail with the given settings.
    pub fn new(config: LightningAdapterConfig) -> (a: LightningAdapter)
        ensures
            a.config_spec() == config,
    {
        LightningAdapter { config }
    }

    /// The rail with default settings and a mock provider that settles
    /// invoices after `settle_after_secs` (never, when absent).
    pub fn mock(settle_after_secs: Option<u64>) -> (r: (LightningAdapter, MockLightningProvider))
        ensures
            r.0.config_spec().request_expiry_secs == DEFAULT_REQUEST_EXPIRY_SECS,
            r.1.config_spec().settle_after_secs == settle_after_secs,
            r.1.records() == Map::<Seq<char>, MockInvoiceRecord>::empty(),
    {
        let adapter = LightningAdapter::new(LightningAdapterConfig::default());
        let provider = MockLightningProvider::new(MockLightningConfig { settle_after_secs });
        (adapter, provider)
    }

    /// The invoice to ask for: the amount must read as a number of
    /// millisatoshis; a fresh session id of 16 lower-case letters and digits;
    /// the event as description; payable until the configured lifetime after `now`.
    pub fn invoice_request(&self, request: &CreatePaymentRequest, now: u64) -> (r: Result<CreateInvoiceRequest, AdapterError>)
        requires
            parse_u64_spec(request.amount@) is Some ==> now + self.config_spec().request_expiry_secs <= u64::MAX,
        ensures
            parse_u64_spec(request.amount@) is None <==> r is Err,
            r matches Err(e) ==> e == AdapterError::AmountNotMillisatoshis,
            r matches Ok(inv) ==> {
                &&& Some(inv.amount_msat) == parse_u64_spec(request.amount@)
                &&& inv.session_id@.len() == 16
                &&& forall|i: int| 0 <= i < 16 ==> is_lower_alphanumeric(#[trigger] inv.session_id@[i])
                &&& inv.description == request.event_id
                &&& inv.expires_at == now + self.config_spec().request_expiry_secs
            },
    {
        let amount_msat = match parse_u64(request.amount.as_str()) {
            Some(a) => a,
            None => return Err(AdapterError::AmountNotMillisatoshis),
        };
        let session_id = random_id(16);
        let expires_at = now + self.config.request_expiry_secs;
        Ok(CreateInvoiceRequest {
            session_id,
            amount_msat,
            description: request.event_id.clone(),
            expires_at,
        })
    }

    /// The payment request for a created invoice: Lightning rail, amount in
    /// millisatoshis (as text and as number), the invoice as payment request
    /// and QR payload, its payment hash, and no Stellar fields.
    pub fn payment_request(&self, invoice_request: &CreateInvoiceRequest, invoice: CreatedInvoice) -> (r: PaymentRequest)
        ensures
            r.session_id == invoice_request.session_id,
            r.rail@ == lightning_rail(),
            r.amount@ == decimal(invoice.amount_msat as nat),
            r.currency@ == msat_word(),
            r.amount_msat == Some(invoice.amount_msat),
            r.payment_request@ == invoice.invoice@,
            r.qr_payload@ == invoice.invoice@,
            opt_string_view(r.invoice) == Some(invoice.invoice@),
            opt_string_view(r.payment_hash) == Some(invoice.payment_hash@),
            r.destination is None,
            r.asset is None,
            r.memo is None,
            r.expires_at == invoice_request.expires_at,
    {
        PaymentRequest {
            session_id: invoice_request.session_id.clone(),
            rail: lightning_string(),
            amount: u64_to_decimal(invoice.amount_msat),
            currency: msat_string(),
            amount_msat: Some(invoice.amount_msat),
            payment_request: invoice.invoice.clone(),
            qr_payload: invoice.invoice.clone(),
            invoice: Some(invoice.invoice),
            payment_hash: Some(invoice.payment_hash),
            destination: None,
            asset: None,
            memo: None,
            expires_at: invoice_request.expires_at,
        }
    }

    /// What to ask the provider about a payment request: nothing when it
    /// lacks an invoice or a payment hash.
    pub fn settlement_query(request: &PaymentRequest) -> (r: Option<SettlementQuery>)
        ensures
            r is Some <==> (request.invoice is Some && request.payment_hash is Some),
            r matches Some(q) ==> {
                &&& q.session_id == request.session_id
                &&& Some(q.invoice) == request.invoice
                &&& Some(q.payment_hash) == request.payment_hash
            },
    {
        let invoice = match &request.invoice {
            Some(i) => i.clone(),
            None => return None,
        };
        let payment_hash = match &request.payment_hash {
            Some(h) => h.clone(),
            None => return None,
        };
        Some(SettlementQuery { session_id: request.session_id.clone(), invoice, payment_hash })
    }

    /// The payment event for a settled invoice, none while it is unpaid (or
    /// when the request lacks invoice or payment hash). The event is keyed by
    /// the payment hash; it is settled at the provider's settlement time, or
    /// at `now` when the provider gave none.
    pub fn confirmed_event(request: &PaymentRequest, settlement: InvoiceSettlement, now: u64) -> (r: Option<PaymentEvent>)
        ensures
            r is Some <==> (request.invoice is Some && request.payment_hash is Some && settlement.settled),
            r matches Some(e) ==> {
                let at = match settlement.settled_at { Some(t) => t, None => now };
                &&& e.session_id == request.session_id
                &&& e.rail@ == lightning_rail()
                &&& Some(e.settlement_id) == request.payment_hash
                &&& e.payment_hash == request.payment_hash
                &&& e.preimage == settlement.preimage
                &&& e.invoice == request.invoice
                &&& e.tx_hash is None
                &&& e.source_account is None
                &&& e.destination_account is None
                &&& e.amount == request.amount
                &&& e.currency@ == msat_word()
                &&& e.amount_msat == request.amount_msat
                &&& e.asset is None
                &&& e.memo is None
                &&& e.ledger_sequence is None
                &&& e.confirmed_at == at
                &&& e.settled_at == Some(at)
                &&& e.provider_metadata == settlement.provider_metadata
            },
    {
        let query = match LightningAdapter::settlement_query(request) {
            Some(q) => q,
            None => return None,
        };
        if !settlement.settled {
            return None;
        }
        let settled_at = match settlement.settled_at {
            Some(t) => t,
            None => now,
        };
        Some(PaymentEvent {
            session_id: request.session_id.clone(),
            rail: lightning_string(),
            settlement_id: query.payment_hash.clone(),
            payment_hash: Some(query.payment_hash),
            preimage: settlement.preimage,
            invoice: Some(query.invoice),
            tx_hash: None,
            source_account: None,
            destination_account: None,
            amount: request.amount.clone(),
            currency: msat_string(),
            amount_msat: request.amount_msat,
            asset: None,
            memo: None,
            ledger_sequence: None,
            confirmed_at: settled_at,
            settled_at: Some(settled_at),
            provider_metadata: settlement.provider_metadata,
        })
    }
}

/// Settings of the mock provider.
#[derive(Clone, Debug)]
pub struct MockLightningConfig {
    pub settle_after_secs: Option<u64>,
}

/// An invoice the mock provider created.
#[derive(Clone, Debug)]
pub struct MockInvoiceRecord {
    pub session_id: String,
    pub invoice: String,
    pub payment_hash: String,
    pub amount_msat: u64,
    pub created_at: u64,
}

/// A provider that pretends invoices are paid a fixed delay after creation.
pub struct MockLightningProvider {
    config: MockLightningConfig,
    invoices: KeyedStore<MockInvoiceRecord>,
}

/// The metadata member naming the provider.
pub open spec fn names_mock(v: JsonValue) -> bool {
    text_member(v, "provider"@) == Some("mock"@)
}

fn text_value(s: &str) -> (v: JsonValue)
    ensures
        v matches JsonValue::Text(t) && t@ == s@,
{
    JsonValue::Text(s.to_owned())
}

fn mock_metadata() -> (v: JsonValue)
    ensures
        names_mock(v),
        member_count(v) == 1,
{
    let members = vec![("provider".to_owned(), text_value("mock"))];
    assert(first_member(members@, "provider"@) == Some(0int));
    JsonValue::Object(members)
}

fn mock_metadata_with_reason(reason: &str) -> (v: JsonValue)
    ensures
        names_mock(v),
        text_member(v, "reason"@) == Some(reason@),
        member_count(v) == 2,
{
    let members = vec![
        ("provider".to_owned(), text_value("mock")),
        ("reason".to_owned(), text_value(reason)),
    ];
    proof {
        reveal_strlit("provider");
        reveal_strlit("reason");
        let m = members@;
        assert(first_member(m, "provider"@) == Some(0int));
        assert("provider"@.len() != "reason"@.len());
        assert(m.drop_first()[0].0@ == "reason"@);
        assert(first_member(m.drop_first(), "reason"@) == Some(0int));
        assert(first_member(m, "reason"@) == Some(1int));
    }
    JsonValue::Object(members)
}

fn mock_settled_metadata(amount_msat: u64, settle_after_secs: u64) -> (v: JsonValue)
    ensures
        names_mock(v),
        number_member(v, "amount_msat"@) == Some(amount_msat),
        number_member(v, "settle_after_secs"@) == Some(settle_after_secs),
        member_count(v) == 3,
{
    let members = vec![
        ("provider".to_owned(), text_value("mock")),
        ("amount_msat".to_owned(), JsonValue::Number(amount_msat)),
        ("settle_after_secs".to_owned(), JsonValue::Number(settle_after_secs)),
    ];
    proof {
        reveal_strlit("provider");
        reveal_strlit("amount_msat");
        reveal_strlit("settle_after_secs");
        {
            let s = members@;
            assert(first_member(s, "provider"@) == Some(0int));
            assert("provider"@.len() == 8 && "amount_msat"@.len() == 11 && "settle_after_secs"@.len() == 17);
            assert(s.drop_first()[0].0@ == "amount_msat"@);
            assert(first_member(s.drop_first(), "amount_msat"@) == Some(0int));
            assert(s.drop_first().drop_first()[0].0@ == "settle_after_secs"@);
            assert(first_member(s.drop_first().drop_first(), "settle_after_secs"@) == Some(0int));
            assert(first_member(s.drop_first(), "settle_after_secs"@) == Some(1int));
        }
    }
    JsonValue::Object(members)
}

/// Whether a record was created for the given session and invoice.
pub open spec fn record_matches(r: MockInvoiceRecord, session_id: Seq<char>, invoice: Seq<char>) -> bool {
    r.session_id@ == session_id && r.invoice@ == invoice
}

/// Seconds from `created_at` to `now`, zero when `now` is earlier.
pub open spec fn mock_elapsed(created_at: u64, now: u64) -> u64 {
    if now >= created_at { (now - created_at) as u64 } else { 0 }
}

/// Time elapsed since creation never decreases as the clock moves on, and
/// reaches a delay `after` exactly at the creation time plus `after`.
pub proof fn law_mock_elapsed_monotone(created_at: u64, t: u64, later: u64, after: u64)
    requires
        t <= later,
    ensures
        mock_elapsed(created_at, t) <= mock_elapsed(created_at, later),
        after > 0 ==> (mock_elapsed(created_at, t) >= after <==> t >= created_at + after),
        mock_elapsed(created_at, created_at) == 0,
{
}

/// The mock preimage revealed for a payment hash.
pub open spec fn mock_preimage(payment_hash: Seq<char>) -> Seq<char> {
    "mock_preimage_"@ + payment_hash
}

impl MockLightningProvider {
    /// The settings.
    pub closed spec fn config_spec(&self) -> MockLightningConfig {
        self.config
    }

    /// The invoices created so far, by payment hash.
    pub closed spec fn records(&self) -> Map<Seq<char>, MockInvoiceRecord> {
        self.invoices@
    }

    /// A provider with no invoices.
    pub fn new(config: MockLightningConfig) -> (p: MockLightningProvider)
        ensures
            p.config_spec() == config,
            p.records() == Map::<Seq<char>, MockInvoiceRecord>::empty(),
    {
        MockLightningProvider { config, invoices: KeyedStore::new() }
    }

    /// Creates an invoice at time `now`: a random 64-digit hexadecimal
    /// payment hash and an invoice text `lnbc<amount>n1` followed by 96
    /// random lower-case letters and digits, recorded under the payment hash.
    pub fn create_invoice(&mut self, request: CreateInvoiceRequest, now: u64) -> (r: CreatedInvoice)
        ensures
            final(self).config_spec() == old(self).config_spec(),
            r.amount_msat == request.amount_msat,
            r.payment_hash@.len() == 64,
            forall|i: int| 0 <= i < 64 ==> is_lower_hex(#[trigger] r.payment_hash@[i]),
            exists|id: Seq<char>| {
                &&& r.invoice@ == "lnbc"@ + decimal(request.amount_msat as nat) + "n1"@ + id
                &&& id.len() == 96
                &&& forall|i: int| 0 <= i < 96 ==> is_lower_alphanumeric(#[trigger] id[i])
            },
            names_mock(r.provider_metadata),
            member_count(r.provider_metadata) == 1,
            final(self).records() == old(self).records().insert(r.payment_hash@, MockInvoiceRecord {
                session_id: request.session_id,
                invoice: r.invoice,
                payment_hash: r.payment_hash,
                amount_msat: request.amount_msat,
                created_at: now,
            }),
    {
        let payment_hash = random_hex(32);
        let id = random_id(96);
        let mut invoice = String::new();
        push_str(&mut invoice, "lnbc");
        push_decimal(&mut invoice, request.amount_msat);
        push_str(&mut invoice, "n1");
        push_str(&mut invoice, id.as_str());
        let record = MockInvoiceRecord {
            session_id: request.session_id,
            invoice: invoice.clone(),
            payment_hash: payment_hash.clone(),
            amount_msat: request.amount_msat,
            created_at: now,
        };
        self.invoices.insert(payment_hash.clone(), record);
        CreatedInvoice {
            invoice,
            payment_hash,
            amount_msat: request.amount_msat,
            provider_metadata: mock_metadata(),
        }
    }

    /// Whether an invoice is paid at time `now`. Never, when no delay is
    /// configured; not for unknown payment hashes or when session or invoice
    /// differ from the record; otherwise once the delay has passed since
    /// creation, settled at creation time plus the delay, with the preimage
    /// `mock_preimage_<payment hash>`.
    pub fn check_invoice_settlement(&self, session_id: &str, invoice: &str, payment_hash: &str, now: u64) -> (r: InvoiceSettlement)
        ensures
            names_mock(r.provider_metadata),
            match self.config_spec().settle_after_secs {
                None => {
                    &&& !r.settled && r.preimage is None && r.settled_at is None
                    &&& member_count(r.provider_metadata) == 1
                },
                Some(after) => {
                    if !self.records().dom().contains(payment_hash@) {
                        &&& !r.settled && r.preimage is None && r.settled_at is None
                        &&& text_member(r.provider_metadata, "reason"@) == Some("unknown_invoice"@)
                        &&& member_count(r.provider_metadata) == 2
                    } else if !record_matches(self.records()[payment_hash@], session_id@, invoice@) {
                        &&& !r.settled && r.preimage is None && r.settled_at is None
                        &&& text_member(r.provider_metadata, "reason"@) == Some("invoice_mismatch"@)
                        &&& member_count(r.provider_metadata) == 2
                    } else {
                        let record = self.records()[payment_hash@];
                        &&& r.settled == (mock_elapsed(record.created_at, now) >= after)
                        &&& r.settled ==> r.settled_at == Some((record.created_at + after) as u64)
                            && opt_string_view(r.preimage) == Some(mock_preimage(record.payment_hash@))
                        &&& !r.settled ==> r.settled_at is None && r.preimage is None
                        &&& number_member(r.provider_metadata, "amount_msat"@) == Some(record.amount_msat)
                        &&& number_member(r.provider_metadata, "settle_after_secs"@) == Some(after)
                        &&& member_count(r.provider_metadata) == 3
                    }
                },
            },
    {
        let after = match self.config.settle_after_secs {
            Some(a) => a,
            None => {
                return InvoiceSettlement {
                    settled: false,
                    preimage: None,
                    settled_at: None,
                    provider_metadata: mock_metadata(),
                };
            },
        };
        let record = match self.invoices.get(payment_hash) {
            Some(r) => r,
            None => {
                return InvoiceSettlement {
                    settled: false,
                    preimage: None,
                    settled_at: None,
                    provider_metadata: mock_metadata_with_reason("unknown_invoice"),
                };
            },
        };
        if !crate::text::str_eq(record.session_id.as_str(), session_id)
            || !crate::text::str_eq(record.invoice.as_str(), invoice)
        {
            return InvoiceSettlement {
                settled: false,
                preimage: None,
                settled_at: None,
                provider_metadata: mock_metadata_with_reason("invoice_mismatch"),
            };
        }
        let elapsed = now.saturating_sub(record.created_at);
        let settled = elapsed >= after;
        let (settled_at, preimage) = if settled {
            let mut p = String::new();
            push_str(&mut p, "mock_preimage_");
            push_str(&mut p, record.payment_hash.as_str());
            (Some(record.created_at + after), Some(p))
        } else {
            (None, None)
        };
        InvoiceSettlement {
            settled,
            preimage,
            settled_at,
            provider_metadata: mock_settled_metadata(record.amount_msat, after),
        }
    }
}

} // verus!
