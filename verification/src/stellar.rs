//! The legacy Stellar payment rail: payment requests addressed by
//! destination and memo, and matching of Horizon payment records.

use vstd::prelude::*;
use crate::json::{opt_string_view, clone_opt_string};
use crate::shared::{CreatePaymentRequest, JsonValue, PaymentEvent, PaymentRequest};
use crate::text::{ascii_eq_ignore_case, eq_ignore_ascii_case_spec, push_str, str_eq};

verus! {

/// A payment operation as Horizon lists it for an account.
#[derive(Clone, Debug)]
pub struct PaymentRecord {
    pub id: String,
    pub record_type: String,
    pub transaction_hash: String,
    pub transaction_successful: bool,
    pub from: String,
    pub to: String,
    pub amount: String,
    pub asset_type: String,
    pub asset_code: Option<String>,
    pub memo: Option<String>,
    pub ledger: Option<u32>,
}

/// Where the Stellar rail is paid and which Horizon server reports payments.
#[derive(Clone, Debug)]
pub struct StellarConfig {
    pub horizon_url: String,
    pub destination_address: String,
}

/// The Stellar rail; the Horizon client is held beside it by the caller.
#[derive(Clone, Debug)]
pub struct StellarProvider {
    config: StellarConfig,
}

/// The asset of a record: `XLM` for the native asset, otherwise its code,
/// or its type when it has no code.
pub open spec fn record_asset(r: PaymentRecord) -> Seq<char> {
    if r.asset_type@ == "native"@ {
        "XLM"@
    } else {
        match r.asset_code {
            Some(code) => code@,
            None => r.asset_type@,
        }
    }
}

/// The settlement id of a record: its transaction hash, or its own id when
/// the hash is empty.
pub open spec fn record_settlement_id(r: PaymentRecord) -> Seq<char> {
    if r.transaction_hash@.len() == 0 {
        r.id@
    } else {
        r.transaction_hash@
    }
}

/// Whether `e` is the normalised event of record `r`.
pub open spec fn is_event_of(e: PaymentEvent, r: PaymentRecord) -> bool {
    &&& e.session_id@ == Seq::<char>::empty()
    &&& e.rail@ == "stellar"@
    &&& e.settlement_id@ == record_settlement_id(r)
    &&& e.payment_hash is None
    &&& e.preimage is None
    &&& e.invoice is None
    &&& opt_string_view(e.tx_hash) == Some(record_settlement_id(r))
    &&& opt_string_view(e.source_account) == Some(r.from@)
    &&& opt_string_view(e.destination_account) == Some(r.to@)
    &&& e.amount@ == r.amount@
    &&& e.currency@ == record_asset(r)
    &&& e.amount_msat is None
    &&& opt_string_view(e.asset) == Some(record_asset(r))
    &&& opt_string_view(e.memo) == opt_string_view(r.memo)
    &&& e.ledger_sequence == r.ledger
    &&& e.confirmed_at == 0
    &&& e.settled_at is None
    &&& e.provider_metadata is Null
}

/// The normalised event of a record names the payer as its source and the
/// receiving account as its destination, and keeps the record's amount and
/// memo.
pub proof fn law_event_parties(e: PaymentEvent, r: PaymentRecord)
    requires
        is_event_of(e, r),
    ensures
        opt_string_view(e.source_account) == Some(r.from@),
        opt_string_view(e.destination_account) == Some(r.to@),
        e.amount@ == r.amount@,
        opt_string_view(e.memo) == opt_string_view(r.memo),
{
}

/// Normalises a Horizon payment record into a payment event.
pub fn parse_payment(record: &PaymentRecord) -> (e: PaymentEvent)
    ensures
        is_event_of(e, *record),
        opt_string_view(e.source_account) == Some(record.from@),
        opt_string_view(e.destination_account) == Some(record.to@),
        e.amount@ == record.amount@,
        opt_string_view(e.memo) == opt_string_view(record.memo),
{
    let asset = if str_eq(record.asset_type.as_str(), "native") {
        "XLM".to_owned()
    } else {
        match &record.asset_code {
            Some(code) => code.clone(),
            None => record.asset_type.clone(),
        }
    };
    let settlement_id = if record.transaction_hash.as_str().is_empty() {
        record.id.clone()
    } else {
        record.transaction_hash.clone()
    };
    PaymentEvent {
        session_id: String::new(),
        rail: "stellar".to_owned(),
        settlement_id: settlement_id.clone(),
        payment_hash: None,
        preimage: None,
        invoice: None,
        tx_hash: Some(settlement_id),
        source_account: Some(record.from.clone()),
        destination_account: Some(record.to.clone()),
        amount: record.amount.clone(),
        currency: asset.clone(),
        amount_msat: None,
        asset: Some(asset),
        memo: clone_opt_string(&record.memo),
        ledger_sequence: record.ledger,
        confirmed_at: 0,
        settled_at: None,
        provider_metadata: JsonValue::Null,
    }
}

/// The Stellar pay URI for a destination, amount and memo.
pub open spec fn stellar_pay_uri(destination: Seq<char>, amount: Seq<char>, memo: Seq<char>) -> Seq<char> {
    "web+stellar:pay?destination="@ + destination + "&amount="@ + amount + "&memo="@ + memo
}

/// Whether a record is a successful payment to `destination` with the
/// memo, amount and (in any ASCII case) asset asked for.
pub open spec fn record_qualifies(r: PaymentRecord, destination: Seq<char>, memo: Seq<char>, amount: Seq<char>, asset: Seq<char>) -> bool {
    &&& r.transaction_successful
    &&& r.record_type@ == "payment"@
    &&& r.to@ == destination
    &&& opt_string_view(r.memo) == Some(memo)
    &&& r.amount@ == amount
    &&& eq_ignore_ascii_case_spec(record_asset(r), asset)
}

/// The asset a payment request asks for: its asset, else its currency.
pub open spec fn requested_asset(request: PaymentRequest) -> Seq<char> {
    match request.asset {
        Some(a) => a@,
        None => request.currency@,
    }
}

impl StellarProvider {
    /// The settings.
    pub closed spec fn config_spec(&self) -> StellarConfig {
        self.config
    }

    /// The rail with the given settings.
    pub fn new(config: StellarConfig) -> (p: StellarProvider)
        ensures
            p.config_spec() == config,
    {
        StellarProvider { config }
    }

    /// The payment request for a checkout, identified by `memo`: a Stellar
    /// pay URI to the configured destination, in the request's asset (its
    /// currency when no asset is named), not expiring.
    pub fn create_payment_request(&self, request: CreatePaymentRequest, memo: String) -> (r: PaymentRequest)
        ensures
            r.session_id == memo,
            r.rail@ == "stellar"@,
            r.amount == request.amount,
            r.currency@ == (if request.asset@.len() == 0 { request.currency@ } else { request.asset@ }),
            r.amount_msat is None,
            r.payment_request@ == stellar_pay_uri(self.config_spec().destination_address@, request.amount@, memo@),
            r.qr_payload@ == r.payment_request@,
            r.invoice is None,
            r.payment_hash is None,
            opt_string_view(r.destination) == Some(self.config_spec().destination_address@),
            opt_string_view(r.asset) == Some(r.currency@),
            opt_string_view(r.memo) == Some(memo@),
            r.expires_at == 0,
    {
        let mut qr_payload = String::new();
        push_str(&mut qr_payload, "web+stellar:pay?destination=");
        push_str(&mut qr_payload, self.config.destination_address.as_str());
        push_str(&mut qr_payload, "&amount=");
        push_str(&mut qr_payload, request.amount.as_str());
        push_str(&mut qr_payload, "&memo=");
        push_str(&mut qr_payload, memo.as_str());
        let asset = if request.asset.as_str().is_empty() {
            request.currency.clone()
        } else {
            request.asset.clone()
        };
        PaymentRequest {
            session_id: memo.clone(),
            rail: "stellar".to_owned(),
            amount: request.amount,
            currency: asset.clone(),
            amount_msat: None,
            payment_request: qr_payload.clone(),
            qr_payload,
            invoice: None,
            payment_hash: None,
            destination: Some(self.config.destination_address.clone()),
            asset: Some(asset),
            memo: Some(memo),
            expires_at: 0,
        }
    }

    /// The confirmed payment of a request among the account's payment
    /// records: none when the request lacks destination or memo, otherwise
    /// the event of the first qualifying record, if any.
    pub fn find_confirmed_payment(request: &PaymentRequest, records: &Vec<PaymentRecord>) -> (r: Option<PaymentEvent>)
        ensures
            match (request.destination, request.memo) {
                (Some(d), Some(m)) => match r {
                    Some(e) => exists|i: int| {
                        &&& 0 <= i < records@.len()
                        &&& record_qualifies(#[trigger] records@[i], d@, m@, request.amount@, requested_asset(*request))
                        &&& is_event_of(e, records@[i])
                        &&& forall|j: int| 0 <= j < i ==> !record_qualifies(#[trigger] records@[j], d@, m@, request.amount@, requested_asset(*request))
                    },
                    None => forall|j: int| 0 <= j < records@.len() ==>
                        !record_qualifies(#[trigger] records@[j], d@, m@, request.amount@, requested_asset(*request)),
                },
                _ => r is None,
            },
            r matches Some(e) ==> {
                &&& e.rail@ == "stellar"@
                &&& opt_string_view(e.destination_account) == opt_string_view(request.destination)
                &&& opt_string_view(e.memo) == opt_string_view(request.memo)
                &&& e.amount@ == request.amount@
            },
    {
        let destination = match &request.destination {
            Some(d) => d,
            None => return None,
        };
        let memo = match &request.memo {
            Some(m) => m,
            None => return None,
        };
        let asset = match &request.asset {
            Some(a) => a.as_str(),
            None => request.currency.as_str(),
        };
        let ghost want_asset = requested_asset(*request);
        assert(asset@ == want_asset);
        let mut i: usize = 0;
        while i < records.len()
            invariant
                i <= records@.len(),
                request.destination == Some(*destination),
                request.memo == Some(*memo),
                asset@ == want_asset,
                want_asset == requested_asset(*request),
                forall|j: int| 0 <= j < i ==>
                    !record_qualifies(#[trigger] records@[j], destination@, memo@, request.amount@, want_asset),
            decreases records.len() - i,
        {
            let record = &records[i];
            if record.transaction_successful && str_eq(record.record_type.as_str(), "payment") {
                let event = parse_payment(record);
                let dest_ok = match &event.destination_account {
                    Some(d) => str_eq(d.as_str(), destination.as_str()),
                    None => false,
                };
                let memo_ok = match &event.memo {
                    Some(m) => str_eq(m.as_str(), memo.as_str()),
                    None => false,
                };
                let amount_ok = str_eq(event.amount.as_str(), request.amount.as_str());
                let asset_ok = match &event.asset {
                    Some(a) => ascii_eq_ignore_case(a.as_str(), asset),
                    None => ascii_eq_ignore_case("", asset),
                };
                if dest_ok && memo_ok && amount_ok && asset_ok {
                    return Some(event);
                }
            }
            i = i + 1;
        }
        None
    }
}

} // verus!
