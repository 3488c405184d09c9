//! Records shared by the payment rails and the API.

use vstd::prelude::*;

verus! {

/// A JSON value as the payment providers attach it to their records.
#[derive(Debug)]
pub enum JsonValue {
    Null,
    Bool(bool),
    Number(u64),
    Text(String),
    Object(Vec<(String, JsonValue)>),
}

/// The position of the first member named `key`.
pub open spec fn first_member(members: Seq<(String, JsonValue)>, key: Seq<char>) -> Option<int>
    decreases members.len(),
{
    if members.len() == 0 {
        None
    } else if members[0].0@ == key {
        Some(0)
    } else {
        match first_member(members.drop_first(), key) {
            Some(i) => Some(i + 1),
            None => None,
        }
    }
}

/// The text of the first member named `key` of an object, if it is text.
pub open spec fn text_member(v: JsonValue, key: Seq<char>) -> Option<Seq<char>> {
    match v {
        JsonValue::Object(members) => match first_member(members@, key) {
            Some(i) => match members@[i].1 {
                JsonValue::Text(t) => Some(t@),
                _ => None,
            },
            None => None,
        },
        _ => None,
    }
}

/// The number of the first member named `key` of an object, if it is a number.
pub open spec fn number_member(v: JsonValue, key: Seq<char>) -> Option<u64> {
    match v {
        JsonValue::Object(members) => match first_member(members@, key) {
            Some(i) => match members@[i].1 {
                JsonValue::Number(n) => Some(n),
                _ => None,
            },
            None => None,
        },
        _ => None,
    }
}

/// The number of members of an object (zero for other values).
pub open spec fn member_count(v: JsonValue) -> nat {
    match v {
        JsonValue::Object(members) => members@.len(),
        _ => 0,
    }
}

/// A request for payment as the checkout submits it.
#[derive(Clone, Debug)]
pub struct CreatePaymentRequest {
    pub amount: String,
    pub currency: String,
    pub asset: String,
    pub event_id: String,
}

/// What the buyer is asked to pay, on one rail.
#[derive(Clone, Debug)]
pub struct PaymentRequest {
    pub session_id: String,
    pub rail: String,
    pub amount: String,
    pub currency: String,
    pub amount_msat: Option<u64>,
    pub payment_request: String,
    pub qr_payload: String,
    pub invoice: Option<String>,
    pub payment_hash: Option<String>,
    pub destination: Option<String>,
    pub asset: Option<String>,
    pub memo: Option<String>,
    pub expires_at: u64,
}

/// A confirmed payment, normalised across rails.
#[derive(Debug)]
pub struct PaymentEvent {
    pub session_id: String,
    pub rail: String,
    pub settlement_id: String,
    pub payment_hash: Option<String>,
    pub preimage: Option<String>,
    pub invoice: Option<String>,
    pub tx_hash: Option<String>,
    pub source_account: Option<String>,
    pub destination_account: Option<String>,
    pub amount: String,
    pub currency: String,
    pub amount_msat: Option<u64>,
    pub asset: Option<String>,
    pub memo: Option<String>,
    pub ledger_sequence: Option<u32>,
    pub confirmed_at: u64,
    pub settled_at: Option<u64>,
    pub provider_metadata: JsonValue,
}

/// The state of a checkout session as the API reports it.
#[derive(Debug)]
pub struct PaymentStatusResponse {
    pub session_id: String,
    pub status: String,
    pub paid: bool,
    pub request_expires_at: u64,
    pub expires_at: u64,
    pub payment_request: PaymentRequest,
    pub settlement_id: Option<String>,
    pub payment_hash: Option<String>,
    pub tx_hash: Option<String>,
    pub access_token: Option<JsonValue>,
    pub access_qr_png: Option<String>,
    pub access_qr_ascii: Option<String>,
}

} // verus!
