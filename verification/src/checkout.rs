//! The checkout API's decisions: how much a payment request is for, what
//! the buyer is answered, and the access pass issued once the payment settles.

use vstd::prelude::*;
use crate::crypto::ed25519_public_key;
use crate::json::{opt_string_view, clone_opt_string};
use crate::keys::SigningKey;
use crate::random::{random_alphanumeric, is_ascii_alphanumeric};
use crate::shared::{CreatePaymentRequest, JsonValue, PaymentEvent, PaymentRequest};
use crate::sign::{
    SignError, SignedAccessTokenModel, sign_token, signed_token_json, signed_token_to_json,
    token_signature,
};
use crate::text::{decimal, parse_u64, parse_u64_spec, u64_to_decimal, lemma_parse_decimal};
use crate::token::{AccessToken, AccessTokenModel, product_name, lightning_rail};
use crate::verify::{verify_signed_token_spec, expiry_outcome};

verus! {

/// Price of a pass when the checkout names none, in millisatoshis.
pub const DEFAULT_CHECKOUT_AMOUNT_MSAT: u64 = 250_000;

/// Seconds a checkout session waits for payment.
pub const SESSION_TTL_SECS: u64 = 15 * 60;

/// The checkout form: an amount in millisatoshis (as number or text) or in
/// satoshis, a currency word and the event.
#[derive(Clone, Debug)]
pub struct CreatePaymentBody {
    pub amount: Option<String>,
    pub amount_msat: Option<u64>,
    pub amount_sats: Option<u64>,
    pub currency: Option<String>,
    pub event_id: Option<String>,
}

/// The answer to a checkout.
#[derive(Debug)]
pub struct CreatePaymentResponse {
    pub session_id: String,
    pub rail: String,
    pub amount: String,
    pub currency: String,
    pub amount_msat: Option<u64>,
    pub amount_sats: Option<u64>,
    pub payment_request: String,
    pub invoice: Option<String>,
    pub bolt11: Option<String>,
    pub payment_hash: Option<String>,
    pub metadata: JsonValue,
    pub qr_payload: String,
    pub qr_png: String,
    pub status: String,
    pub request_expires_at: u64,
    pub access_token: Option<JsonValue>,
}

/// The amount of a checkout form in millisatoshis: the millisatoshi number,
/// else the text when it reads as a number, else the satoshis times 1000,
/// else the default price.
pub open spec fn checkout_amount_spec(body: CreatePaymentBody) -> int {
    match body.amount_msat {
        Some(a) => a as int,
        None => {
            let from_text = match body.amount {
                Some(t) => parse_u64_spec(t@),
                None => None,
            };
            match from_text {
                Some(a) => a as int,
                None => match body.amount_sats {
                    Some(s) => s * 1000,
                    None => DEFAULT_CHECKOUT_AMOUNT_MSAT as int,
                },
            }
        },
    }
}

/// Whole satoshis of a millisatoshi amount, when it is a whole number of them.
pub open spec fn whole_sats(amount_msat: u64) -> Option<u64> {
    if amount_msat % 1000 == 0 {
        Some((amount_msat / 1000) as u64)
    } else {
        None
    }
}

/// Whole satoshis exist exactly for multiples of 1000 millisatoshis, and
/// give the amount back when multiplied by 1000.
pub proof fn law_whole_sats(amount_msat: u64)
    ensures
        whole_sats(amount_msat) is Some <==> amount_msat % 1000 == 0,
        whole_sats(amount_msat) matches Some(s) ==> s * 1000 == amount_msat,
{
}

/// The amount a checkout form resolves to is the amount the Lightning rail
/// invoices: the rail reads back exactly the number the checkout writes.
pub proof fn law_checkout_amount_is_invoiced(body: CreatePaymentBody)
    requires
        checkout_amount_spec(body) <= u64::MAX,
    ensures
        parse_u64_spec(decimal(checkout_amount_spec(body) as nat)) == Some(checkout_amount_spec(body) as u64),
{
    lemma_parse_decimal(checkout_amount_spec(body) as u64);
}

/// The precedence of a checkout form's amount fields: a millisatoshi
/// number wins over everything; without it, an amount text that reads as a
/// number is taken as millisatoshis whatever satoshis the form also gives;
/// satoshis count only when neither is there, and the default price of
/// 250000 only when the form gives no usable amount at all.
pub proof fn law_checkout_amount_precedence(body: CreatePaymentBody, other_sats: Option<u64>)
    ensures
        body.amount_msat matches Some(a) ==> checkout_amount_spec(body) == a,
        body.amount_msat is None && body.amount is Some && parse_u64_spec(body.amount->0@) is Some ==> {
            &&& checkout_amount_spec(body) == parse_u64_spec(body.amount->0@)->0
            &&& checkout_amount_spec(CreatePaymentBody { amount_sats: other_sats, ..body }) == checkout_amount_spec(body)
        },
        body.amount_msat is None && (body.amount is None || parse_u64_spec(body.amount->0@) is None) ==> {
            &&& body.amount_sats matches Some(s) ==> checkout_amount_spec(body) == s * 1000
            &&& body.amount_sats is None ==> checkout_amount_spec(body) == 250_000
        },
{
}

/// Resolves a checkout form's amount in millisatoshis.
pub fn checkout_amount_msat(body: &CreatePaymentBody) -> (amount: u64)
    requires
        checkout_amount_spec(*body) <= u64::MAX,
    ensures
        amount == checkout_amount_spec(*body),
        body.amount_msat matches Some(a) ==> amount == a,
        body.amount_msat is None && body.amount is Some && parse_u64_spec(body.amount->0@) is Some
            ==> Some(amount) == parse_u64_spec(body.amount->0@),
        body.amount_msat is None && (body.amount is None || parse_u64_spec(body.amount->0@) is None)
            && body.amount_sats is Some ==> amount == body.amount_sats->0 * 1000,
        body.amount_msat is None && (body.amount is None || parse_u64_spec(body.amount->0@) is None)
            && body.amount_sats is None ==> amount == 250_000,
{
    match body.amount_msat {
        Some(a) => a,
        None => {
            let from_text = match &body.amount {
                Some(t) => parse_u64(t.as_str()),
                None => None,
            };
            match from_text {
                Some(a) => a,
                None => match body.amount_sats {
                    Some(s) => s * 1000,
                    None => DEFAULT_CHECKOUT_AMOUNT_MSAT,
                },
            }
        },
    }
}

/// Whole satoshis of a millisatoshi amount, when it is a whole number of them.
pub fn amount_sats(amount_msat: u64) -> (r: Option<u64>)
    ensures
        r == whole_sats(amount_msat),
{
    if amount_msat % 1000 == 0 {
        Some(amount_msat / 1000)
    } else {
        None
    }
}

/// The payment request a checkout form asks the rail for: the resolved
/// amount in millisatoshis as text, the currency (`msat` when absent), no
/// asset, and the event (`demo-event` when absent).
pub fn checkout_request(body: CreatePaymentBody) -> (r: CreatePaymentRequest)
    requires
        checkout_amount_spec(body) <= u64::MAX,
    ensures
        r.amount@ == decimal(checkout_amount_spec(body) as nat),
        r.currency@ == match body.currency { Some(c) => c@, None => "msat"@ },
        r.asset@ == Seq::<char>::empty(),
        r.event_id@ == match body.event_id { Some(e) => e@, None => "demo-event"@ },
{
    let amount_msat = checkout_amount_msat(&body);
    let currency = match body.currency {
        Some(c) => c,
        None => "msat".to_owned(),
    };
    let event_id = match body.event_id {
        Some(e) => e,
        None => "demo-event".to_owned(),
    };
    CreatePaymentRequest {
        amount: u64_to_decimal(amount_msat),
        currency,
        asset: String::new(),
        event_id,
    }
}

/// The answer to a checkout once the rail issued its payment request and the
/// QR image of the payment request was drawn: waiting, with no pass yet.
pub fn checkout_response(payment_request: PaymentRequest, qr_png: String) -> (r: CreatePaymentResponse)
    ensures
        r.session_id == payment_request.session_id,
        r.rail == payment_request.rail,
        r.amount == payment_request.amount,
        r.currency == payment_request.currency,
        r.amount_msat == payment_request.amount_msat,
        r.amount_sats == match payment_request.amount_msat { Some(m) => whole_sats(m), None => None },
        r.payment_request == payment_request.payment_request,
        opt_string_view(r.invoice) == opt_string_view(payment_request.invoice),
        opt_string_view(r.bolt11) == opt_string_view(payment_request.invoice),
        r.payment_hash == payment_request.payment_hash,
        r.metadata is Null,
        r.qr_payload == payment_request.qr_payload,
        r.qr_png == qr_png,
        r.status@ == "waiting"@,
        r.request_expires_at == payment_request.expires_at,
        r.access_token is None,
{
    let amount_sats = match payment_request.amount_msat {
        Some(m) => amount_sats(m),
        None => None,
    };
    let bolt11 = clone_opt_string(&payment_request.invoice);
    CreatePaymentResponse {
        session_id: payment_request.session_id,
        rail: payment_request.rail,
        amount: payment_request.amount,
        currency: payment_request.currency,
        amount_msat: payment_request.amount_msat,
        amount_sats,
        payment_request: payment_request.payment_request,
        invoice: payment_request.invoice,
        bolt11,
        payment_hash: payment_request.payment_hash,
        metadata: JsonValue::Null,
        qr_payload: payment_request.qr_payload,
        qr_png,
        status: "waiting".to_owned(),
        request_expires_at: payment_request.expires_at,
        access_token: None,
    }
}

/// An issued access pass with its QR renderings and the settlement it rests on.
#[derive(Clone, Debug)]
pub struct AccessArtifact {
    pub token: String,
    pub qr_png: String,
    pub qr_ascii: String,
    pub settlement_id: String,
    pub payment_hash: Option<String>,
}

impl AccessArtifact {
    /// The artifact of a pass issued for a payment event.
    pub fn for_event(token: String, qr_png: String, qr_ascii: String, event: &PaymentEvent) -> (a: AccessArtifact)
        ensures
            a.token == token,
            a.qr_png == qr_png,
            a.qr_ascii == qr_ascii,
            a.settlement_id == event.settlement_id,
            opt_string_view(a.payment_hash) == opt_string_view(event.payment_hash),
    {
        AccessArtifact {
            token,
            qr_png,
            qr_ascii,
            settlement_id: event.settlement_id.clone(),
            payment_hash: clone_opt_string(&event.payment_hash),
        }
    }
}

/// Why no pass was issued.
#[derive(Clone, Debug)]
pub enum IssueError {
    /// The payment was not made on the Lightning rail.
    NotLightning,
    /// The pass could not be signed.
    Sign(SignError),
}

/// The pass a Lightning payment event entitles to: format version 2 for the
/// event, with the payment's hash (empty when unknown), preimage, invoice,
/// amount (zero when unknown) and settlement time (the confirmation time
/// when unknown), the given expiry and nonce.
pub open spec fn issued_token(event: PaymentEvent, event_id: Seq<char>, expires_at: u64, nonce: Seq<char>) -> AccessTokenModel {
    AccessTokenModel {
        version: 2,
        event_id,
        payment_hash: match event.payment_hash { Some(h) => h@, None => Seq::<char>::empty() },
        preimage: opt_string_view(event.preimage),
        invoice: opt_string_view(event.invoice),
        amount_msat: match event.amount_msat { Some(a) => a, None => 0 },
        settled_at: match event.settled_at { Some(t) => t, None => event.confirmed_at },
        expires_at,
        nonce,
        product: product_name(),
        rail: lightning_rail(),
    }
}

/// Issues access passes with the operator's key.
pub struct AccessService {
    signing_key: SigningKey,
}

impl AccessService {
    /// The issuer's secret key.
    pub closed spec fn key(&self) -> Seq<u8> {
        self.signing_key@
    }

    /// A service signing with `signing_key`.
    pub fn new(signing_key: SigningKey) -> (s: AccessService)
        ensures
            s.key() == signing_key@,
    {
        AccessService { signing_key }
    }

    /// The signed pass, as JSON text, for a payment event: refused unless the
    /// payment was on the Lightning rail; otherwise the token of
    /// `issued_token` with a fresh nonce of 16 letters and digits, signed with
    /// the service's key. The pass verifies under the service's public key at
    /// every time before `expires_at`.
    pub fn issue_token(&self, event: &PaymentEvent, event_id: &str, expires_at: u64) -> (r: Result<String, IssueError>)
        ensures
            (event.rail@ != lightning_rail()) <==> r is Err,
            r matches Err(e) ==> e is NotLightning,
            r matches Ok(json) ==> exists|nonce: Seq<char>| #![trigger issued_token(*event, event_id@, expires_at, nonce)] {
                let t = issued_token(*event, event_id@, expires_at, nonce);
                let signed = SignedAccessTokenModel { token: t, signature: token_signature(self.key(), t) };
                &&& nonce.len() == 16
                &&& forall|i: int| 0 <= i < 16 ==> is_ascii_alphanumeric(#[trigger] nonce[i])
                &&& json@ == signed_token_json(signed)
                &&& forall|now: u64| #[trigger] verify_signed_token_spec(signed, ed25519_public_key(self.key()), now)
                        == expiry_outcome(expires_at, now)
            },
    {
        let nonce = random_alphanumeric(16);
        if !crate::text::str_eq(event.rail.as_str(), "lightning") {
            proof { reveal_strlit("lightning"); assert("lightning"@ =~= lightning_rail()); }
            return Err(IssueError::NotLightning);
        }
        proof { reveal_strlit("lightning"); assert("lightning"@ =~= lightning_rail()); }
        let payment_hash = match &event.payment_hash {
            Some(h) => h.clone(),
            None => String::new(),
        };
        let preimage = clone_opt_string(&event.preimage);
        let invoice = clone_opt_string(&event.invoice);
        let amount_msat = match event.amount_msat {
            Some(a) => a,
            None => 0,
        };
        let settled_at = match event.settled_at {
            Some(t) => t,
            None => event.confirmed_at,
        };
        let token = AccessToken::new_lightning(
            2,
            event_id,
            payment_hash.as_str(),
            preimage,
            invoice,
            amount_msat,
            settled_at,
            expires_at,
            nonce.as_str(),
        );
        let ghost t = token@;
        assert(t == issued_token(*event, event_id@, expires_at, nonce@));
        let signed = match sign_token(token, &self.signing_key) {
            Ok(s) => s,
            Err(e) => return Err(IssueError::Sign(e)),
        };
        match signed_token_to_json(&signed) {
            Ok(json) => Ok(json),
            Err(e) => Err(IssueError::Sign(e)),
        }
    }
}

} // verus!
