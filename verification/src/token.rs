//! The access token: what a settled Lightning payment entitles its holder to.

use vstd::prelude::*;
use crate::json::{
    json_member, json_u64, json_string, json_opt_string, opt_string_view,
    push_json_member_u64, push_json_member_string, push_json_member_opt_string,
};
use crate::text::push_char;
use crate::random::{random_alphanumeric, is_ascii_alphanumeric};

verus! {

/// A Lightning access token (format version 2 carries the settlement data).
#[derive(Clone, Debug)]
pub struct AccessToken {
    pub version: u8,
    pub event_id: String,
    pub payment_hash: String,
    pub preimage: Option<String>,
    pub invoice: Option<String>,
    pub amount_msat: u64,
    pub settled_at: u64,
    pub expires_at: u64,
    pub nonce: String,
    pub product: String,
    pub rail: String,
}

/// The mathematical content of an access token.
pub struct AccessTokenModel {
    pub version: u8,
    pub event_id: Seq<char>,
    pub payment_hash: Seq<char>,
    pub preimage: Option<Seq<char>>,
    pub invoice: Option<Seq<char>>,
    pub amount_msat: u64,
    pub settled_at: u64,
    pub expires_at: u64,
    pub nonce: Seq<char>,
    pub product: Seq<char>,
    pub rail: Seq<char>,
}

impl View for AccessToken {
    type V = AccessTokenModel;

    open spec fn view(&self) -> AccessTokenModel {
        AccessTokenModel {
            version: self.version,
            event_id: self.event_id@,
            payment_hash: self.payment_hash@,
            preimage: opt_string_view(self.preimage),
            invoice: opt_string_view(self.invoice),
            amount_msat: self.amount_msat,
            settled_at: self.settled_at,
            expires_at: self.expires_at,
            nonce: self.nonce@,
            product: self.product@,
            rail: self.rail@,
        }
    }
}

/// The product name every token carries.
pub open spec fn product_name() -> Seq<char> {
    seq!['H', 'A', 'S', 'K', 'E', 'p', 'a', 'y']
}

/// The settlement rail every token carries.
pub open spec fn lightning_rail() -> Seq<char> {
    seq!['l', 'i', 'g', 'h', 't', 'n', 'i', 'n', 'g']
}

/// The canonical JSON text of a token: its fields in declaration order.
pub open spec fn access_token_json(t: AccessTokenModel) -> Seq<char> {
    seq!['{']
        + json_member("version"@, json_u64(t.version as u64)) + seq![',']
        + json_member("event_id"@, json_string(t.event_id)) + seq![',']
        + json_member("payment_hash"@, json_string(t.payment_hash)) + seq![',']
        + json_member("preimage"@, json_opt_string(t.preimage)) + seq![',']
        + json_member("invoice"@, json_opt_string(t.invoice)) + seq![',']
        + json_member("amount_msat"@, json_u64(t.amount_msat)) + seq![',']
        + json_member("settled_at"@, json_u64(t.settled_at)) + seq![',']
        + json_member("expires_at"@, json_u64(t.expires_at)) + seq![',']
        + json_member("nonce"@, json_string(t.nonce)) + seq![',']
        + json_member("product"@, json_string(t.product)) + seq![',']
        + json_member("rail"@, json_string(t.rail))
        + seq!['}']
}

pub(crate) fn product_string() -> (s: String)
    ensures
        s@ == product_name(),
{
    let mut s = String::new();
    push_char(&mut s, 'H');
    push_char(&mut s, 'A');
    push_char(&mut s, 'S');
    push_char(&mut s, 'K');
    push_char(&mut s, 'E');
    push_char(&mut s, 'p');
    push_char(&mut s, 'a');
    push_char(&mut s, 'y');
    assert(s@ =~= product_name());
    s
}

pub(crate) fn lightning_string() -> (s: String)
    ensures
        s@ == lightning_rail(),
{
    let mut s = String::new();
    push_char(&mut s, 'l');
    push_char(&mut s, 'i');
    push_char(&mut s, 'g');
    push_char(&mut s, 'h');
    push_char(&mut s, 't');
    push_char(&mut s, 'n');
    push_char(&mut s, 'i');
    push_char(&mut s, 'n');
    push_char(&mut s, 'g');
    assert(s@ =~= lightning_rail());
    s
}

impl AccessToken {
    /// A token without settlement details: no preimage or invoice, zero
    /// amount and settlement time, product `HASKEpay` on the `lightning` rail.
    pub fn new(version: u8, event_id: &str, payment_hash: &str, expires_at: u64, nonce: &str) -> (t: AccessToken)
        ensures
            t@ == (AccessTokenModel {
                version,
                event_id: event_id@,
                payment_hash: payment_hash@,
                preimage: None,
                invoice: None,
                amount_msat: 0,
                settled_at: 0,
                expires_at,
                nonce: nonce@,
                product: product_name(),
                rail: lightning_rail(),
            }),
    {
        AccessToken {
            version,
            event_id: event_id.to_owned(),
            payment_hash: payment_hash.to_owned(),
            preimage: None,
            invoice: None,
            amount_msat: 0,
            settled_at: 0,
            expires_at,
            nonce: nonce.to_owned(),
            product: product_string(),
            rail: lightning_string(),
        }
    }

    /// A token carrying the Lightning settlement: preimage and invoice when
    /// known, the amount in millisatoshis and the settlement time.
    pub fn new_lightning(
        version: u8,
        event_id: &str,
        payment_hash: &str,
        preimage: Option<String>,
        invoice: Option<String>,
        amount_msat: u64,
        settled_at: u64,
        expires_at: u64,
        nonce: &str,
    ) -> (t: AccessToken)
        ensures
            t@ == (AccessTokenModel {
                version,
                event_id: event_id@,
                payment_hash: payment_hash@,
                preimage: opt_string_view(preimage),
                invoice: opt_string_view(invoice),
                amount_msat,
                settled_at,
                expires_at,
                nonce: nonce@,
                product: product_name(),
                rail: lightning_rail(),
            }),
    {
        AccessToken {
            version,
            event_id: event_id.to_owned(),
            payment_hash: payment_hash.to_owned(),
            preimage,
            invoice,
            amount_msat,
            settled_at,
            expires_at,
            nonce: nonce.to_owned(),
            product: product_string(),
            rail: lightning_string(),
        }
    }

    /// A token like `new`, with a fresh nonce of 16 random ASCII letters and digits.
    pub fn with_random_nonce(version: u8, event_id: &str, payment_hash: &str, expires_at: u64) -> (t: AccessToken)
        ensures
            t@.version == version,
            t@.event_id == event_id@,
            t@.payment_hash == payment_hash@,
            t@.preimage is None,
            t@.invoice is None,
            t@.amount_msat == 0,
            t@.settled_at == 0,
            t@.expires_at == expires_at,
            t@.nonce.len() == 16,
            forall|i: int| 0 <= i < 16 ==> is_ascii_alphanumeric(#[trigger] t@.nonce[i]),
            t@.product == product_name(),
            t@.rail == lightning_rail(),
    {
        let nonce = random_alphanumeric(16);
        AccessToken::new(version, event_id, payment_hash, expires_at, nonce.as_str())
    }

    /// The canonical JSON text of the token, the bytes that get signed.
    pub fn to_json(&self) -> (s: String)
        ensures
            s@ == access_token_json(self@),
    {
        let mut s = String::new();
        push_char(&mut s, '{');
        push_json_member_u64(&mut s, "version", self.version as u64);
        push_char(&mut s, ',');
        push_json_member_string(&mut s, "event_id", self.event_id.as_str());
        push_char(&mut s, ',');
        push_json_member_string(&mut s, "payment_hash", self.payment_hash.as_str());
        push_char(&mut s, ',');
        push_json_member_opt_string(&mut s, "preimage", &self.preimage);
        push_char(&mut s, ',');
        push_json_member_opt_string(&mut s, "invoice", &self.invoice);
        push_char(&mut s, ',');
        push_json_member_u64(&mut s, "amount_msat", self.amount_msat);
        push_char(&mut s, ',');
        push_json_member_u64(&mut s, "settled_at", self.settled_at);
        push_char(&mut s, ',');
        push_json_member_u64(&mut s, "expires_at", self.expires_at);
        push_char(&mut s, ',');
        push_json_member_string(&mut s, "nonce", self.nonce.as_str());
        push_char(&mut s, ',');
        push_json_member_string(&mut s, "product", self.product.as_str());
        push_char(&mut s, ',');
        push_json_member_string(&mut s, "rail", self.rail.as_str());
        push_char(&mut s, '}');
        assert(s@ == access_token_json(self@));
        s
    }
}

} // verus!
