//! A stand-in node backend for demos: every invoice counts as paid a few
//! seconds after it was created, and then gets an opaque access token.

use vstd::prelude::*;
use crate::access::{InvoiceResponse, ProofError, StatusResponse, status_text, InvoiceStatus};
use crate::json::{opt_string_view, clone_opt_string};
use crate::lightning_adapter::mock_elapsed;
use crate::random::{random_id, is_lower_alphanumeric};
use crate::store::KeyedStore;
use crate::text::{decimal, push_decimal, push_str};

verus! {

/// The price of every demo invoice, in millisatoshis.
pub const MOCK_AMOUNT_MSAT: u64 = 250_000;

/// Seconds after creation at which a demo invoice counts as paid.
pub const MOCK_SETTLE_AFTER_SECS: u64 = 6;

/// Lifetime of a demo invoice, in seconds.
pub const MOCK_EXPIRY_SECS: u64 = 15 * 60;

/// One demo invoice.
#[derive(Debug)]
pub struct MockSession {
    pub invoice_id: String,
    pub invoice: String,
    pub amount_msat: u64,
    pub created_at: u64,
    pub expires_at: u64,
    pub access_token: Option<String>,
}

/// The demo backend's invoices, by id.
pub struct MockBackend {
    store: KeyedStore<MockSession>,
}

/// Whether a demo invoice created at `created_at` counts as paid at `now`.
pub open spec fn mock_paid(created_at: u64, now: u64) -> bool {
    mock_elapsed(created_at, now) >= MOCK_SETTLE_AFTER_SECS
}

/// A demo invoice counts as paid from six seconds after its creation on,
/// for good: paid at `t` exactly when `t` is at least the creation time plus
/// six seconds, so paid at `t` means paid at every later time.
pub proof fn law_mock_paid_monotone(created_at: u64, t: u64, later: u64)
    requires
        t <= later,
    ensures
        mock_paid(created_at, t) <==> t >= created_at + MOCK_SETTLE_AFTER_SECS,
        mock_paid(created_at, t) ==> mock_paid(created_at, later),
{
}

/// Whether `token` is a demo access token: `access_` then 24 lower-case
/// letters and digits.
pub open spec fn is_mock_access_token(token: Seq<char>) -> bool {
    &&& token.len() == 7 + 24
    &&& token.take(7) == "access_"@
    &&& forall|i: int| 7 <= i < 31 ==> is_lower_alphanumeric(#[trigger] token[i])
}

/// Whether an optional token is a freshly issued demo access token.
pub open spec fn issued_mock_token(token: Option<String>) -> bool {
    match token {
        Some(t) => is_mock_access_token(t@),
        None => false,
    }
}

impl MockBackend {
    /// The invoices, by id.
    pub closed spec fn sessions(&self) -> Map<Seq<char>, MockSession> {
        self.store@
    }

    /// A backend with no invoices.
    pub fn new() -> (b: MockBackend)
        ensures
            b.sessions() == Map::<Seq<char>, MockSession>::empty(),
    {
        MockBackend { store: KeyedStore::new() }
    }

    /// Creates a demo invoice at `now`: a 12-character id, the invoice text
    /// `lnbc250000` followed by 18 random characters, expiring fifteen
    /// minutes later, without QR images.
    pub fn create_invoice(&mut self, now: u64) -> (r: InvoiceResponse)
        requires
            now + MOCK_EXPIRY_SECS <= u64::MAX,
        ensures
            r.invoice_id@.len() == 12,
            forall|i: int| 0 <= i < 12 ==> is_lower_alphanumeric(#[trigger] r.invoice_id@[i]),
            r.amount_msat == MOCK_AMOUNT_MSAT,
            exists|suffix: Seq<char>| {
                &&& suffix.len() == 18
                &&& forall|i: int| 0 <= i < 18 ==> is_lower_alphanumeric(#[trigger] suffix[i])
                &&& #[trigger] r.invoice@ == "lnbc"@ + decimal(MOCK_AMOUNT_MSAT as nat) + suffix
            },
            r.invoice_qr_png@.len() == 0,
            r.invoice_qr_ascii@.len() == 0,
            r.expires_at == now + MOCK_EXPIRY_SECS,
            final(self).sessions() == old(self).sessions().insert(r.invoice_id@, MockSession {
                invoice_id: r.invoice_id,
                invoice: r.invoice,
                amount_msat: MOCK_AMOUNT_MSAT,
                created_at: now,
                expires_at: r.expires_at,
                access_token: None,
            }),
    {
        let invoice_id = random_id(12);
        let suffix = random_id(18);
        let mut invoice = String::new();
        push_str(&mut invoice, "lnbc");
        push_decimal(&mut invoice, MOCK_AMOUNT_MSAT);
        push_str(&mut invoice, suffix.as_str());
        assert(invoice@ == "lnbc"@ + decimal(MOCK_AMOUNT_MSAT as nat) + suffix@);
        let expires_at = now + MOCK_EXPIRY_SECS;
        let session = MockSession {
            invoice_id: invoice_id.clone(),
            invoice: invoice.clone(),
            amount_msat: MOCK_AMOUNT_MSAT,
            created_at: now,
            expires_at,
            access_token: None,
        };
        self.store.insert(invoice_id.clone(), session);
        InvoiceResponse {
            invoice_id,
            amount_msat: MOCK_AMOUNT_MSAT,
            invoice,
            invoice_qr_png: String::new(),
            invoice_qr_ascii: String::new(),
            expires_at,
        }
    }

    /// The status of a demo invoice at `now`. Once it counts as paid it gets
    /// an access token, the first time it is asked about; later answers
    /// repeat that token.
    pub fn check_invoice(&mut self, invoice_id: &str, now: u64) -> (r: Result<StatusResponse, ProofError>)
        ensures
            !old(self).sessions().dom().contains(invoice_id@) <==> r is Err,
            r matches Err(e) ==> e == ProofError::NotFound && final(self).sessions() == old(self).sessions(),
            r matches Ok(resp) ==> {
                let before = old(self).sessions()[invoice_id@];
                let paid = mock_paid(before.created_at, now);
                let after = final(self).sessions()[invoice_id@];
                &&& resp.status@ == status_text(if paid { InvoiceStatus::Settled } else { InvoiceStatus::Pending })
                &&& (now >= before.created_at + MOCK_SETTLE_AFTER_SECS ==> {
                    &&& resp.status@ == status_text(InvoiceStatus::Settled)
                    &&& resp.access_token is Some
                })
                &&& (now < before.created_at + MOCK_SETTLE_AFTER_SECS ==> resp.status@ == status_text(InvoiceStatus::Pending))
                &&& resp.expires_at == before.expires_at
                &&& resp.access_qr_png is None
                &&& resp.access_qr_ascii is None
                &&& opt_string_view(resp.access_token) == opt_string_view(after.access_token)
                &&& (before.access_token is Some ==> opt_string_view(after.access_token) == opt_string_view(before.access_token))
                &&& (before.access_token is None && paid ==> issued_mock_token(after.access_token))
                &&& (before.access_token is None && !paid ==> after.access_token is None)
                &&& final(self).sessions().dom() == old(self).sessions().dom()
                &&& forall|k: Seq<char>| k != invoice_id@ ==> final(self).sessions()[k] == #[trigger] old(self).sessions()[k]
                &&& after.invoice_id == before.invoice_id && after.invoice == before.invoice
                &&& after.amount_msat == before.amount_msat && after.created_at == before.created_at
                &&& after.expires_at == before.expires_at
            },
    {
        let (updated, token) = match self.store.get(invoice_id) {
            None => return Err(ProofError::NotFound),
            Some(session) => {
                let settled = now.saturating_sub(session.created_at) >= MOCK_SETTLE_AFTER_SECS;
                let token = match &session.access_token {
                    Some(t) => Some(t.clone()),
                    None => {
                        if settled {
                            let suffix = random_id(24);
                            let mut t = String::new();
                            push_str(&mut t, "access_");
                            push_str(&mut t, suffix.as_str());
                            proof {
                                reveal_strlit("access_");
                                assert(t@.take(7) =~= "access_"@);
                            }
                            Some(t)
                        } else {
                            None
                        }
                    },
                };
                let updated = MockSession {
                    invoice_id: session.invoice_id.clone(),
                    invoice: session.invoice.clone(),
                    amount_msat: session.amount_msat,
                    created_at: session.created_at,
                    expires_at: session.expires_at,
                    access_token: clone_opt_string(&token),
                };
                (updated, token)
            },
        };
        let settled = now.saturating_sub(updated.created_at) >= MOCK_SETTLE_AFTER_SECS;
        let expires_at = updated.expires_at;
        self.store.insert(invoice_id.to_owned(), updated);
        let status = if settled { "settled".to_owned() } else { "pending".to_owned() };
        Ok(StatusResponse {
            status,
            expires_at,
            access_token: token,
            access_qr_png: None,
            access_qr_ascii: None,
        })
    }

    /// The same answer as `check_invoice`.
    pub fn get_access_token(&mut self, invoice_id: &str, now: u64) -> (r: Result<StatusResponse, ProofError>)
        ensures
            !old(self).sessions().dom().contains(invoice_id@) <==> r is Err,
            r matches Err(e) ==> e == ProofError::NotFound && final(self).sessions() == old(self).sessions(),
            r matches Ok(resp) ==> {
                let before = old(self).sessions()[invoice_id@];
                let paid = mock_paid(before.created_at, now);
                let after = final(self).sessions()[invoice_id@];
                &&& resp.status@ == status_text(if paid { InvoiceStatus::Settled } else { InvoiceStatus::Pending })
                &&& (now >= before.created_at + MOCK_SETTLE_AFTER_SECS ==> {
                    &&& resp.status@ == status_text(InvoiceStatus::Settled)
                    &&& resp.access_token is Some
                })
                &&& (now < before.created_at + MOCK_SETTLE_AFTER_SECS ==> resp.status@ == status_text(InvoiceStatus::Pending))
                &&& resp.expires_at == before.expires_at
                &&& opt_string_view(resp.access_token) == opt_string_view(after.access_token)
                &&& (before.access_token is Some ==> opt_string_view(after.access_token) == opt_string_view(before.access_token))
                &&& (before.access_token is None && paid ==> issued_mock_token(after.access_token))
                &&& (before.access_token is None && !paid ==> after.access_token is None)
                &&& final(self).sessions().dom() == old(self).sessions().dom()
                &&& forall|k: Seq<char>| k != invoice_id@ ==> final(self).sessions()[k] == #[trigger] old(self).sessions()[k]
            },
    {
        self.check_invoice(invoice_id, now)
    }
}

} // verus!
