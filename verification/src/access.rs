//! The node's access service: invoices waiting for payment, and the
//! compact access pass issued once the node reports the invoice paid.

use vstd::prelude::*;
use crate::compact::{
    CompactAccessPayload, CompactPayloadModel, compact_token, compact_payload_bytes,
    verify_compact_spec, decoded_compact, sign_compact_payload,
};
use crate::crypto::{ed25519_public_key, base64_encodable};
use crate::json::{opt_string_view, clone_opt_string};
use crate::keys::SigningKey;
use crate::node::LightningInvoice;
use crate::store::KeyedStore;
use crate::random::{random_alphanumeric, is_ascii_alphanumeric};

verus! {

/// Invoice lifetime outside demo mode, in seconds.
pub const DEFAULT_EXPIRY_SECS: u64 = 15 * 60;

/// Invoice lifetime in demo mode, in seconds.
pub const DEMO_EXPIRY_SECS: u64 = 2 * 60;

/// Price of an access pass when the buyer names none, in millisatoshis.
pub const DEFAULT_AMOUNT_MSAT: u64 = 250_000;

/// How the access service runs.
#[derive(Clone, Debug)]
pub struct AppConfig {
    pub demo_mode: bool,
    pub event_id: String,
    pub invoice_expiry_secs: u64,
    pub amount_msat: u64,
}

/// The demo settings: event `demo-event`, two-minute invoices, default price.
pub fn demo_config() -> (c: AppConfig)
    ensures
        c.demo_mode,
        c.event_id@ == "demo-event"@,
        c.invoice_expiry_secs == DEMO_EXPIRY_SECS,
        c.amount_msat == DEFAULT_AMOUNT_MSAT,
{
    AppConfig {
        demo_mode: true,
        event_id: "demo-event".to_owned(),
        invoice_expiry_secs: DEMO_EXPIRY_SECS,
        amount_msat: DEFAULT_AMOUNT_MSAT,
    }
}

/// The live settings for an event: fifteen-minute invoices, default price.
pub fn default_config(event_id: String) -> (c: AppConfig)
    ensures
        !c.demo_mode,
        c.event_id == event_id,
        c.invoice_expiry_secs == DEFAULT_EXPIRY_SECS,
        c.amount_msat == DEFAULT_AMOUNT_MSAT,
{
    AppConfig {
        demo_mode: false,
        event_id,
        invoice_expiry_secs: DEFAULT_EXPIRY_SECS,
        amount_msat: DEFAULT_AMOUNT_MSAT,
    }
}

/// Where an invoice stands.
#[derive(Clone, Copy, Debug, PartialEq, Eq, Structural)]
pub enum InvoiceStatus {
    Pending,
    Settled,
}

/// One invoice and, once it is paid, the access pass issued for it.
#[derive(Debug)]
pub struct AccessSession {
    pub invoice_id: String,
    pub payment_hash: String,
    pub amount_msat: u64,
    pub expires_at: u64,
    pub invoice_qr_png: String,
    pub access_qr_ascii: Option<String>,
    pub status: InvoiceStatus,
    pub access_token: Option<String>,
    pub access_qr_png: Option<String>,
}

/// The answer to an invoice request.
#[derive(Debug)]
pub struct InvoiceResponse {
    pub invoice_id: String,
    pub amount_msat: u64,
    pub invoice: String,
    pub invoice_qr_png: String,
    pub invoice_qr_ascii: String,
    pub expires_at: u64,
}

/// The answer to a status or access-pass request.
#[derive(Debug)]
pub struct StatusResponse {
    pub status: String,
    pub expires_at: u64,
    pub access_token: Option<String>,
    pub access_qr_png: Option<String>,
    pub access_qr_ascii: Option<String>,
}

/// Why a request failed.
#[derive(Clone, Copy, Debug, PartialEq, Eq, Structural)]
pub enum ProofError {
    /// No invoice has that id.
    NotFound,
    /// The service could not complete the request.
    Internal,
}

/// What the node is asked to invoice.
#[derive(Debug)]
pub struct InvoiceTerms {
    pub amount_msat: u64,
    pub memo: String,
    pub expiry_secs: u32,
}

/// What the node and the QR renderer produced for a new invoice: the
/// invoice and its two QR renderings.
#[derive(Debug)]
pub struct InvoiceArtifacts {
    pub invoice: LightningInvoice,
    pub invoice_qr_png: String,
    pub invoice_qr_ascii: String,
}

/// A signed pass ready to be attached to a paid invoice. Only
/// `ProofService::prepare_settlement` makes one.
#[derive(Debug)]
pub struct PendingAccess {
    invoice_id: String,
    payment_hash: String,
    token: String,
}

impl PendingAccess {
    /// The invoice whose session the pass is for.
    pub closed spec fn pending_invoice_id(&self) -> String {
        self.invoice_id
    }

    /// The payment hash the pass was issued for.
    pub closed spec fn pending_payment_hash(&self) -> String {
        self.payment_hash
    }

    /// The compact token.
    pub closed spec fn pending_token(&self) -> String {
        self.token
    }

    /// The invoice whose session the pass is for.
    pub fn invoice_id(&self) -> (r: &str)
        ensures
            r@ == self.pending_invoice_id()@,
    {
        self.invoice_id.as_str()
    }

    /// The compact token, to be rendered as QR codes.
    pub fn token(&self) -> (r: &str)
        ensures
            r@ == self.pending_token()@,
    {
        self.token.as_str()
    }
}

/// A session whose status agrees with what is attached to it: a pending
/// session carries no pass and no pass rendering; a settled one carries the
/// pass and both of its QR renderings.
pub open spec fn session_consistent(s: AccessSession) -> bool {
    match s.status {
        InvoiceStatus::Pending => s.access_token is None && s.access_qr_png is None && s.access_qr_ascii is None,
        InvoiceStatus::Settled => s.access_token is Some && s.access_qr_png is Some && s.access_qr_ascii is Some,
    }
}

/// The session recorded for a new invoice: pending, with no pass yet.
pub open spec fn pending_session(
    invoice_id: String,
    payment_hash: String,
    amount_msat: u64,
    expires_at: u64,
    invoice_qr_png: String,
) -> AccessSession {
    AccessSession {
        invoice_id,
        payment_hash,
        amount_msat,
        expires_at,
        invoice_qr_png,
        access_qr_ascii: None,
        status: InvoiceStatus::Pending,
        access_token: None,
        access_qr_png: None,
    }
}

/// A session marked settled, carrying a pass and its QR renderings.
pub open spec fn settled_session(before: AccessSession, token: String, qr_png: String, qr_ascii: String) -> AccessSession {
    AccessSession {
        invoice_id: before.invoice_id,
        payment_hash: before.payment_hash,
        amount_msat: before.amount_msat,
        expires_at: before.expires_at,
        invoice_qr_png: before.invoice_qr_png,
        access_qr_ascii: Some(qr_ascii),
        status: InvoiceStatus::Settled,
        access_token: Some(token),
        access_qr_png: Some(qr_png),
    }
}

/// The words that report an invoice's status.
pub open spec fn status_text(s: InvoiceStatus) -> Seq<char> {
    match s {
        InvoiceStatus::Pending => "pending"@,
        InvoiceStatus::Settled => "settled"@,
    }
}

/// The access service: its key, settings, sessions by invoice id, and the
/// invoice id of each payment hash.
pub struct ProofService {
    keypair: SigningKey,
    config: AppConfig,
    sessions: KeyedStore<AccessSession>,
    payment_index: KeyedStore<String>,
}

/// A fresh invoice id: 12 random ASCII letters and digits.
pub fn new_invoice_id() -> (id: String)
    ensures
        id@.len() == 12,
        forall|i: int| 0 <= i < 12 ==> is_ascii_alphanumeric(#[trigger] id@[i]),
{
    random_alphanumeric(12)
}

impl ProofService {
    /// The sessions, by invoice id.
    pub closed spec fn sessions(&self) -> Map<Seq<char>, AccessSession> {
        self.sessions@
    }

    /// The invoice id of each payment hash.
    pub closed spec fn payment_index(&self) -> Map<Seq<char>, String> {
        self.payment_index@
    }

    /// The settings.
    pub closed spec fn config_spec(&self) -> AppConfig {
        self.config
    }

    /// The issuer's secret key.
    pub closed spec fn key(&self) -> Seq<u8> {
        self.keypair@
    }

    /// The session that a payment hash leads to, if any.
    pub open spec fn session_for_payment(&self, payment_hash: Seq<char>) -> Option<AccessSession> {
        if self.payment_index().dom().contains(payment_hash)
            && self.sessions().dom().contains(self.payment_index()[payment_hash]@)
        {
            Some(self.sessions()[self.payment_index()[payment_hash]@])
        } else {
            None
        }
    }

    /// Whether a payment with this hash would be issued a pass: it leads to a
    /// session that is still pending.
    pub open spec fn would_issue(&self, payment_hash: Seq<char>) -> bool {
        self.session_for_payment(payment_hash) matches Some(s) && s.status == InvoiceStatus::Pending
    }

    /// The pass payload issued for a payment of the given hash on a session.
    pub open spec fn pass_payload(&self, payment_hash: Seq<char>, session: AccessSession) -> CompactPayloadModel {
        CompactPayloadModel {
            payment_hash,
            expires_at: session.expires_at,
            event_id: self.config_spec().event_id@,
        }
    }

    /// Every session's status agrees with what is attached to it.
    #[verifier::type_invariant]
    spec fn every_session_consistent(self) -> bool {
        forall|k: Seq<char>| #[trigger] self.sessions@.dom().contains(k) ==> session_consistent(self.sessions@[k])
    }

    /// Every pending session carries no pass and no rendering, and every
    /// settled session carries the pass and both QR renderings.
    pub open spec fn sessions_consistent(&self) -> bool {
        forall|k: Seq<char>| #[trigger] self.sessions().dom().contains(k) ==> session_consistent(self.sessions()[k])
    }

    /// Whether a prepared pass belongs to this service as it stands: its
    /// payment hash leads to the pass's invoice, whose session is still
    /// pending, and the token is the one this service signs for it.
    pub open spec fn issues(&self, p: PendingAccess) -> bool {
        let h = p.pending_payment_hash()@;
        &&& self.would_issue(h)
        &&& self.payment_index()[h]@ == p.pending_invoice_id()@
        &&& p.pending_token()@ == compact_token(self.key(), self.pass_payload(h, self.session_for_payment(h)->0))
    }

    /// Whether the pass for a payment of this hash, if one would be issued,
    /// is short enough for the Base64 encoder.
    pub open spec fn pass_encodable(&self, payment_hash: Seq<char>) -> bool {
        self.would_issue(payment_hash) ==> base64_encodable(
            compact_payload_bytes(self.pass_payload(payment_hash, self.session_for_payment(payment_hash)->0)).len(),
        )
    }

    /// A service with no sessions.
    pub fn new(keypair: SigningKey, config: AppConfig) -> (s: ProofService)
        ensures
            s.sessions() == Map::<Seq<char>, AccessSession>::empty(),
            s.payment_index() == Map::<Seq<char>, String>::empty(),
            s.config_spec() == config,
            s.key() == keypair@,
            s.sessions_consistent(),
    {
        ProofService {
            keypair,
            config,
            sessions: KeyedStore::new(),
            payment_index: KeyedStore::new(),
        }
    }

    /// The settings.
    pub fn config(&self) -> (c: &AppConfig)
        ensures
            *c == self.config_spec(),
    {
        &self.config
    }

    /// What to ask the node for: the requested amount or the configured
    /// price, the description or `HASKEpay access`, and the configured
    /// lifetime, which must fit in 32 bits.
    pub fn invoice_terms(&self, amount_override_msat: Option<u64>, description: Option<String>) -> (r: Result<InvoiceTerms, ProofError>)
        ensures
            self.config_spec().invoice_expiry_secs > u32::MAX <==> r is Err,
            r matches Err(e) ==> e == ProofError::Internal,
            r matches Ok(t) ==> {
                &&& t.expiry_secs == self.config_spec().invoice_expiry_secs
                &&& t.amount_msat == match amount_override_msat {
                    Some(a) => a,
                    None => self.config_spec().amount_msat,
                }
                &&& t.memo@ == match description {
                    Some(d) => d@,
                    None => "HASKEpay access"@,
                }
            },
    {
        let expiry = self.config.invoice_expiry_secs;
        if expiry > 0xffff_ffff {
            return Err(ProofError::Internal);
        }
        let expiry_secs = expiry as u32;
        let amount_msat = match amount_override_msat {
            Some(a) => a,
            None => self.config.amount_msat,
        };
        let memo = match description {
            Some(d) => d,
            None => "HASKEpay access".to_owned(),
        };
        Ok(InvoiceTerms { amount_msat, memo, expiry_secs })
    }

    /// Completes an invoice request once the node and the QR renderer have
    /// answered. When either failed (`None`), the request fails and nothing
    /// is recorded. Otherwise the invoice is recorded as pending under
    /// `invoice_id`, indexed by its payment hash, expiring the configured
    /// lifetime after `now`.
    pub fn finish_invoice(
        &mut self,
        invoice_id: String,
        amount_msat: u64,
        now: u64,
        outcome: Option<InvoiceArtifacts>,
    ) -> (r: Result<InvoiceResponse, ProofError>)
        requires
            outcome is Some ==> now + old(self).config_spec().invoice_expiry_secs <= u64::MAX,
        ensures
            final(self).config_spec() == old(self).config_spec(),
            final(self).key() == old(self).key(),
            final(self).sessions_consistent(),
            outcome is None <==> r is Err,
            r matches Err(e) ==> e == ProofError::Internal,
            outcome is None ==> *final(self) == *old(self),
            outcome matches Some(a) ==> {
                let expires_at = (now + old(self).config_spec().invoice_expiry_secs) as u64;
                &&& final(self).sessions() == old(self).sessions().insert(
                    invoice_id@,
                    pending_session(invoice_id, a.invoice.payment_hash, amount_msat, expires_at, a.invoice_qr_png),
                )
                &&& final(self).payment_index() == old(self).payment_index().insert(a.invoice.payment_hash@, invoice_id)
                &&& final(self).would_issue(a.invoice.payment_hash@)
                &&& r matches Ok(resp) && {
                    &&& resp.invoice_id == invoice_id
                    &&& resp.amount_msat == amount_msat
                    &&& resp.invoice == a.invoice.invoice
                    &&& resp.invoice_qr_png == a.invoice_qr_png
                    &&& resp.invoice_qr_ascii == a.invoice_qr_ascii
                    &&& resp.expires_at == expires_at
                }
            },
    {
        proof { use_type_invariant(&*self); }
        let artifacts = match outcome {
            Some(a) => a,
            None => return Err(ProofError::Internal),
        };
        let invoice = artifacts.invoice;
        let expires_at = now + self.config.invoice_expiry_secs;
        let session = AccessSession {
            invoice_id: invoice_id.clone(),
            payment_hash: invoice.payment_hash.clone(),
            amount_msat,
            expires_at,
            invoice_qr_png: artifacts.invoice_qr_png.clone(),
            access_qr_ascii: None,
            status: InvoiceStatus::Pending,
            access_token: None,
            access_qr_png: None,
        };
        let mut sessions = KeyedStore::new();
        std::mem::swap(&mut sessions, &mut self.sessions);
        let ghost before = sessions@;
        sessions.insert(invoice_id.clone(), session);
        assert forall|k: Seq<char>| #[trigger] sessions@.dom().contains(k) implies session_consistent(sessions@[k]) by {
            if k != invoice_id@ {
                assert(before.dom().contains(k));
            }
        }
        self.sessions = sessions;
        let mut index = KeyedStore::new();
        std::mem::swap(&mut index, &mut self.payment_index);
        index.insert(invoice.payment_hash, invoice_id.clone());
        self.payment_index = index;
        proof { use_type_invariant(&*self); }
        Ok(InvoiceResponse {
            invoice_id,
            amount_msat,
            invoice: invoice.invoice,
            invoice_qr_png: artifacts.invoice_qr_png,
            invoice_qr_ascii: artifacts.invoice_qr_ascii,
            expires_at,
        })
    }

    /// The status of an invoice and, once paid, its access pass.
    pub fn check_invoice(&self, invoice_id: &str) -> (r: Result<StatusResponse, ProofError>)
        ensures
            !self.sessions().dom().contains(invoice_id@) <==> r is Err,
            r matches Err(e) ==> e == ProofError::NotFound,
            r matches Ok(resp) ==> {
                let session = self.sessions()[invoice_id@];
                &&& resp.status@ == status_text(session.status)
                &&& resp.expires_at == session.expires_at
                &&& opt_string_view(resp.access_token) == opt_string_view(session.access_token)
                &&& opt_string_view(resp.access_qr_png) == opt_string_view(session.access_qr_png)
                &&& opt_string_view(resp.access_qr_ascii) == opt_string_view(session.access_qr_ascii)
                &&& session_consistent(session)
            },
    {
        proof { use_type_invariant(self); }
        let session = match self.sessions.get(invoice_id) {
            Some(s) => s,
            None => return Err(ProofError::NotFound),
        };
        let status = match session.status {
            InvoiceStatus::Pending => "pending".to_owned(),
            InvoiceStatus::Settled => "settled".to_owned(),
        };
        Ok(StatusResponse {
            status,
            expires_at: session.expires_at,
            access_token: clone_opt_string(&session.access_token),
            access_qr_png: clone_opt_string(&session.access_qr_png),
            access_qr_ascii: clone_opt_string(&session.access_qr_ascii),
        })
    }

    /// The same answer as `check_invoice`: the access pass once issued.
    pub fn get_access_token(&self, invoice_id: &str) -> (r: Result<StatusResponse, ProofError>)
        ensures
            !self.sessions().dom().contains(invoice_id@) <==> r is Err,
            r matches Err(e) ==> e == ProofError::NotFound,
            r matches Ok(resp) ==> {
                let session = self.sessions()[invoice_id@];
                &&& resp.status@ == status_text(session.status)
                &&& resp.expires_at == session.expires_at
                &&& opt_string_view(resp.access_token) == opt_string_view(session.access_token)
                &&& opt_string_view(resp.access_qr_png) == opt_string_view(session.access_qr_png)
                &&& opt_string_view(resp.access_qr_ascii) == opt_string_view(session.access_qr_ascii)
                &&& session_consistent(session)
            },
    {
        self.check_invoice(invoice_id)
    }

    /// The invoice id and session that a payment of this hash would be
    /// issued a pass for.
    fn issuing_session(&self, payment_hash: &str) -> (r: Option<(&String, &AccessSession)>)
        ensures
            r is Some <==> self.would_issue(payment_hash@),
            r matches Some((id, session)) ==> {
                &&& *id == self.payment_index()[payment_hash@]
                &&& *session == self.session_for_payment(payment_hash@)->0
            },
    {
        let invoice_id = match self.payment_index.get(payment_hash) {
            Some(id) => id,
            None => return None,
        };
        let session = match self.sessions.get(invoice_id.as_str()) {
            Some(s) => s,
            None => return None,
        };
        if session.status == InvoiceStatus::Settled {
            return None;
        }
        Some((invoice_id, session))
    }

    /// Whether a pass for a payment of this hash may be prepared: no pass
    /// would be issued, or its payload is short enough for the Base64
    /// encoder.
    pub fn pass_fits(&self, payment_hash: &str) -> (b: bool)
        ensures
            b == self.pass_encodable(payment_hash@),
    {
        let session = match self.issuing_session(payment_hash) {
            Some((_, s)) => s,
            None => return true,
        };
        let payload = CompactAccessPayload {
            payment_hash: payment_hash.to_owned(),
            expires_at: session.expires_at,
            event_id: self.config.event_id.clone(),
        };
        let json = payload.to_json();
        let n = json.as_str().as_bytes().len();
        n <= usize::MAX / 4 * 3
    }

    /// The pass to issue for a payment: none when the payment hash is
    /// unknown, its session is gone, or the session is already settled;
    /// otherwise the compact token over the payment hash, the session's
    /// expiry and the configured event, which checks out under the
    /// service's public key.
    pub fn prepare_settlement(&self, payment_hash: &str) -> (r: Option<PendingAccess>)
        requires
            self.pass_encodable(payment_hash@),
        ensures
            r is Some <==> self.would_issue(payment_hash@),
            r matches Some(p) ==> {
                let session = self.session_for_payment(payment_hash@)->0;
                let payload = self.pass_payload(payment_hash@, session);
                &&& p.pending_payment_hash()@ == payment_hash@
                &&& self.issues(p)
                &&& verify_compact_spec(p.pending_token()@, ed25519_public_key(self.key()))
                    == decoded_compact(compact_payload_bytes(payload))
            },
    {
        let (invoice_id, session) = match self.issuing_session(payment_hash) {
            Some(found) => found,
            None => return None,
        };
        let payload = CompactAccessPayload {
            payment_hash: payment_hash.to_owned(),
            expires_at: session.expires_at,
            event_id: self.config.event_id.clone(),
        };
        let token = match sign_compact_payload(&payload, &self.keypair) {
            Ok(t) => t,
            Err(_) => return None,
        };
        Some(PendingAccess { invoice_id: invoice_id.clone(), payment_hash: payment_hash.to_owned(), token })
    }

    /// Completes a payment once the pass has been rendered as QR codes.
    /// When rendering failed (`None`), the payment fails and the session
    /// stays pending. Otherwise the pass's session is marked settled and the
    /// pass and its renderings are attached.
    pub fn finish_settlement(&mut self, pending: PendingAccess, rendered: Option<(String, String)>) -> (r: Result<(), ProofError>)
        requires
            old(self).issues(pending),
        ensures
            final(self).config_spec() == old(self).config_spec(),
            final(self).key() == old(self).key(),
            final(self).payment_index() == old(self).payment_index(),
            final(self).sessions_consistent(),
            rendered is None <==> r is Err,
            r matches Err(e) ==> e == ProofError::Internal,
            rendered is None ==> *final(self) == *old(self),
            rendered matches Some((qr_png, qr_ascii)) ==> {
                let id = pending.pending_invoice_id()@;
                &&& final(self).sessions() == old(self).sessions().insert(
                    id,
                    settled_session(old(self).sessions()[id], pending.pending_token(), qr_png, qr_ascii),
                )
                &&& forall|payment_hash: Seq<char>|
                    old(self).payment_index().dom().contains(payment_hash)
                    && #[trigger] old(self).payment_index()[payment_hash]@ == id
                    ==> !final(self).would_issue(payment_hash)
            },
    {
        proof { use_type_invariant(&*self); }
        let ghost id = pending.invoice_id@;
        let (qr_png, qr_ascii) = match rendered {
            Some(pair) => pair,
            None => return Err(ProofError::Internal),
        };
        let updated = match self.sessions.get(pending.invoice_id.as_str()) {
            Some(before) => AccessSession {
                invoice_id: before.invoice_id.clone(),
                payment_hash: before.payment_hash.clone(),
                amount_msat: before.amount_msat,
                expires_at: before.expires_at,
                invoice_qr_png: before.invoice_qr_png.clone(),
                access_qr_ascii: Some(qr_ascii),
                status: InvoiceStatus::Settled,
                access_token: Some(pending.token),
                access_qr_png: Some(qr_png),
            },
            None => return Ok(()),
        };
        let mut sessions = KeyedStore::new();
        std::mem::swap(&mut sessions, &mut self.sessions);
        let ghost before = sessions@;
        sessions.insert(pending.invoice_id, updated);
        assert forall|k: Seq<char>| #[trigger] sessions@.dom().contains(k) implies session_consistent(sessions@[k]) by {
            if k != id {
                assert(before.dom().contains(k));
            }
        }
        self.sessions = sessions;
        proof { use_type_invariant(&*self); }
        Ok(())
    }
}

} // verus!
