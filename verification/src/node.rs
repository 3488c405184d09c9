//! Values exchanged with the Lightning node: invoices, paid-invoice events
//! and the node's network and mode settings.

use vstd::prelude::*;
use crate::text::{ascii_eq_ignore_case, eq_ignore_ascii_case_spec};

verus! {

/// A BOLT11 invoice issued by the node and the hash that identifies its payment.
#[derive(Clone, Debug)]
pub struct LightningInvoice {
    pub invoice: String,
    pub payment_hash: String,
}

/// A paid invoice as the node reports it.
#[derive(Clone, Debug)]
pub struct PaymentEvent {
    pub payment_hash: String,
    pub amount_msat: u64,
    pub timestamp: u64,
}

/// The event for a paid invoice: the amount is that of the payment when the
/// node attached one, zero otherwise.
pub fn invoice_paid_event(payment_hash: String, payment_amount_msat: Option<u64>, now: u64) -> (e: PaymentEvent)
    ensures
        e.payment_hash == payment_hash,
        e.amount_msat == match payment_amount_msat { Some(a) => a, None => 0 },
        e.timestamp == now,
{
    let amount_msat = match payment_amount_msat {
        Some(a) => a,
        None => 0,
    };
    PaymentEvent { payment_hash, amount_msat, timestamp: now }
}

/// The Bitcoin networks a node can run on.
#[derive(Clone, Copy, Debug, PartialEq, Eq, Structural)]
pub enum Network {
    Bitcoin,
    Signet,
    Regtest,
}

/// The network named by a setting: `bitcoin` or `mainnet` for the main
/// network, `regtest` for a local test network, and signet for `signet`,
/// for anything else and when unset. Names are read without regard to case.
pub open spec fn network_for(value: Option<Seq<char>>) -> Network {
    match value {
        None => Network::Signet,
        Some(v) => {
            if eq_ignore_ascii_case_spec(v, "bitcoin"@) || eq_ignore_ascii_case_spec(v, "mainnet"@) {
                Network::Bitcoin
            } else if eq_ignore_ascii_case_spec(v, "regtest"@) {
                Network::Regtest
            } else {
                Network::Signet
            }
        },
    }
}

/// Reads the network setting.
pub fn parse_network(value: Option<&str>) -> (n: Network)
    ensures
        n == network_for(match value { Some(v) => Some(v@), None => None }),
{
    match value {
        None => Network::Signet,
        Some(v) => {
            if ascii_eq_ignore_case(v, "bitcoin") || ascii_eq_ignore_case(v, "mainnet") {
                Network::Bitcoin
            } else if ascii_eq_ignore_case(v, "regtest") {
                Network::Regtest
            } else {
                Network::Signet
            }
        },
    }
}

/// Whether the demo switch is on: set to `1`, or to `true` in any case.
pub fn demo_mode_enabled(value: Option<&str>) -> (on: bool)
    ensures
        on == match value {
            Some(v) => v@ == "1"@ || eq_ignore_ascii_case_spec(v@, "true"@),
            None => false,
        },
{
    match value {
        None => false,
        Some(v) => crate::text::str_eq(v, "1") || ascii_eq_ignore_case(v, "true"),
    }
}

} // verus!
