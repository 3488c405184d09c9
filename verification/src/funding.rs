//! Funding the node's on-chain wallet from a signet faucet.

use vstd::prelude::*;

verus! {

/// The faucet that funds the node.
#[derive(Clone, Debug)]
pub struct FundingTarget {
    pub network: String,
    pub faucet_name: String,
    pub faucet_url: String,
}

/// A faucet request that went through.
#[derive(Clone, Debug)]
pub struct FundingResult {
    pub address: String,
    pub sats_requested: u64,
    pub faucet_txid: Option<String>,
    pub target: FundingTarget,
}

/// Why funding failed.
#[derive(Clone, Debug)]
pub enum FundingError {
    /// The node gave no funding address.
    Address(String),
    /// The faucet request failed.
    Http(String),
}

/// The faucet used when none is configured.
pub open spec fn default_faucet_url() -> Seq<char> {
    "http://localhost:3002/faucet"@
}

/// The Bitcoin signet faucet, at the configured address or the local default.
pub fn bitcoin_signet_target(faucet_url: Option<String>) -> (t: FundingTarget)
    ensures
        t.network@ == "bitcoin-signet"@,
        t.faucet_name@ == "Signet Faucet"@,
        t.faucet_url@ == match faucet_url { Some(u) => u@, None => default_faucet_url() },
{
    let faucet_url = match faucet_url {
        Some(u) => u,
        None => "http://localhost:3002/faucet".to_owned(),
    };
    FundingTarget {
        network: "bitcoin-signet".to_owned(),
        faucet_name: "Signet Faucet".to_owned(),
        faucet_url,
    }
}

/// Whether an HTTP status code reports success (the 2xx range).
pub fn is_success_status(status: u16) -> (ok: bool)
    ensures
        ok == (200 <= status && status <= 299),
{
    200 <= status && status <= 299
}

/// The outcome of a faucet request: the funded address and amount on a 2xx
/// answer, otherwise the failure described by `failure`.
pub fn funding_outcome(
    address: String,
    sats: u64,
    status: u16,
    faucet_txid: Option<String>,
    target: FundingTarget,
    failure: String,
) -> (r: Result<FundingResult, FundingError>)
    ensures
        r is Ok <==> (200 <= status && status <= 299),
        r matches Ok(res) ==> res.address == address && res.sats_requested == sats
            && res.faucet_txid == faucet_txid && res.target.faucet_url == target.faucet_url
            && res.target.network == target.network && res.target.faucet_name == target.faucet_name,
        r matches Err(e) ==> e matches FundingError::Http(m) && m == failure,
{
    if !is_success_status(status) {
        return Err(FundingError::Http(failure));
    }
    Ok(FundingResult { address, sats_requested: sats, faucet_txid, target })
}

} // verus!
