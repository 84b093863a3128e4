//! The client of the SAS contract: the decisions it makes around the RPC
//! calls that simulate, sign and submit contract invocations.
use vstd::prelude::*;
use vstd::string::StringSliceAdditionalSpecFns;
use crate::crypto::{sha256, sha256_digest, MAX_HOST_INPUT};
use crate::errors::{SdkError, SdkErrorView};
use crate::rpc::SimulateTransactionResult;
use crate::text::starts_with;
use crate::text::{parse_i64, parsed_i64};

verus! {

/// Classic per-operation fee, in stroops, before the Soroban resource fee
/// that simulation reports is added on top.
pub const BASE_FEE: u32 = 100;

/// How many times a submitted transaction is polled before giving up.
pub const DEFAULT_MAX_POLL_ATTEMPTS: u32 = 10;

/// Wait between two polls, in milliseconds.
pub const DEFAULT_POLL_INTERVAL_MS: u64 = 2000;

/// The primary client for interacting with the SAS contract.
pub struct SASClient {
    /// The Soroban contract ID.
    pub contract_id: String,
}

impl SASClient {
    /// Instantiates a new SASClient with the given contract ID.
    pub fn new(contract_id: String) -> (res: Self)
        ensures
            res.contract_id@ == contract_id@,
    {
        SASClient { contract_id }
    }
}

/// Initializes the SDK. There is no global state to set up.
pub fn init() {
}

/// The network id a transaction is signed for: SHA-256 of the network
/// passphrase.
pub fn network_id(network_passphrase: &str) -> (res: [u8; 32])
    requires
        network_passphrase.spec_bytes().len() <= MAX_HOST_INPUT,
    ensures
        res@ == sha256_digest(network_passphrase.spec_bytes()),
{
    sha256(network_passphrase.as_bytes())
}

/// What a read-only simulation yields: the base64 XDR of the first
/// result, unless the simulation reported an error or returned no result.
pub open spec fn simulation_outcome(result: &SimulateTransactionResult) -> Result<Seq<char>, SdkErrorView> {
    match result.error {
        Some(e) => Err(SdkErrorView::RpcError(e@)),
        None => if result.results@.len() == 0 {
            Err(SdkErrorView::RpcError("simulateTransaction returned no results"@))
        } else {
            Ok(result.results@[0].xdr@)
        },
    }
}

/// The return value of a read-only simulation: the base64 XDR of its first
/// result. Fails with the simulation's own error, or when it returned no
/// result.
pub fn simulation_result_xdr(result: &SimulateTransactionResult) -> (res: Result<String, SdkError>)
    ensures
        match res {
            Ok(x) => simulation_outcome(result) == Ok::<Seq<char>, SdkErrorView>(x@),
            Err(e) => simulation_outcome(result) == Err::<Seq<char>, SdkErrorView>(e@),
        },
{
    match &result.error {
        Some(e) => {
            return Err(SdkError::RpcError(e.clone()));
        },
        None => {},
    }
    if result.results.len() == 0 {
        return Err(SdkError::RpcError(String::from_str("simulateTransaction returned no results")));
    }
    Ok(result.results[0].xdr.clone())
}

/// What a simulation of a write yields for the real submission: the base64
/// `SorobanTransactionData` it must carry, unless the simulation reported
/// an error or returned no transaction data.
pub open spec fn transaction_data_outcome(sim: &SimulateTransactionResult) -> Result<Seq<char>, SdkErrorView> {
    match sim.error {
        Some(e) => Err(SdkErrorView::RpcError(e@)),
        None => match sim.transaction_data {
            Some(d) => Ok(d@),
            None => Err(
                SdkErrorView::RpcError("simulation succeeded but returned no transactionData"@),
            ),
        },
    }
}

/// The transaction data a write must carry, from its simulation.
pub fn simulation_transaction_data(sim: &SimulateTransactionResult) -> (res: Result<String, SdkError>)
    ensures
        match res {
            Ok(x) => transaction_data_outcome(sim) == Ok::<Seq<char>, SdkErrorView>(x@),
            Err(e) => transaction_data_outcome(sim) == Err::<Seq<char>, SdkErrorView>(e@),
        },
{
    match &sim.error {
        Some(e) => {
            return Err(SdkError::RpcError(e.clone()));
        },
        None => {},
    }
    match &sim.transaction_data {
        Some(d) => Ok(d.clone()),
        None => Err(
            SdkError::RpcError(String::from_str("simulation succeeded but returned no transactionData")),
        ),
    }
}

/// The fee a submission offers: `BASE_FEE` plus the minimum resource fee
/// that simulation reported (0 when absent), provided it is a decimal
/// integer and the sum fits in a `u32`.
pub open spec fn submission_fee_outcome(min_resource_fee: Option<Seq<char>>) -> Option<u32> {
    match parsed_i64(fee_text(min_resource_fee)) {
        Some(r) => if 0 <= BASE_FEE + r <= u32::MAX {
            Some((BASE_FEE + r) as u32)
        } else {
            None
        },
        None => None,
    }
}

/// The reported minimum resource fee, `0` when none was reported.
pub open spec fn fee_text(min_resource_fee: Option<Seq<char>>) -> Seq<char> {
    match min_resource_fee {
        Some(t) => t,
        None => "0"@,
    }
}

/// The model of an optional string.
pub open spec fn opt_text(s: &Option<String>) -> Option<Seq<char>> {
    match s {
        Some(t) => Some(t@),
        None => None,
    }
}

/// The total fee of a submission, from the minimum resource fee that
/// simulation reported. Fails with an `RpcError` when the reported fee is
/// not a decimal integer (`invalid minResourceFee: ...`) or the total does
/// not fit in a `u32` (`computed fee overflowed u32`).
pub fn submission_fee(min_resource_fee: &Option<String>) -> (res: Result<u32, SdkError>)
    ensures
        res matches Ok(f) ==> submission_fee_outcome(opt_text(min_resource_fee)) == Some(f),
        res is Err ==> submission_fee_outcome(opt_text(min_resource_fee)) is None,
        res matches Err(e) ==> e@ matches SdkErrorView::RpcError(m) && (if parsed_i64(
            fee_text(opt_text(min_resource_fee)),
        ) is None {
            starts_with(m, "invalid minResourceFee: "@)
        } else {
            m == "computed fee overflowed u32"@
        }),
{
    let text: &str = match min_resource_fee {
        Some(t) => t.as_str(),
        None => "0",
    };
    let resource_fee = match parse_i64(text) {
        Ok(r) => r,
        Err(detail) => {
            let mut msg = String::from_str("invalid minResourceFee: ");
            msg.append(detail.as_str());
            assert(msg@.subrange(0, "invalid minResourceFee: "@.len() as int) =~= "invalid minResourceFee: "@);
            return Err(SdkError::RpcError(msg));
        },
    };
    let total: i128 = (BASE_FEE as i128) + (resource_fee as i128);
    if total < 0 || total > (u32::MAX as i128) {
        return Err(SdkError::RpcError(String::from_str("computed fee overflowed u32")));
    }
    Ok(total as u32)
}

/// The sequence number of the next transaction of an account whose current
/// sequence number is `current`; fails when it would overflow.
pub fn next_sequence_number(current: i64) -> (res: Result<i64, SdkError>)
    ensures
        res matches Ok(n) ==> n == current + 1,
        res is Err <==> current == i64::MAX,
        res matches Err(e) ==> e@ == SdkErrorView::RpcError("sequence number overflowed"@),
{
    if current == i64::MAX {
        return Err(SdkError::RpcError(String::from_str("sequence number overflowed")));
    }
    Ok(current + 1)
}

} // verus!
