//! Soroban RPC: JSON-RPC request bodies, response payloads, and what the
//! SDK makes of a decoded response.
use vstd::prelude::*;
use crate::errors::{SdkError, SdkErrorView};
use crate::text::{i64_to_string, int_decimal, starts_with};
use soroban_sdk::xdr::{Limits, ReadXdr, TransactionEnvelope};

verus! {

/// A decoded JSON-RPC response envelope: either a `result` or an `error`.
#[derive(Debug)]
pub enum JsonRpcResponse<T> {
    Result { jsonrpc: String, id: u32, result: T },
    Error { jsonrpc: String, id: u32, error: JsonRpcError },
}

/// A JSON-RPC level error object.
#[derive(Debug)]
pub struct JsonRpcError {
    pub code: i64,
    pub message: String,
}

/// The `result` payload of a Soroban `sendTransaction` response.
#[derive(Debug)]
pub struct SendTransactionResult {
    pub status: String,
    pub hash: String,
    pub latest_ledger: u32,
    pub error_result_xdr: Option<String>,
}

/// The `result` payload of a Soroban `getTransaction` response.
#[derive(Debug)]
pub struct GetTransactionResult {
    pub status: String,
    pub latest_ledger: u32,
    pub envelope_xdr: Option<String>,
    pub result_xdr: Option<String>,
}

/// A JSON-RPC request body.
#[derive(Debug)]
pub struct JsonRpcRequest<P> {
    pub jsonrpc: String,
    pub id: u32,
    pub method: String,
    pub params: P,
}

#[derive(Debug)]
pub struct SendTransactionParams {
    pub transaction: String,
}

#[derive(Debug)]
pub struct GetTransactionParams {
    pub hash: String,
}

#[derive(Debug)]
pub struct SimulateTransactionParams {
    pub transaction: String,
}

/// The `result` payload of a Soroban `simulateTransaction` response.
#[derive(Debug)]
pub struct SimulateTransactionResult {
    pub latest_ledger: u32,
    pub error: Option<String>,
    pub results: Vec<SimulateHostFunctionResult>,
    pub transaction_data: Option<String>,
    pub min_resource_fee: Option<String>,
    pub restore_preamble: Option<RestorePreamble>,
}

/// Preamble returned when simulation touches an archived entry.
#[derive(Debug)]
pub struct RestorePreamble {
    pub transaction_data: String,
    pub min_resource_fee: String,
}

/// One entry of a successful simulation's `results` array.
#[derive(Debug)]
pub struct SimulateHostFunctionResult {
    pub xdr: String,
}

#[derive(Debug)]
pub struct GetLedgerEntriesParams {
    pub keys: Vec<String>,
}

/// The `result` payload of a Soroban `getLedgerEntries` response.
#[derive(Debug)]
pub struct GetLedgerEntriesResult {
    pub entries: Vec<LedgerEntryResult>,
    pub latest_ledger: u32,
}

#[derive(Debug)]
pub struct LedgerEntryResult {
    pub key: String,
    pub xdr: String,
    pub last_modified_ledger_seq: u32,
    pub live_until_ledger_seq: Option<u32>,
}


/// Per-request timeout, in milliseconds, unless overridden with
/// [`RpcClient::with_timeout`].
pub const DEFAULT_RPC_TIMEOUT_MS: u64 = 10_000;

/// A Soroban RPC endpoint, e.g. `https://soroban-testnet.stellar.org`,
/// and the per-request timeout applied to every request sent to it.
#[derive(Debug)]
pub struct RpcClient {
    pub network_url: String,
    /// The per-request timeout, in milliseconds.
    pub timeout_ms: u64,
}

impl<P> JsonRpcRequest<P> {
    /// A JSON-RPC 2.0 request with id 1 for `method`.
    pub fn new(method: &str, params: P) -> (res: Self)
        ensures
            res.jsonrpc@ == "2.0"@,
            res.id == 1,
            res.method@ == method@,
            res.params == params,
    {
        JsonRpcRequest { jsonrpc: String::from_str("2.0"), id: 1, method: String::from_str(method), params }
    }
}

/// What a decoded response envelope yields: its `result`, or for an
/// `error` object an `RpcError` whose message is the error code in decimal,
/// `": "`, and the error message.
pub open spec fn response_outcome<T>(response: JsonRpcResponse<T>) -> Result<T, SdkErrorView> {
    match response {
        JsonRpcResponse::Result { result, .. } => Ok(result),
        JsonRpcResponse::Error { error, .. } => Err(
            SdkErrorView::RpcError(int_decimal(error.code as int) + ": "@ + error.message@),
        ),
    }
}

/// The model of an SDK result.
pub open spec fn sdk_outcome<T>(r: Result<T, SdkError>) -> Result<T, SdkErrorView> {
    match r {
        Ok(v) => Ok(v),
        Err(e) => Err(e@),
    }
}

/// Unwraps a decoded JSON-RPC response envelope into its `result`, or turns
/// a JSON-RPC level `error` into an [`SdkError::RpcError`].
pub fn resolve_response<T>(response: JsonRpcResponse<T>) -> (res: Result<T, SdkError>)
    ensures
        sdk_outcome(res) == response_outcome(response),
{
    match response {
        JsonRpcResponse::Result { result, .. } => Ok(result),
        JsonRpcResponse::Error { error, .. } => {
            let mut msg = i64_to_string(error.code);
            msg.append(": ");
            msg.append(error.message.as_str());
            Err(SdkError::RpcError(msg))
        },
    }
}

/// The kinds of transaction envelope.
#[derive(Clone, Copy, Debug, PartialEq, Eq, Structural)]
pub enum EnvelopeVariant {
    TxV0,
    Tx,
    TxFeeBump,
}

/// The name of an envelope kind.
pub open spec fn envelope_variant_name(v: EnvelopeVariant) -> Seq<char> {
    match v {
        EnvelopeVariant::TxV0 => "TxV0"@,
        EnvelopeVariant::Tx => "Tx"@,
        EnvelopeVariant::TxFeeBump => "TxFeeBump"@,
    }
}

/// The kind of the transaction envelope whose base64 XDR is `xdr`, or
/// `None` when it does not decode with values nested at most `depth` deep.
pub uninterp spec fn envelope_variant_of(xdr: Seq<char>, depth: u32) -> Option<EnvelopeVariant>;

/// Deepest nesting of XDR values that is read or written. Deeper input is
/// refused instead of exhausting the stack; 100 is the Soroban host's own
/// default.
pub const XDR_DEPTH_LIMIT: u32 = 100;

/// Decodes the base64 XDR `TransactionEnvelope` with `ReadXdr::from_xdr_base64`
/// of `soroban_sdk::xdr`, nesting limited to `depth`, and reports its kind.
/// On failure the decoder error's debug text is returned; that text is not
/// stated.
#[verifier::external_body]
fn decode_envelope_variant(xdr: &str, depth: u32) -> (res: Result<EnvelopeVariant, String>)
    ensures
        res matches Ok(v) ==> envelope_variant_of(xdr@, depth) == Some(v),
        res is Err ==> envelope_variant_of(xdr@, depth) is None,
{
    match TransactionEnvelope::from_xdr_base64(xdr, Limits::depth(depth)) {
        Ok(TransactionEnvelope::TxV0(_)) => Ok(EnvelopeVariant::TxV0),
        Ok(TransactionEnvelope::Tx(_)) => Ok(EnvelopeVariant::Tx),
        Ok(TransactionEnvelope::TxFeeBump(_)) => Ok(EnvelopeVariant::TxFeeBump),
        Err(err) => Err(format!("{err:?}")),
    }
}

/// A `getTransaction` result is usable when it carries no envelope, or a
/// V1 (`Tx`) envelope.
pub open spec fn envelope_supported(result: &GetTransactionResult) -> bool {
    match result.envelope_xdr {
        None => true,
        Some(x) => envelope_variant_of(x@, XDR_DEPTH_LIMIT) == Some(EnvelopeVariant::Tx),
    }
}

/// `m` is the message that rejects the envelope of `result`: it names the
/// unsupported kind, or says that the envelope did not decode.
pub open spec fn envelope_rejection(result: &GetTransactionResult, m: Seq<char>) -> bool {
    match result.envelope_xdr {
        Some(x) => match envelope_variant_of(x@, XDR_DEPTH_LIMIT) {
            Some(v) => m == "unsupported transaction envelope variant: "@ + envelope_variant_name(v),
            None => starts_with(m, "failed to decode envelopeXdr: "@),
        },
        None => false,
    }
}

/// Rejects a `getTransaction` result whose envelope is not a V1 envelope:
/// a `DecodingError` that names the unsupported kind, or says that the
/// envelope did not decode.
pub fn validate_supported_transaction_envelope(result: &GetTransactionResult) -> (res: Result<
    (),
    SdkError,
>)
    ensures
        res is Ok <==> envelope_supported(result),
        res matches Err(e) ==> (e@ matches SdkErrorView::DecodingError(m) && envelope_rejection(
            result,
            m,
        )),
{
    let envelope_xdr = match &result.envelope_xdr {
        Some(x) => x,
        None => {
            return Ok(());
        },
    };
    match decode_envelope_variant(envelope_xdr.as_str(), XDR_DEPTH_LIMIT) {
        Ok(EnvelopeVariant::Tx) => Ok(()),
        Ok(EnvelopeVariant::TxV0) => {
            proof {
                reveal_strlit("unsupported transaction envelope variant: TxV0");
                reveal_strlit("unsupported transaction envelope variant: ");
                reveal_strlit("TxV0");
                assert("unsupported transaction envelope variant: TxV0"@ =~= "unsupported transaction envelope variant: "@
                    + "TxV0"@);
            }
            Err(SdkError::DecodingError(String::from_str("unsupported transaction envelope variant: TxV0")))
        },
        Ok(EnvelopeVariant::TxFeeBump) => {
            proof {
                reveal_strlit("unsupported transaction envelope variant: TxFeeBump");
                reveal_strlit("unsupported transaction envelope variant: ");
                reveal_strlit("TxFeeBump");
                assert("unsupported transaction envelope variant: TxFeeBump"@
                    =~= "unsupported transaction envelope variant: "@ + "TxFeeBump"@);
            }
            Err(
                SdkError::DecodingError(
                    String::from_str("unsupported transaction envelope variant: TxFeeBump"),
                ),
            )
        },
        Err(detail) => {
            let mut msg = String::from_str("failed to decode envelopeXdr: ");
            msg.append(detail.as_str());
            assert(msg@.subrange(0, "failed to decode envelopeXdr: "@.len() as int)
                =~= "failed to decode envelopeXdr: "@);
            Err(SdkError::DecodingError(msg))
        },
    }
}

impl RpcClient {
    /// A client of `network_url` with the default timeout.
    pub fn new(network_url: String) -> (res: Self)
        ensures
            res.network_url@ == network_url@,
            res.timeout_ms == DEFAULT_RPC_TIMEOUT_MS,
    {
        RpcClient { network_url, timeout_ms: DEFAULT_RPC_TIMEOUT_MS }
    }

    /// The same client with its per-request timeout set to `timeout_ms`.
    pub fn with_timeout(self, timeout_ms: u64) -> (res: Self)
        ensures
            res.network_url@ == self.network_url@,
            res.timeout_ms == timeout_ms,
    {
        RpcClient { network_url: self.network_url, timeout_ms }
    }

    /// The per-request timeout, in milliseconds.
    pub fn timeout(&self) -> (res: u64)
        ensures
            res == self.timeout_ms,
    {
        self.timeout_ms
    }

    /// The `sendTransaction` request for the base64 envelope `tx_envelope_xdr`.
    pub fn build_send_transaction_request(&self, tx_envelope_xdr: &str) -> (res: JsonRpcRequest<
        SendTransactionParams,
    >)
        ensures
            res.jsonrpc@ == "2.0"@,
            res.id == 1,
            res.method@ == "sendTransaction"@,
            res.params.transaction@ == tx_envelope_xdr@,
    {
        JsonRpcRequest::new(
            "sendTransaction",
            SendTransactionParams { transaction: String::from_str(tx_envelope_xdr) },
        )
    }

    /// The `getTransaction` request polling for `tx_hash`.
    pub fn build_get_transaction_request(&self, tx_hash: &str) -> (res: JsonRpcRequest<
        GetTransactionParams,
    >)
        ensures
            res.jsonrpc@ == "2.0"@,
            res.id == 1,
            res.method@ == "getTransaction"@,
            res.params.hash@ == tx_hash@,
    {
        JsonRpcRequest::new("getTransaction", GetTransactionParams { hash: String::from_str(tx_hash) })
    }

    /// The `simulateTransaction` request for the base64 envelope
    /// `tx_envelope_xdr`.
    pub fn build_simulate_transaction_request(&self, tx_envelope_xdr: &str) -> (res: JsonRpcRequest<
        SimulateTransactionParams,
    >)
        ensures
            res.jsonrpc@ == "2.0"@,
            res.id == 1,
            res.method@ == "simulateTransaction"@,
            res.params.transaction@ == tx_envelope_xdr@,
    {
        JsonRpcRequest::new(
            "simulateTransaction",
            SimulateTransactionParams { transaction: String::from_str(tx_envelope_xdr) },
        )
    }

    /// The `getLedgerEntries` request for the base64 ledger keys `keys`.
    pub fn build_get_ledger_entries_request(&self, keys: Vec<String>) -> (res: JsonRpcRequest<
        GetLedgerEntriesParams,
    >)
        ensures
            res.jsonrpc@ == "2.0"@,
            res.id == 1,
            res.method@ == "getLedgerEntries"@,
            res.params.keys == keys,
    {
        JsonRpcRequest::new("getLedgerEntries", GetLedgerEntriesParams { keys })
    }

    /// The outcome of a decoded `sendTransaction` response.
    pub fn parse_send_transaction_response(
        &self,
        response: JsonRpcResponse<SendTransactionResult>,
    ) -> (res: Result<SendTransactionResult, SdkError>)
        ensures
            sdk_outcome(res) == response_outcome(response),
    {
        resolve_response(response)
    }

    /// The outcome of a decoded `getTransaction` response: its result,
    /// provided the result's envelope is supported.
    pub fn parse_get_transaction_response(
        &self,
        response: JsonRpcResponse<GetTransactionResult>,
    ) -> (res: Result<GetTransactionResult, SdkError>)
        ensures
            response_outcome(response) matches Err(e) ==> sdk_outcome(res) == Err::<
                GetTransactionResult,
                SdkErrorView,
            >(e),
            response_outcome(response) matches Ok(r) ==> (if envelope_supported(&r) {
                sdk_outcome(res) == Ok::<GetTransactionResult, SdkErrorView>(r)
            } else {
                res matches Err(e) && e@ matches SdkErrorView::DecodingError(m)
                    && envelope_rejection(&r, m)
            }),
    {
        let result = resolve_response(response)?;
        match validate_supported_transaction_envelope(&result) {
            Ok(()) => Ok(result),
            Err(e) => Err(e),
        }
    }

    /// The outcome of a decoded `simulateTransaction` response.
    pub fn parse_simulate_transaction_response(
        &self,
        response: JsonRpcResponse<SimulateTransactionResult>,
    ) -> (res: Result<SimulateTransactionResult, SdkError>)
        ensures
            sdk_outcome(res) == response_outcome(response),
    {
        resolve_response(response)
    }

    /// The outcome of a decoded `getLedgerEntries` response.
    pub fn parse_get_ledger_entries_response(
        &self,
        response: JsonRpcResponse<GetLedgerEntriesResult>,
    ) -> (res: Result<GetLedgerEntriesResult, SdkError>)
        ensures
            sdk_outcome(res) == response_outcome(response),
    {
        resolve_response(response)
    }
}

} // verus!
