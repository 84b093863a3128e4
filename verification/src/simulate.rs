//! Invoke transactions for Soroban RPC: unsigned ones for
//! `simulateTransaction`, and signed ones for `sendTransaction`.
//!
//! Simulation never touches ledger state and needs no valid signature, so
//! read-only contract calls can go through it without a signing key. A
//! fixed placeholder source account is used for every simulated read: RPC
//! only needs a syntactically valid account to build the envelope.
use vstd::prelude::*;
use vstd::string::StringSliceAdditionalSpecFns;
use crate::client::network_id;
use crate::crypto::{sha256, sha256_digest, MAX_HOST_INPUT};
use crate::errors::{SdkError, SdkErrorView};
use crate::rpc::XDR_DEPTH_LIMIT;
use crate::signature::{derive_public_key, ed25519_public_key, ed25519_signature, generate_delegated_signature};
use crate::text::starts_with;
use crate::types::append_bytes;
use soroban_sdk::xdr::{
    ContractId, DecoratedSignature, HostFunction, InvokeContractArgs, InvokeHostFunctionOp, Limits,
    Operation, OperationBody, ReadXdr, ScAddress, ScVal, SequenceNumber, Signature, SignatureHint,
    SorobanAuthorizationEntry, SorobanTransactionData, Transaction, TransactionEnvelope,
    TransactionExt, TransactionV1Envelope, Uint256, VecM, WriteXdr,
};

verus! {

/// `soroban_sdk::xdr::ScVal`, a contract call argument; the library only
/// carries such values into the transaction it builds.
#[verifier::external_type_specification]
#[verifier::external_body]
pub struct ExScVal(soroban_sdk::xdr::ScVal);

/// Source account of every simulated (never signed, never submitted)
/// transaction.
pub const PLACEHOLDER_SOURCE_ACCOUNT: [u8; 32] = [0, 0, 0, 0, 0, 0, 0, 0, 0, 0, 0, 0, 0, 0, 0, 0, 0, 0, 0, 0, 0, 0, 0, 0, 0, 0, 0, 0, 0, 0, 0, 0];

/// Fee, in stroops, written into a simulated transaction.
pub const SIMULATION_FEE: u32 = 100;

/// Longest contract function name: a Soroban symbol holds at most 32 bytes.
pub const MAX_FUNCTION_NAME_LEN: usize = 32;

/// The 32-byte payload of the contract strkey (`C...`) `text`, or `None`
/// when `text` is not a valid contract strkey.
pub uninterp spec fn contract_strkey_payload(text: Seq<char>) -> Option<Seq<u8>>;

/// The base64 XDR of the V1 envelope, without signatures, of a transaction
/// from `source` (an ed25519 account) with fee `fee` and sequence number
/// `sequence`, no preconditions, no memo and no Soroban data, whose single
/// operation invokes `function_name` on contract `contract` with `args`;
/// `None` when the arguments nest deeper than `depth`.
pub uninterp spec fn invoke_envelope_base64(
    source: Seq<u8>,
    fee: u32,
    sequence: i64,
    contract: Seq<u8>,
    function_name: Seq<u8>,
    args: Seq<ScVal>,
    depth: u32,
) -> Option<Seq<char>>;

/// The XDR of the operation that invokes `function_name` on contract
/// `contract` with `args`, carrying the authorization entries whose base64
/// XDR is `auth`; `None` when an entry does not decode, or when a value
/// nests deeper than `depth`.
pub uninterp spec fn invoke_operation_xdr(
    contract: Seq<u8>,
    function_name: Seq<u8>,
    args: Seq<ScVal>,
    auth: Seq<Seq<char>>,
    depth: u32,
) -> Option<Seq<u8>>;

/// The XDR of the transaction from `source` (an ed25519 account) with fee
/// `fee` and sequence number `sequence`, no preconditions and no memo,
/// whose single operation has XDR `operation` and whose Soroban data has
/// base64 XDR `transaction_data`; `None` when either does not decode, or
/// when a value nests deeper than `depth`.
pub uninterp spec fn invoke_transaction_xdr(
    source: Seq<u8>,
    fee: u32,
    sequence: i64,
    operation: Seq<u8>,
    transaction_data: Seq<char>,
    depth: u32,
) -> Option<Seq<u8>>;

/// The base64 XDR of the V1 envelope of the transaction with XDR
/// `transaction`, carrying one signature `signature` with hint `hint`;
/// `None` when the transaction does not decode, or nests deeper than
/// `depth`.
pub uninterp spec fn signed_envelope_base64(
    transaction: Seq<u8>,
    hint: Seq<u8>,
    signature: Seq<u8>,
    depth: u32,
) -> Option<Seq<char>>;

/// Decodes a contract strkey with `stellar_strkey::Contract::from_string`.
/// On failure the decoder error's debug text is returned; that text is not
/// stated.
#[verifier::external_body]
pub(crate) fn decode_contract_id(contract_id: &str) -> (res: Result<[u8; 32], String>)
    ensures
        res matches Ok(c) ==> contract_strkey_payload(contract_id@) == Some(c@),
        res is Err ==> contract_strkey_payload(contract_id@) is None,
{
    match stellar_strkey::Contract::from_string(contract_id) {
        Ok(c) => Ok(c.0),
        Err(e) => Err(format!("{e:?}")),
    }
}

/// Builds the unsigned V1 envelope described by `invoke_envelope_base64`
/// with the XDR types of `soroban_sdk::xdr` and encodes it with
/// `WriteXdr::to_xdr_base64`, nesting limited to `depth`. The name and
/// argument list must fit a Soroban symbol and an XDR vector. On failure the
/// error's debug text is returned; that text is not stated.
#[verifier::external_body]
fn encode_invoke_envelope(
    source: [u8; 32],
    fee: u32,
    sequence: i64,
    contract: [u8; 32],
    function_name: &[u8],
    args: Vec<ScVal>,
    depth: u32,
) -> (res: Result<String, String>)
    requires
        function_name@.len() <= MAX_FUNCTION_NAME_LEN,
        args@.len() <= u32::MAX,
    ensures
        res is Ok <==> invoke_envelope_base64(source@, fee, sequence, contract@, function_name@, args@, depth) is Some,
        res matches Ok(x) ==> invoke_envelope_base64(source@, fee, sequence, contract@, function_name@, args@, depth) == Some(x@),
{
    let call = InvokeContractArgs {
        contract_address: ScAddress::Contract(ContractId(soroban_sdk::xdr::Hash(contract))),
        function_name: function_name.to_vec().try_into().unwrap(),
        args: args.try_into().unwrap(),
    };
    let op = InvokeHostFunctionOp { host_function: HostFunction::InvokeContract(call), auth: VecM::default() };
    let tx = Transaction {
        source_account: Uint256(source).into(),
        fee,
        seq_num: SequenceNumber(sequence),
        operations: vec![Operation { source_account: None, body: OperationBody::InvokeHostFunction(op) }].try_into().unwrap(),
        ..Default::default()
    };
    TransactionEnvelope::Tx(TransactionV1Envelope { tx, signatures: VecM::default() }).to_xdr_base64(Limits::depth(depth)).map_err(|e| format!("{e:?}"))
}

/// Builds the operation described by `invoke_operation_xdr`: decodes each
/// authorization entry with `ReadXdr::from_xdr_base64` and writes the
/// operation with `WriteXdr::to_xdr`, nesting limited to `depth`. The name,
/// argument list and entry list must fit a Soroban symbol and XDR vectors.
/// On failure the error's debug text is returned; that text is not stated.
#[verifier::external_body]
fn encode_invoke_operation(
    contract: [u8; 32],
    function_name: &[u8],
    args: Vec<ScVal>,
    auth_xdr: &Vec<String>,
    depth: u32,
) -> (res: Result<Vec<u8>, String>)
    requires
        function_name@.len() <= MAX_FUNCTION_NAME_LEN,
        args@.len() <= u32::MAX,
        auth_xdr@.len() <= u32::MAX,
    ensures
        res is Ok <==> invoke_operation_xdr(contract@, function_name@, args@, strings_view(auth_xdr@), depth) is Some,
        res matches Ok(x) ==> invoke_operation_xdr(contract@, function_name@, args@, strings_view(auth_xdr@), depth) == Some(x@),
{
    let auth = auth_xdr.iter().map(|a| SorobanAuthorizationEntry::from_xdr_base64(a, Limits::depth(depth))).collect::<Result<Vec<_>, _>>().map_err(|e| format!("{e:?}"))?;
    let call = InvokeContractArgs {
        contract_address: ScAddress::Contract(ContractId(soroban_sdk::xdr::Hash(contract))),
        function_name: function_name.to_vec().try_into().unwrap(),
        args: args.try_into().unwrap(),
    };
    let op = InvokeHostFunctionOp { host_function: HostFunction::InvokeContract(call), auth: auth.try_into().unwrap() };
    Operation { source_account: None, body: OperationBody::InvokeHostFunction(op) }.to_xdr(Limits::depth(depth)).map_err(|e| format!("{e:?}"))
}

/// Builds the transaction described by `invoke_transaction_xdr`: decodes
/// the operation with `ReadXdr::from_xdr` and the Soroban data with
/// `ReadXdr::from_xdr_base64`, and writes the transaction with
/// `WriteXdr::to_xdr`, nesting limited to `depth`. On failure the error's
/// debug text is returned; that text is not stated.
#[verifier::external_body]
fn encode_invoke_transaction(
    source: [u8; 32],
    fee: u32,
    sequence: i64,
    operation_xdr: &[u8],
    transaction_data_xdr: &str,
    depth: u32,
) -> (res: Result<Vec<u8>, String>)
    ensures
        res is Ok <==> invoke_transaction_xdr(source@, fee, sequence, operation_xdr@, transaction_data_xdr@, depth) is Some,
        res matches Ok(x) ==> invoke_transaction_xdr(source@, fee, sequence, operation_xdr@, transaction_data_xdr@, depth) == Some(x@),
{
    let operation = Operation::from_xdr(operation_xdr, Limits::depth(depth)).map_err(|e| format!("{e:?}"))?;
    let data = SorobanTransactionData::from_xdr_base64(transaction_data_xdr, Limits::depth(depth)).map_err(|e| format!("{e:?}"))?;
    let tx = Transaction {
        source_account: Uint256(source).into(),
        fee,
        seq_num: SequenceNumber(sequence),
        operations: vec![operation].try_into().unwrap(),
        ext: TransactionExt::V1(data),
        ..Default::default()
    };
    tx.to_xdr(Limits::depth(depth)).map_err(|e| format!("{e:?}"))
}

/// Builds the envelope described by `signed_envelope_base64`: decodes the
/// transaction with `ReadXdr::from_xdr` and encodes the V1 envelope with
/// `WriteXdr::to_xdr_base64`, nesting limited to `depth`. On failure the
/// error's debug text is returned; that text is not stated.
#[verifier::external_body]
fn encode_signed_envelope(
    transaction_xdr: &[u8],
    hint: [u8; 4],
    signature: [u8; 64],
    depth: u32,
) -> (res: Result<String, String>)
    ensures
        res is Ok <==> signed_envelope_base64(transaction_xdr@, hint@, signature@, depth) is Some,
        res matches Ok(x) ==> signed_envelope_base64(transaction_xdr@, hint@, signature@, depth) == Some(x@),
{
    let tx = Transaction::from_xdr(transaction_xdr, Limits::depth(depth)).map_err(|e| format!("{e:?}"))?;
    let signature = DecoratedSignature { hint: SignatureHint(hint), signature: Signature(signature.to_vec().try_into().unwrap()) };
    let envelope = TransactionV1Envelope { tx, signatures: vec![signature].try_into().unwrap() };
    TransactionEnvelope::Tx(envelope).to_xdr_base64(Limits::depth(depth)).map_err(|e| format!("{e:?}"))
}

/// The texts of `v`.
pub open spec fn strings_view(v: Seq<String>) -> Seq<Seq<char>> {
    v.map_values(|s: String| s@)
}

/// `res` is an `RpcError` whose message begins with `prefix`.
pub open spec fn rpc_error_starting_with<T>(res: Result<T, SdkError>, prefix: Seq<char>) -> bool {
    res matches Err(e) && e@ matches SdkErrorView::RpcError(m) && starts_with(m, prefix)
}

/// `prefix` followed by `detail`.
fn message(prefix: String, detail: &str) -> (res: String)
    ensures
        res@ == prefix@ + detail@,
        starts_with(res@, prefix@),
{
    let mut m = prefix;
    m.append(detail);
    assert(m@.subrange(0, prefix@.len() as int) =~= prefix@);
    m
}

/// What an unsigned invoke envelope build yields: the envelope of
/// `invoke_envelope_base64`, when the contract id is a contract strkey, the
/// name fits a symbol and the arguments fit an XDR vector.
pub open spec fn unsigned_invoke_outcome(
    source: Seq<u8>,
    sequence: i64,
    fee: u32,
    contract_id: Seq<char>,
    function_name: Seq<u8>,
    args: Seq<ScVal>,
) -> Option<Seq<char>> {
    match contract_strkey_payload(contract_id) {
        Some(c) => if function_name.len() <= MAX_FUNCTION_NAME_LEN && args.len() <= u32::MAX {
            invoke_envelope_base64(source, fee, sequence, c, function_name, args, XDR_DEPTH_LIMIT)
        } else {
            None
        },
        None => None,
    }
}

/// Decodes `contract_id`, or fails with `invalid contract id <id>: ...`.
fn contract_of(contract_id: &str) -> (res: Result<[u8; 32], SdkError>)
    ensures
        res matches Ok(c) ==> contract_strkey_payload(contract_id@) == Some(c@),
        res is Err ==> contract_strkey_payload(contract_id@) is None && rpc_error_starting_with(
            res,
            "invalid contract id "@ + contract_id@ + ": "@,
        ),
{
    match decode_contract_id(contract_id) {
        Ok(c) => Ok(c),
        Err(detail) => {
            let mut prefix = String::from_str("invalid contract id ");
            prefix.append(contract_id);
            prefix.append(": ");
            Err(SdkError::RpcError(message(prefix, detail.as_str())))
        },
    }
}

/// Builds a base64-encoded unsigned `TransactionEnvelope` from the account
/// `source`, with sequence number `sequence` and fee `fee`, invoking
/// `function_name` on `contract_id` with `args`. Fails with an `RpcError`:
/// `invalid contract id <id>: ...` when `contract_id` is not a contract
/// strkey, `invalid function name: LengthExceedsMax` when the name exceeds
/// 32 bytes, `too many arguments: LengthExceedsMax` when the arguments do
/// not fit an XDR vector, and `failed to encode transaction xdr: ...` when
/// the arguments nest deeper than `XDR_DEPTH_LIMIT`.
pub fn build_unsigned_invoke_transaction_xdr(
    source: [u8; 32],
    sequence: i64,
    fee: u32,
    contract_id: &str,
    function_name: &str,
    args: Vec<ScVal>,
) -> (res: Result<String, SdkError>)
    ensures
        res is Ok <==> unsigned_invoke_outcome(
            source@,
            sequence,
            fee,
            contract_id@,
            function_name.spec_bytes(),
            args@,
        ) is Some,
        res matches Ok(x) ==> unsigned_invoke_outcome(
            source@,
            sequence,
            fee,
            contract_id@,
            function_name.spec_bytes(),
            args@,
        ) == Some(x@),
        res matches Err(e) ==> e@ is RpcError,
        contract_strkey_payload(contract_id@) is None ==> rpc_error_starting_with(
            res,
            "invalid contract id "@ + contract_id@ + ": "@,
        ),
        contract_strkey_payload(contract_id@) is Some && function_name.spec_bytes().len()
            > MAX_FUNCTION_NAME_LEN ==> (res matches Err(e) && e@ == SdkErrorView::RpcError(
            "invalid function name: LengthExceedsMax"@,
        )),
        contract_strkey_payload(contract_id@) is Some && function_name.spec_bytes().len()
            <= MAX_FUNCTION_NAME_LEN && args@.len() > u32::MAX ==> (res matches Err(e) && e@
            == SdkErrorView::RpcError("too many arguments: LengthExceedsMax"@)),
        res is Err && contract_strkey_payload(contract_id@) is Some
            && function_name.spec_bytes().len() <= MAX_FUNCTION_NAME_LEN && args@.len()
            <= u32::MAX ==> rpc_error_starting_with(res, "failed to encode transaction xdr: "@),
{
    let contract = contract_of(contract_id)?;
    let name = function_name.as_bytes();
    if name.len() > MAX_FUNCTION_NAME_LEN {
        return Err(SdkError::RpcError(String::from_str("invalid function name: LengthExceedsMax")));
    }
    if args.len() as u64 > 0xFFFF_FFFFu64 {
        return Err(SdkError::RpcError(String::from_str("too many arguments: LengthExceedsMax")));
    }
    match encode_invoke_envelope(source, fee, sequence, contract, name, args, XDR_DEPTH_LIMIT) {
        Ok(x) => Ok(x),
        Err(detail) => Err(
            SdkError::RpcError(
                message(String::from_str("failed to encode transaction xdr: "), detail.as_str()),
            ),
        ),
    }
}

/// Builds a base64-encoded unsigned `TransactionEnvelope` invoking
/// `function_name` on `contract_id` with `args`, from the placeholder
/// source account with sequence number 0 and fee `SIMULATION_FEE`,
/// suitable for `simulateTransaction`. It succeeds exactly when the
/// contract id is a contract strkey, the name fits a symbol, the arguments
/// fit an XDR vector and they nest at most `XDR_DEPTH_LIMIT` deep; the
/// errors are those of `build_unsigned_invoke_transaction_xdr`.
pub fn build_invoke_transaction_xdr(contract_id: &str, function_name: &str, args: Vec<ScVal>) -> (res:
    Result<String, SdkError>)
    ensures
        res is Ok <==> unsigned_invoke_outcome(
            PLACEHOLDER_SOURCE_ACCOUNT@,
            0,
            SIMULATION_FEE,
            contract_id@,
            function_name.spec_bytes(),
            args@,
        ) is Some,
        res matches Ok(x) ==> unsigned_invoke_outcome(
            PLACEHOLDER_SOURCE_ACCOUNT@,
            0,
            SIMULATION_FEE,
            contract_id@,
            function_name.spec_bytes(),
            args@,
        ) == Some(x@),
        contract_strkey_payload(contract_id@) is None ==> rpc_error_starting_with(
            res,
            "invalid contract id "@ + contract_id@ + ": "@,
        ),
        contract_strkey_payload(contract_id@) is Some && function_name.spec_bytes().len()
            > MAX_FUNCTION_NAME_LEN ==> (res matches Err(e) && e@ == SdkErrorView::RpcError(
            "invalid function name: LengthExceedsMax"@,
        )),
        contract_strkey_payload(contract_id@) is Some && function_name.spec_bytes().len()
            <= MAX_FUNCTION_NAME_LEN && args@.len() > u32::MAX ==> (res matches Err(e) && e@
            == SdkErrorView::RpcError("too many arguments: LengthExceedsMax"@)),
        res is Err && contract_strkey_payload(contract_id@) is Some
            && function_name.spec_bytes().len() <= MAX_FUNCTION_NAME_LEN && args@.len()
            <= u32::MAX ==> rpc_error_starting_with(res, "failed to encode transaction xdr: "@),
{
    build_unsigned_invoke_transaction_xdr(
        PLACEHOLDER_SOURCE_ACCOUNT,
        0,
        SIMULATION_FEE,
        contract_id,
        function_name,
        args,
    )
}

/// `ENVELOPE_TYPE_TX`, the tag of a V1 transaction in a signature payload.
pub open spec fn envelope_type_tx() -> Seq<u8> {
    seq![0u8, 0u8, 0u8, 2u8]
}

/// The bytes whose SHA-256 digest is signed for transaction `transaction`
/// on the network with id `network_id`: the XDR of a
/// `TransactionSignaturePayload`, which is the network id, the V1
/// transaction tag, then the transaction.
pub open spec fn signature_payload(network_id: Seq<u8>, transaction: Seq<u8>) -> Seq<u8> {
    network_id + envelope_type_tx() + transaction
}

/// What signing an invoke transaction yields: the transaction built from
/// the account of `secret_seed`, signed with it for the network whose
/// passphrase has bytes `passphrase`, provided every piece decodes and the
/// signature payload fits `MAX_HOST_INPUT`.
pub open spec fn signed_invoke_outcome(
    passphrase: Seq<u8>,
    secret_seed: Seq<u8>,
    sequence: i64,
    fee: u32,
    contract_id: Seq<char>,
    function_name: Seq<u8>,
    args: Seq<ScVal>,
    auth: Seq<Seq<char>>,
    transaction_data: Seq<char>,
) -> Option<Seq<char>> {
    let public_key = ed25519_public_key(secret_seed);
    match contract_strkey_payload(contract_id) {
        None => None,
        Some(c) => if function_name.len() > MAX_FUNCTION_NAME_LEN || args.len() > u32::MAX
            || auth.len() > u32::MAX {
            None
        } else {
            match invoke_operation_xdr(c, function_name, args, auth, XDR_DEPTH_LIMIT) {
                None => None,
                Some(op) => match invoke_transaction_xdr(
                    public_key,
                    fee,
                    sequence,
                    op,
                    transaction_data,
                    XDR_DEPTH_LIMIT,
                ) {
                    None => None,
                    Some(tx) => {
                        let payload = signature_payload(sha256_digest(passphrase), tx);
                        if payload.len() > MAX_HOST_INPUT {
                            None
                        } else {
                            signed_envelope_base64(
                                tx,
                                public_key.subrange(28, 32),
                                ed25519_signature(secret_seed, sha256_digest(payload)),
                                XDR_DEPTH_LIMIT,
                            )
                        }
                    },
                },
            }
        },
    }
}

/// Builds the transaction from the account of `secret_seed`, with sequence
/// number `sequence` and fee `fee`, that invokes `function_name` on
/// `contract_id` with `args`, carries the authorization entries `auth_xdr`
/// and the Soroban data `transaction_data_xdr` (base64 XDR, as simulation
/// returns them), signs it for the network `network_passphrase`, and
/// returns the signed envelope in base64 XDR. Every failure is an
/// `RpcError`.
pub fn sign_invoke_transaction(
    network_passphrase: &str,
    secret_seed: &[u8; 32],
    sequence: i64,
    fee: u32,
    contract_id: &str,
    function_name: &str,
    args: Vec<ScVal>,
    auth_xdr: Vec<String>,
    transaction_data_xdr: &str,
) -> (res: Result<String, SdkError>)
    requires
        network_passphrase.spec_bytes().len() <= MAX_HOST_INPUT,
    ensures
        res is Ok <==> signed_invoke_outcome(
            network_passphrase.spec_bytes(),
            secret_seed@,
            sequence,
            fee,
            contract_id@,
            function_name.spec_bytes(),
            args@,
            strings_view(auth_xdr@),
            transaction_data_xdr@,
        ) is Some,
        res matches Ok(x) ==> signed_invoke_outcome(
            network_passphrase.spec_bytes(),
            secret_seed@,
            sequence,
            fee,
            contract_id@,
            function_name.spec_bytes(),
            args@,
            strings_view(auth_xdr@),
            transaction_data_xdr@,
        ) == Some(x@),
        res matches Err(e) ==> e@ is RpcError,
{
    let contract = contract_of(contract_id)?;
    let name = function_name.as_bytes();
    if name.len() > MAX_FUNCTION_NAME_LEN {
        return Err(SdkError::RpcError(String::from_str("invalid function name: LengthExceedsMax")));
    }
    if args.len() as u64 > 0xFFFF_FFFFu64 {
        return Err(SdkError::RpcError(String::from_str("too many arguments: LengthExceedsMax")));
    }
    if auth_xdr.len() as u64 > 0xFFFF_FFFFu64 {
        return Err(SdkError::RpcError(String::from_str("too many authorization entries")));
    }
    let operation = match encode_invoke_operation(contract, name, args, &auth_xdr, XDR_DEPTH_LIMIT) {
        Ok(op) => op,
        Err(detail) => {
            return Err(
                SdkError::RpcError(
                    message(String::from_str("failed to encode operation: "), detail.as_str()),
                ),
            );
        },
    };
    let public_key = derive_public_key(secret_seed);
    let transaction = match encode_invoke_transaction(
        public_key,
        fee,
        sequence,
        operation.as_slice(),
        transaction_data_xdr,
        XDR_DEPTH_LIMIT,
    ) {
        Ok(tx) => tx,
        Err(detail) => {
            return Err(
                SdkError::RpcError(
                    message(String::from_str("failed to encode transaction: "), detail.as_str()),
                ),
            );
        },
    };
    let id = network_id(network_passphrase);
    let mut payload: Vec<u8> = Vec::new();
    append_bytes(&mut payload, &id);
    payload.push(0u8);
    payload.push(0u8);
    payload.push(0u8);
    payload.push(2u8);
    append_bytes(&mut payload, transaction.as_slice());
    assert(payload@ =~= signature_payload(sha256_digest(network_passphrase.spec_bytes()), transaction@));
    if payload.len() > MAX_HOST_INPUT {
        return Err(SdkError::RpcError(String::from_str("transaction too large to sign")));
    }
    let hash = sha256(payload.as_slice());
    let signature = generate_delegated_signature(secret_seed, &hash);
    let hint: [u8; 4] = [public_key[28], public_key[29], public_key[30], public_key[31]];
    assert(hint@ =~= public_key@.subrange(28, 32));
    match encode_signed_envelope(transaction.as_slice(), hint, signature, XDR_DEPTH_LIMIT) {
        Ok(x) => Ok(x),
        Err(detail) => Err(
            SdkError::RpcError(
                message(String::from_str("failed to encode transaction xdr: "), detail.as_str()),
            ),
        ),
    }
}


} // verus!
