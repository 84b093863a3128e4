use ed25519_dalek::{Signature, SigningKey, Verifier};
use soroban_sas::errors::SdkError;
use soroban_sas::simulate::build_invoke_transaction_xdr;
use soroban_sdk::xdr::{
    HostFunction, Limits, MuxedAccount, OperationBody, ReadXdr, ScAddress, ScVal,
    SorobanTransactionData, TransactionEnvelope, TransactionExt, TransactionSignaturePayload,
    TransactionSignaturePayloadTaggedTransaction, WriteXdr,
};

fn contract_strkey(id: [u8; 32]) -> String {
    format!("{}", stellar_strkey::Contract(id))
}

#[test]
fn builds_a_well_formed_invoke_transaction() {
    let contract = contract_strkey([0u8; 32]);
    let xdr = build_invoke_transaction_xdr(&contract, "get_schema", vec![ScVal::Void]).unwrap();
    let envelope = TransactionEnvelope::from_xdr_base64(xdr, Limits::none()).unwrap();
    let TransactionEnvelope::Tx(v1) = envelope else {
        panic!("expected a V1 transaction envelope");
    };
    assert_eq!(v1.tx.operations.len(), 1);
    let OperationBody::InvokeHostFunction(op) = &v1.tx.operations[0].body else {
        panic!("expected an InvokeHostFunction operation");
    };
    let HostFunction::InvokeContract(args) = &op.host_function else {
        panic!("expected an InvokeContract host function");
    };
    assert_eq!(args.function_name.0.to_string(), "get_schema");
    assert_eq!(args.args.len(), 1);
}

#[test]
fn rejects_an_invalid_contract_id() {
    let err = build_invoke_transaction_xdr("not-a-contract-id", "get_schema", vec![]);
    assert!(matches!(err, Err(SdkError::RpcError(_))));
    assert!(matches!(
        err,
        Err(SdkError::RpcError(m)) if m.starts_with("invalid contract id not-a-contract-id: ")
    ));
}

#[test]
fn envelope_targets_the_contract_from_the_placeholder_account() {
    let xdr = build_invoke_transaction_xdr(&contract_strkey([7u8; 32]), "verify_attestation", vec![])
        .unwrap();
    let TransactionEnvelope::Tx(v1) = TransactionEnvelope::from_xdr_base64(xdr, Limits::none()).unwrap()
    else {
        panic!("expected a V1 transaction envelope");
    };
    assert_eq!(v1.tx.fee, 100);
    assert!(matches!(v1.tx.source_account, MuxedAccount::Ed25519(ref k) if k.0 == [0u8; 32]));
    assert!(v1.signatures.is_empty());
    let OperationBody::InvokeHostFunction(op) = &v1.tx.operations[0].body else {
        panic!("expected an InvokeHostFunction operation");
    };
    let HostFunction::InvokeContract(args) = &op.host_function else {
        panic!("expected an InvokeContract host function");
    };
    assert!(matches!(&args.contract_address, ScAddress::Contract(c) if c.0 .0 == [7u8; 32]));
    assert_eq!(args.args.len(), 0);
}

#[test]
fn rejects_a_function_name_longer_than_a_symbol() {
    let name = "a".repeat(33);
    let err = build_invoke_transaction_xdr(&contract_strkey([1u8; 32]), &name, vec![]);
    assert!(matches!(err, Err(SdkError::RpcError(m)) if m == "invalid function name: LengthExceedsMax"));
    let ok = build_invoke_transaction_xdr(&contract_strkey([1u8; 32]), &"a".repeat(32), vec![]);
    assert!(ok.is_ok());
}

#[test]
fn builds_an_unsigned_draft_from_the_given_account() {
    let xdr = soroban_sas::simulate::build_unsigned_invoke_transaction_xdr(
        [5u8; 32],
        42,
        300,
        &contract_strkey([7u8; 32]),
        "attest",
        vec![ScVal::Bool(true)],
    )
    .unwrap();
    let TransactionEnvelope::Tx(v1) = TransactionEnvelope::from_xdr_base64(xdr, Limits::none()).unwrap()
    else {
        panic!("expected a V1 transaction envelope");
    };
    assert_eq!(v1.tx.fee, 300);
    assert_eq!(v1.tx.seq_num.0, 42);
    assert!(matches!(v1.tx.source_account, MuxedAccount::Ed25519(ref k) if k.0 == [5u8; 32]));
}

#[test]
fn signs_an_invoke_transaction_for_the_network() {
    let seed = [41u8; 32];
    let network = "Test SDF Network ; September 2015";
    let data = SorobanTransactionData::default().to_xdr_base64(Limits::none()).unwrap();
    let signed = soroban_sas::simulate::sign_invoke_transaction(
        network,
        &seed,
        8,
        350,
        &contract_strkey([7u8; 32]),
        "revoke",
        vec![ScVal::U32(3)],
        vec![],
        &data,
    )
    .unwrap();
    let TransactionEnvelope::Tx(v1) = TransactionEnvelope::from_xdr_base64(signed, Limits::none()).unwrap()
    else {
        panic!("expected a V1 transaction envelope");
    };
    let key = SigningKey::from_bytes(&seed).verifying_key();
    assert_eq!(v1.tx.fee, 350);
    assert_eq!(v1.tx.seq_num.0, 8);
    assert!(matches!(v1.tx.ext, TransactionExt::V1(_)));
    assert!(matches!(v1.tx.source_account, MuxedAccount::Ed25519(ref k) if k.0 == key.to_bytes()));
    assert_eq!(v1.signatures.len(), 1);
    assert_eq!(v1.signatures[0].hint.0, key.to_bytes()[28..32]);

    let host = soroban_sdk::Env::default();
    let network_id = host
        .crypto()
        .sha256(&soroban_sdk::Bytes::from_slice(&host, network.as_bytes()))
        .to_array();
    let payload = TransactionSignaturePayload {
        network_id: soroban_sdk::xdr::Hash(network_id),
        tagged_transaction: TransactionSignaturePayloadTaggedTransaction::Tx(v1.tx.clone()),
    }
    .to_xdr(Limits::none())
    .unwrap();
    let hash = host.crypto().sha256(&soroban_sdk::Bytes::from_slice(&host, &payload)).to_array();
    let signature = Signature::from_slice(v1.signatures[0].signature.0.as_slice()).unwrap();
    assert!(key.verify(&hash, &signature).is_ok());
}

#[test]
fn signing_reports_undecodable_pieces() {
    let res = soroban_sas::simulate::sign_invoke_transaction(
        "net",
        &[1u8; 32],
        1,
        100,
        &contract_strkey([7u8; 32]),
        "revoke",
        vec![],
        vec!["not xdr".to_string()],
        "AAAA",
    );
    assert!(matches!(res, Err(SdkError::RpcError(m)) if m.starts_with("failed to encode operation: ")));
    let res = soroban_sas::simulate::sign_invoke_transaction(
        "net",
        &[1u8; 32],
        1,
        100,
        &contract_strkey([7u8; 32]),
        "revoke",
        vec![],
        vec![],
        "not xdr",
    );
    assert!(matches!(res, Err(SdkError::RpcError(m)) if m.starts_with("failed to encode transaction: ")));
}
