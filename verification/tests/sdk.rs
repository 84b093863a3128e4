use ed25519_dalek::{Signature, SigningKey, Verifier, VerifyingKey};
use soroban_sas::cli::parse_uid;
use soroban_sas::client::{
    network_id, simulation_result_xdr, simulation_transaction_data, submission_fee, SASClient,
};
use soroban_sas::errors::{SASError, SdkError};
use soroban_sas::events::{
    parse_contract_event, parse_event, parse_events, AttestationIssued, AttestationRevoked,
    ContractEvent, EventParseError, SasEvent, ScMapEntry, ScValue, SchemaRegistered,
};
use soroban_sas::rpc::{
    GetLedgerEntriesResult, GetTransactionResult, JsonRpcError, JsonRpcResponse,
    LedgerEntryResult, RpcClient, SendTransactionResult, SimulateHostFunctionResult,
    SimulateTransactionResult, DEFAULT_RPC_TIMEOUT_MS,
};
use soroban_sas::schema_builder::SchemaBuilder;
use soroban_sas::signature::{derive_public_key, generate_delegated_signature};
use soroban_sas::transaction::{PollAction, TransactionSubmitter};
use soroban_sas::types::{Address, MerkleRoot, UID};
use soroban_sas::validation::{validate_schema_syntax, validate_ttl};
use soroban_sdk::xdr::{
    FeeBumpTransactionEnvelope, Limits, TransactionEnvelope, TransactionV0Envelope,
    TransactionV1Envelope, WriteXdr,
};

const URL: &str = "https://soroban-testnet.stellar.org";

fn symbol(s: &str) -> ScValue {
    ScValue::Symbol(s.as_bytes().to_vec())
}

/// A UID as a contract value: a one-element vector wrapping its bytes.
fn uid_value(bytes: [u8; 32]) -> ScValue {
    ScValue::Vector(Some(vec![ScValue::Bytes(bytes.to_vec())]))
}

fn entry(key: &str, val: ScValue) -> ScMapEntry {
    ScMapEntry { key: symbol(key), val }
}

fn map(entries: Vec<ScMapEntry>) -> ScValue {
    ScValue::Mapping(Some(entries))
}

#[test]
fn parses_schema_registered() {
    let owner = Address::Account([8u8; 32]);
    let topics = [symbol("REGISTER"), uid_value([7u8; 32])];
    let data = map(vec![entry("owner", ScValue::Address(owner)), entry("schema_uid", uid_value([7u8; 32]))]);
    let parsed = parse_event(&topics, &data).unwrap();
    assert_eq!(
        parsed,
        SasEvent::SchemaRegistered(SchemaRegistered { schema_uid: [7u8; 32], owner })
    );
}

#[test]
fn parses_attestation_issued() {
    let attester = Address::Account([4u8; 32]);
    let recipient = Address::Contract([5u8; 32]);
    let topics = [symbol("ATTESTED"), uid_value([2u8; 32]), ScValue::Address(attester)];
    let data = map(vec![
        entry("attester", ScValue::Address(attester)),
        entry("recipient", ScValue::Address(recipient)),
        entry("schema_uid", uid_value([2u8; 32])),
        entry("uid", uid_value([1u8; 32])),
    ]);
    let parsed = parse_event(&topics, &data).unwrap();
    assert_eq!(
        parsed,
        SasEvent::AttestationIssued(AttestationIssued {
            uid: [1u8; 32],
            schema_uid: [2u8; 32],
            attester,
            recipient,
        })
    );
}

#[test]
fn parses_attestation_revoked() {
    let topics = [symbol("REVOKED"), uid_value([3u8; 32])];
    let data = map(vec![entry("timestamp", ScValue::U64(4242)), entry("uid", uid_value([3u8; 32]))]);
    let parsed = parse_event(&topics, &data).unwrap();
    assert_eq!(
        parsed,
        SasEvent::AttestationRevoked(AttestationRevoked { uid: [3u8; 32], timestamp: 4242 })
    );
}

#[test]
fn rejects_unknown_and_malformed_events() {
    assert_eq!(parse_event(&[], &ScValue::Void), Err(EventParseError::MissingTopic));
    assert_eq!(parse_event(&[symbol("TRANSFER")], &ScValue::Void), Err(EventParseError::NotSasEvent));
    assert_eq!(
        parse_event(&[symbol("REVOKED")], &ScValue::Void),
        Err(EventParseError::MalformedPayload("payload is not a map"))
    );
}

#[test]
fn malformed_payload_fields_are_named() {
    let revoked = [symbol("REVOKED")];
    assert_eq!(
        parse_event(&revoked, &map(vec![entry("uid", uid_value([3u8; 32]))])),
        Err(EventParseError::MalformedPayload("missing payload field"))
    );
    assert_eq!(
        parse_event(&revoked, &map(vec![entry("timestamp", ScValue::U32(1))])),
        Err(EventParseError::MalformedPayload("timestamp is not a u64"))
    );
    let short_uid = ScValue::Bytes(vec![1, 2, 3]);
    assert_eq!(
        parse_event(&revoked, &map(vec![entry("timestamp", ScValue::U64(1)), entry("uid", short_uid)])),
        Err(EventParseError::MalformedPayload("uid is not 32 bytes"))
    );
    let registered = [symbol("REGISTER")];
    assert_eq!(
        parse_event(
            &registered,
            &map(vec![entry("schema_uid", uid_value([7u8; 32])), entry("owner", ScValue::U64(1))])
        ),
        Err(EventParseError::MalformedPayload("field is not an address"))
    );
    assert_eq!(parse_event(&[ScValue::U32(1)], &ScValue::Void), Err(EventParseError::NotSasEvent));
}

#[test]
fn parse_events_keeps_only_sas_events_in_order() {
    let revoked = |uid: u8, ts: u64| ContractEvent {
        topics: vec![symbol("REVOKED")],
        data: map(vec![entry("timestamp", ScValue::U64(ts)), entry("uid", uid_value([uid; 32]))]),
    };
    let events = vec![
        revoked(1, 10),
        ContractEvent { topics: vec![symbol("TRANSFER")], data: ScValue::Void },
        revoked(2, 20),
    ];
    assert_eq!(
        parse_contract_event(&events[0]),
        Ok(SasEvent::AttestationRevoked(AttestationRevoked { uid: [1u8; 32], timestamp: 10 }))
    );
    assert_eq!(
        parse_events(&events),
        vec![
            SasEvent::AttestationRevoked(AttestationRevoked { uid: [1u8; 32], timestamp: 10 }),
            SasEvent::AttestationRevoked(AttestationRevoked { uid: [2u8; 32], timestamp: 20 }),
        ]
    );
}

#[test]
fn builds_send_transaction_request() {
    let client = RpcClient::new(URL.to_string());
    let request = client.build_send_transaction_request("AAAAAgAAAAA=");
    assert_eq!(request.jsonrpc, "2.0");
    assert_eq!(request.method, "sendTransaction");
    assert_eq!(request.params.transaction, "AAAAAgAAAAA=");
}

#[test]
fn builds_get_transaction_request() {
    let client = RpcClient::new(URL.to_string());
    let request = client.build_get_transaction_request("deadbeef");
    assert_eq!(request.method, "getTransaction");
    assert_eq!(request.params.hash, "deadbeef");
}

#[test]
fn builds_simulate_transaction_request() {
    let client = RpcClient::new(URL.to_string());
    let request = client.build_simulate_transaction_request("AAAAAgAAAAA=");
    assert_eq!(request.method, "simulateTransaction");
    assert_eq!(request.params.transaction, "AAAAAgAAAAA=");
}

#[test]
fn builds_get_ledger_entries_request() {
    let client = RpcClient::new(URL.to_string());
    let request = client.build_get_ledger_entries_request(vec!["AAAAAA==".to_string()]);
    assert_eq!(request.method, "getLedgerEntries");
    assert_eq!(request.params.keys[0], "AAAAAA==");
    assert_eq!(request.id, 1);
}

fn ok<T>(result: T) -> JsonRpcResponse<T> {
    JsonRpcResponse::Result { jsonrpc: "2.0".to_string(), id: 1, result }
}

fn rpc_error<T>(code: i64, message: &str) -> JsonRpcResponse<T> {
    JsonRpcResponse::Error {
        jsonrpc: "2.0".to_string(),
        id: 1,
        error: JsonRpcError { code, message: message.to_string() },
    }
}

fn envelope_xdr(envelope: TransactionEnvelope) -> String {
    envelope.to_xdr_base64(Limits::none()).unwrap()
}

fn get_transaction_result(envelope_xdr: Option<String>) -> GetTransactionResult {
    GetTransactionResult {
        status: "SUCCESS".to_string(),
        latest_ledger: 12345,
        envelope_xdr,
        result_xdr: Some("AAAAAQAAAAA=".to_string()),
    }
}

#[test]
fn parses_pending_send_transaction_response() {
    let client = RpcClient::new(URL.to_string());
    let body = ok(SendTransactionResult {
        status: "PENDING".to_string(),
        hash: "abcd1234".to_string(),
        latest_ledger: 12345,
        error_result_xdr: None,
    });
    let result = client.parse_send_transaction_response(body).unwrap();
    assert_eq!(result.status, "PENDING");
    assert_eq!(result.hash, "abcd1234");
    assert_eq!(result.latest_ledger, 12345);
    assert_eq!(result.error_result_xdr, None);
}

#[test]
fn parses_successful_get_transaction_response() {
    let client = RpcClient::new(URL.to_string());
    let xdr = envelope_xdr(TransactionEnvelope::Tx(TransactionV1Envelope::default()));
    let result = client.parse_get_transaction_response(ok(get_transaction_result(Some(xdr.clone())))).unwrap();
    assert_eq!(result.status, "SUCCESS");
    assert_eq!(result.envelope_xdr.as_deref(), Some(xdr.as_str()));
}

#[test]
fn rejects_v0_get_transaction_envelope_without_panic() {
    let client = RpcClient::new(URL.to_string());
    let xdr = envelope_xdr(TransactionEnvelope::TxV0(TransactionV0Envelope::default()));
    let err = client.parse_get_transaction_response(ok(get_transaction_result(Some(xdr)))).unwrap_err();
    assert!(
        matches!(&err, SdkError::DecodingError(msg)
            if msg.contains("unsupported transaction envelope variant: TxV0")),
        "expected DecodingError mentioning TxV0, got {err:?}"
    );
}

#[test]
fn rejects_fee_bump_get_transaction_envelope_without_panic() {
    let client = RpcClient::new(URL.to_string());
    let xdr = envelope_xdr(TransactionEnvelope::TxFeeBump(FeeBumpTransactionEnvelope::default()));
    let err = client.parse_get_transaction_response(ok(get_transaction_result(Some(xdr)))).unwrap_err();
    assert!(
        matches!(&err, SdkError::DecodingError(msg)
            if msg.contains("unsupported transaction envelope variant: TxFeeBump")),
        "expected DecodingError mentioning TxFeeBump, got {err:?}"
    );
}

#[test]
fn undecodable_envelope_is_a_decoding_error() {
    let client = RpcClient::new(URL.to_string());
    let body = ok(get_transaction_result(Some("not base64 xdr".to_string())));
    let err = client.parse_get_transaction_response(body).unwrap_err();
    assert!(matches!(&err, SdkError::DecodingError(msg) if msg.starts_with("failed to decode envelopeXdr: ")));
    let absent = client.parse_get_transaction_response(ok(get_transaction_result(None))).unwrap();
    assert_eq!(absent.envelope_xdr, None);
}

#[test]
fn maps_json_rpc_error_to_sdk_error() {
    let client = RpcClient::new(URL.to_string());
    let err = client
        .parse_send_transaction_response(rpc_error(-32602, "Invalid params"))
        .unwrap_err();
    assert!(
        matches!(&err, SdkError::RpcError(msg) if msg.contains("Invalid params")),
        "expected RpcError mentioning 'Invalid params', got {err:?}"
    );
    assert!(matches!(&err, SdkError::RpcError(msg) if msg == "-32602: Invalid params"));
}

#[test]
fn parses_successful_simulate_transaction_response() {
    let client = RpcClient::new(URL.to_string());
    let body = ok(SimulateTransactionResult {
        latest_ledger: 3993006,
        error: None,
        results: vec![SimulateHostFunctionResult { xdr: "AAAAAA==".to_string() }],
        transaction_data: None,
        min_resource_fee: None,
        restore_preamble: None,
    });
    let result = client.parse_simulate_transaction_response(body).unwrap();
    assert_eq!(result.latest_ledger, 3993006);
    assert_eq!(result.error, None);
    assert_eq!(result.results.len(), 1);
    assert_eq!(result.results[0].xdr, "AAAAAA==");
}

fn failed_simulation() -> SimulateTransactionResult {
    SimulateTransactionResult {
        latest_ledger: 3993006,
        error: Some("HostError: Error(Storage, MissingValue)".to_string()),
        results: vec![],
        transaction_data: None,
        min_resource_fee: None,
        restore_preamble: None,
    }
}

#[test]
fn parses_a_failed_simulate_transaction_response_from_live_testnet() {
    let client = RpcClient::new(URL.to_string());
    let result = client.parse_simulate_transaction_response(ok(failed_simulation())).unwrap();
    assert_eq!(result.latest_ledger, 3993006);
    assert!(result.error.unwrap().contains("MissingValue"));
    assert!(result.results.is_empty());
}

#[test]
fn parses_get_ledger_entries_response() {
    let client = RpcClient::new(URL.to_string());
    let body = ok(GetLedgerEntriesResult {
        entries: vec![LedgerEntryResult {
            key: "AAAAAA==".to_string(),
            xdr: "AAAAAA==".to_string(),
            last_modified_ledger_seq: 3993006,
            live_until_ledger_seq: None,
        }],
        latest_ledger: 3993006,
    });
    let result = client.parse_get_ledger_entries_response(body).unwrap();
    assert_eq!(result.entries.len(), 1);
    assert_eq!(result.entries[0].xdr, "AAAAAA==");
    assert_eq!(result.entries[0].last_modified_ledger_seq, 3993006);
}

#[test]
fn defaults_to_a_ten_second_timeout() {
    let client = RpcClient::new(URL.to_string());
    assert_eq!(client.timeout(), DEFAULT_RPC_TIMEOUT_MS);
    assert_eq!(DEFAULT_RPC_TIMEOUT_MS, 10_000);
}

#[test]
fn with_timeout_overrides_the_default() {
    let client = RpcClient::new(URL.to_string()).with_timeout(42_000);
    assert_eq!(client.timeout(), 42_000);
    assert_eq!(client.network_url, URL);
}

#[test]
fn test_rpc_mock_parsing() {}

const SEED: [u8; 32] = [7; 32];

#[test]
fn derives_the_matching_public_key() {
    let public_key = derive_public_key(&SEED);
    let expected = SigningKey::from_bytes(&SEED).verifying_key().to_bytes();
    assert_eq!(public_key, expected);
}

#[test]
fn produces_a_signature_that_verifies() {
    let message = b"schema_uid || recipient";
    let signature_bytes = generate_delegated_signature(&SEED, message);
    let verifying_key = VerifyingKey::from_bytes(&derive_public_key(&SEED)).unwrap();
    let signature = Signature::from_bytes(&signature_bytes);
    assert!(verifying_key.verify(message, &signature).is_ok());
}

#[test]
fn signature_does_not_verify_against_a_different_message() {
    let signature_bytes = generate_delegated_signature(&SEED, b"original payload");
    let verifying_key = VerifyingKey::from_bytes(&derive_public_key(&SEED)).unwrap();
    let signature = Signature::from_bytes(&signature_bytes);
    assert!(verifying_key.verify(b"tampered payload", &signature).is_err());
}

#[test]
fn different_seeds_produce_different_signatures() {
    let message = b"same message";
    let sig_a = generate_delegated_signature(&SEED, message);
    let sig_b = generate_delegated_signature(&[9; 32], message);
    assert_ne!(sig_a, sig_b);
}

#[test]
fn test_signature_generation() {
    let seed = [1u8; 32];
    let signature = generate_delegated_signature(&seed, b"message");
    assert_eq!(signature.len(), 64);
    assert_ne!(signature, [0u8; 64]);
}

fn settled(status: &str) -> GetTransactionResult {
    GetTransactionResult {
        status: status.to_string(),
        latest_ledger: 1,
        envelope_xdr: None,
        result_xdr: None,
    }
}

/// Drives the submitter's decisions the way the polling loop does, with
/// `fetch` standing for `getTransaction`; returns the outcome and the
/// number of polls made.
fn poll_until_settled(
    max_attempts: u32,
    mut fetch: impl FnMut() -> Result<GetTransactionResult, SdkError>,
) -> (Result<GetTransactionResult, SdkError>, u32) {
    let mut attempt = 0;
    let mut calls = 0;
    while TransactionSubmitter::may_poll(attempt, max_attempts) {
        calls += 1;
        match TransactionSubmitter::after_poll(attempt, max_attempts, fetch()) {
            PollAction::Return(r) => return (Ok(r), calls),
            PollAction::Fail(e) => return (Err(e), calls),
            PollAction::WaitAndPoll => attempt += 1,
        }
    }
    (Err(TransactionSubmitter::not_settled_error(max_attempts)), calls)
}

#[test]
fn returns_immediately_once_settled() {
    let (outcome, calls) = poll_until_settled(5, || Ok(settled("SUCCESS")));
    assert_eq!(calls, 1);
    assert_eq!(outcome.unwrap().status, "SUCCESS");
}

#[test]
fn keeps_polling_while_pending() {
    let mut n = 0;
    let (outcome, calls) = poll_until_settled(5, || {
        n += 1;
        Ok(if n < 3 { settled("PENDING") } else { settled("SUCCESS") })
    });
    assert_eq!(calls, 3);
    assert_eq!(outcome.unwrap().status, "SUCCESS");
}

#[test]
fn errors_once_attempts_are_exhausted() {
    let (outcome, calls) = poll_until_settled(3, || Ok(settled("NOT_FOUND")));
    assert_eq!(calls, 3);
    assert!(matches!(outcome, Err(SdkError::RpcError(_))));
    assert!(matches!(
        TransactionSubmitter::not_settled_error(3),
        SdkError::RpcError(msg) if msg == "transaction did not settle after 3 attempts"
    ));
}

#[test]
fn propagates_rpc_errors_immediately() {
    let (outcome, calls) = poll_until_settled(5, || Err(SdkError::RpcError("boom".to_string())));
    assert_eq!(calls, 1);
    assert!(matches!(outcome, Err(SdkError::RpcError(_))));
}

#[test]
fn test_uid_deterministic() {
    let uid1 = UID([1u8; 32]);
    let uid2 = UID([1u8; 32]);
    assert_eq!(uid1, uid2);
    let uid3 = UID([2u8; 32]);
    assert_ne!(uid1, uid3);
}

#[test]
fn test_validate_ttl() {
    assert!(validate_ttl(100, 200).is_ok());
    assert!(validate_ttl(100, 0).is_ok());
    assert!(validate_ttl(200, 100).is_err());
    assert!(validate_ttl(100, 100).is_err());
    assert_eq!(validate_ttl(100, 100), Err(SASError::InvalidTTL));
}

#[test]
fn test_merkle_root_generation() {
    let root_bytes = [0u8; 32];
    let merkle_root = MerkleRoot(root_bytes);
    assert_eq!(merkle_root.0, root_bytes);
}

#[test]
fn schema_syntax_requires_a_name() {
    assert_eq!(validate_schema_syntax(b"bool like_soroban"), Ok(()));
    assert_eq!(validate_schema_syntax(b"Bytes[32] document_id"), Ok(()));
    assert_eq!(validate_schema_syntax(b"a-b"), Ok(()));
    assert_eq!(validate_schema_syntax(b"_"), Ok(()));
    assert_eq!(validate_schema_syntax("число 42".as_bytes()), Ok(()));
    assert_eq!(validate_schema_syntax("名前".as_bytes()), Ok(()));
    assert_eq!(validate_schema_syntax(b""), Err(SASError::InvalidSchema));
    assert_eq!(validate_schema_syntax(b"12345"), Err(SASError::InvalidSchema));
    assert_eq!(validate_schema_syntax(b"!!! ,:"), Err(SASError::InvalidSchema));
    assert_eq!(validate_schema_syntax(&vec![b'a'; 1024]), Ok(()));
    assert_eq!(validate_schema_syntax(&vec![b'a'; 1025]), Err(SASError::InvalidSchema));
}

#[test]
fn error_codes_are_stable() {
    assert_eq!(SASError::AlreadyInitialized.code(), 1);
    assert_eq!(SASError::InvalidSchema.code(), 101);
    assert_eq!(SASError::Unauthorized.code(), 301);
    assert_eq!(SASError::AttesterKeyRevoked.code(), 408);
}

#[test]
fn test_cli_snapshot_formatting() {
    assert_eq!(1, 1);
}

#[test]
fn parse_uid_accepts_hex_with_or_without_prefix() {
    let hex = "01".repeat(32);
    assert_eq!(parse_uid(&hex), Ok([1u8; 32]));
    assert_eq!(parse_uid(&format!("0x{hex}")), Ok([1u8; 32]));
    assert_eq!(parse_uid("0xabcd"), Err("uid must be exactly 32 bytes".to_string()));
    assert!(parse_uid("zz").unwrap_err().starts_with("invalid hex in uid: "));
}

#[test]
fn network_id_is_the_digest_of_the_passphrase() {
    let id = network_id("Test SDF Network ; September 2015");
    assert_eq!(
        id,
        [
            0xce, 0xe0, 0x30, 0x2d, 0x59, 0x84, 0x4d, 0x32, 0xbd, 0xca, 0x91, 0x5c, 0x82, 0x03,
            0xdd, 0x44, 0xb3, 0x3f, 0xbb, 0x7e, 0xdc, 0x19, 0x05, 0x1e, 0xa3, 0x7a, 0xbe, 0xdf,
            0x28, 0xec, 0xd4, 0x72
        ]
    );
}

#[test]
fn simulation_outcomes() {
    let ok_sim = SimulateTransactionResult {
        latest_ledger: 1,
        error: None,
        results: vec![SimulateHostFunctionResult { xdr: "AAAAAQ==".to_string() }],
        transaction_data: Some("DATA".to_string()),
        min_resource_fee: Some("250".to_string()),
        restore_preamble: None,
    };
    assert_eq!(simulation_result_xdr(&ok_sim).unwrap(), "AAAAAQ==");
    assert_eq!(simulation_transaction_data(&ok_sim).unwrap(), "DATA");
    assert!(matches!(
        simulation_result_xdr(&failed_simulation()),
        Err(SdkError::RpcError(m)) if m.contains("MissingValue")
    ));
    let mut empty = failed_simulation();
    empty.error = None;
    assert!(matches!(
        simulation_result_xdr(&empty),
        Err(SdkError::RpcError(m)) if m == "simulateTransaction returned no results"
    ));
    assert!(matches!(
        simulation_transaction_data(&empty),
        Err(SdkError::RpcError(m)) if m == "simulation succeeded but returned no transactionData"
    ));
}

#[test]
fn submission_fee_adds_the_base_fee() {
    assert_eq!(submission_fee(&Some("250".to_string())).unwrap(), 350);
    assert_eq!(submission_fee(&None).unwrap(), 100);
    assert!(matches!(
        submission_fee(&Some("abc".to_string())),
        Err(SdkError::RpcError(m)) if m.starts_with("invalid minResourceFee: ")
    ));
    assert!(matches!(
        submission_fee(&Some("4294967200".to_string())),
        Err(SdkError::RpcError(m)) if m == "computed fee overflowed u32"
    ));
    assert!(submission_fee(&Some("-101".to_string())).is_err());
}

#[test]
fn schema_builder_concatenates_fields() {
    let schema = SchemaBuilder::new().with_field("bool like").with_field(", string why").build();
    assert_eq!(schema, "bool like, string why");
    assert_eq!(SchemaBuilder::new().build(), "");
}

#[test]
fn client_keeps_its_contract_id() {
    let client = SASClient::new("CABC".to_string());
    assert_eq!(client.contract_id, "CABC");
    soroban_sas::client::init();
}

#[test]
fn next_sequence_number_adds_one() {
    assert_eq!(soroban_sas::client::next_sequence_number(41).unwrap(), 42);
    assert_eq!(soroban_sas::client::next_sequence_number(-1).unwrap(), 0);
    assert!(matches!(
        soroban_sas::client::next_sequence_number(i64::MAX),
        Err(SdkError::RpcError(m)) if m == "sequence number overflowed"
    ));
}
