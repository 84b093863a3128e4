use ed25519_dalek::SigningKey;
use soroban_sas::cli_offchain::{
    check_attester, compute_payload_hash, parse_attestation, parse_secret_seed, sign_offchain_attestation,
    verify_offchain_attestation, AttestationInput,
};
use soroban_sas::types::{Address, UID};

const NETWORK: &str = "Test SDF Network ; September 2015";

fn hex32(b: u8) -> String {
    format!("{:02x}", b).repeat(32)
}

fn account_strkey(key: [u8; 32]) -> String {
    format!("{}", stellar_strkey::ed25519::PublicKey(key))
}

fn contract_id() -> String {
    format!("{}", stellar_strkey::Contract([1u8; 32]))
}

fn sample_input(seed: [u8; 32]) -> AttestationInput {
    let public_key = SigningKey::from_bytes(&seed).verifying_key().to_bytes();
    AttestationInput {
        uid: hex32(1),
        schema_uid: hex32(2),
        time: 1000,
        expiration_time: 0,
        ref_uid: hex32(0),
        recipient: account_strkey([5u8; 32]),
        attester: account_strkey(public_key),
        revocable: true,
        data: "deadbeef".to_string(),
    }
}

#[test]
fn test_payload_hash_deterministic() {
    let input = sample_input([41u8; 32]);
    let h1 = compute_payload_hash(&input, 7, NETWORK, &contract_id()).unwrap();
    let h2 = compute_payload_hash(&input, 7, NETWORK, &contract_id()).unwrap();
    assert_eq!(h1, h2);
    let h3 = compute_payload_hash(&input, 8, NETWORK, &contract_id()).unwrap();
    assert_ne!(h1, h3);
    let h4 = compute_payload_hash(&input, 7, "other network", &contract_id()).unwrap();
    assert_ne!(h1, h4);
    let other_contract = format!("{}", stellar_strkey::Contract([2u8; 32]));
    let h5 = compute_payload_hash(&input, 7, NETWORK, &other_contract).unwrap();
    assert_ne!(h1, h5);
}

#[test]
fn test_sign_and_verify_roundtrip() {
    let seed = [41u8; 32];
    let input = sample_input(seed);
    let signed = sign_offchain_attestation(input, 7, NETWORK, &contract_id(), &seed).unwrap();
    assert!(verify_offchain_attestation(&signed).is_ok());
}

#[test]
fn test_verify_rejects_tampered_data() {
    let seed = [41u8; 32];
    let input = sample_input(seed);
    let mut signed = sign_offchain_attestation(input, 7, NETWORK, &contract_id(), &seed).unwrap();
    signed.attestation.data = "deadbeee".to_string();
    assert!(verify_offchain_attestation(&signed).is_err());
}

#[test]
fn test_verify_rejects_wrong_key() {
    let seed = [41u8; 32];
    let input = sample_input(seed);
    let mut signed = sign_offchain_attestation(input, 7, NETWORK, &contract_id(), &seed).unwrap();
    let other_key = SigningKey::from_bytes(&[42u8; 32]).verifying_key().to_bytes();
    signed.public_key = hex::encode(other_key);
    assert!(verify_offchain_attestation(&signed).is_err());
}

#[test]
fn test_verify_rejects_nonce_change() {
    let seed = [41u8; 32];
    let input = sample_input(seed);
    let mut signed = sign_offchain_attestation(input, 7, NETWORK, &contract_id(), &seed).unwrap();
    signed.nonce = 8;
    assert!(verify_offchain_attestation(&signed).is_err());
}

#[test]
fn test_sign_rejects_mismatched_attester() {
    let seed = [41u8; 32];
    let input = sample_input([43u8; 32]);
    assert!(sign_offchain_attestation(input, 7, NETWORK, &contract_id(), &seed).is_err());
}

#[test]
fn test_parse_secret_seed_hex_and_strkey() {
    let seed = [41u8; 32];
    assert_eq!(parse_secret_seed(&hex::encode(seed)).unwrap(), seed);
    let strkey = format!("{}", stellar_strkey::ed25519::PrivateKey(seed).as_unredacted());
    assert_eq!(parse_secret_seed(&strkey).unwrap(), seed);
    assert!(parse_secret_seed("not a key").is_err());
}

#[test]
fn signed_attestation_carries_key_and_domain() {
    let seed = [41u8; 32];
    let signed = sign_offchain_attestation(sample_input(seed), 7, NETWORK, &contract_id(), &seed)
        .unwrap();
    let public_key = SigningKey::from_bytes(&seed).verifying_key().to_bytes();
    assert_eq!(signed.public_key, hex::encode(public_key));
    assert_eq!(signed.signature.len(), 128);
    assert_eq!(signed.nonce, 7);
    assert_eq!(signed.network_passphrase, NETWORK);
    assert_eq!(signed.contract_id, contract_id());
}

#[test]
fn parse_attestation_reads_every_field() {
    let input = sample_input([41u8; 32]);
    let a = parse_attestation(&input).unwrap();
    assert_eq!(a.uid, UID([1u8; 32]));
    assert_eq!(a.schema_uid, UID([2u8; 32]));
    assert_eq!(a.ref_uid, UID([0u8; 32]));
    assert_eq!(a.recipient, Address::Account([5u8; 32]));
    assert_eq!(a.data, vec![0xde, 0xad, 0xbe, 0xef]);
    assert_eq!(a.revocation_time, 0);

    let mut bad = sample_input([41u8; 32]);
    bad.recipient = "GNOTAKEY".to_string();
    assert!(parse_attestation(&bad).unwrap_err().starts_with("recipient: "));
    let mut contract_recipient = sample_input([41u8; 32]);
    contract_recipient.recipient = contract_id();
    assert_eq!(parse_attestation(&contract_recipient).unwrap().recipient, Address::Contract([1u8; 32]));
    let mut odd = sample_input([41u8; 32]);
    odd.data = "abc".to_string();
    assert!(parse_attestation(&odd).unwrap_err().starts_with("data: "));
}

#[test]
fn check_attester_compares_with_the_signing_key() {
    let input = sample_input([41u8; 32]);
    assert!(check_attester(&input, &[41u8; 32]).is_ok());
    let other_key = SigningKey::from_bytes(&[43u8; 32]).verifying_key().to_bytes();
    assert_eq!(
        check_attester(&input, &[43u8; 32]),
        Err(format!(
            "attester {} does not match signing key account {}",
            input.attester,
            account_strkey(other_key)
        ))
    );
    let mut contract_attester = sample_input([41u8; 32]);
    contract_attester.attester = contract_id();
    assert!(check_attester(&contract_attester, &[41u8; 32]).is_err());
}
