use ed25519_dalek::{Signer, SigningKey};
use soroban_sas::client::network_id;
use soroban_sas::contract_events::EmittedEvent;
use soroban_sas::env::Env;
use soroban_sas::errors::SASError;
use soroban_sas::offchain::{hash_offchain_attestation, AttestationDomain};
use soroban_sas::registry::SchemaRegistry;
use soroban_sas::sas::SAS;
use soroban_sas::signature::generate_delegated_signature;
use soroban_sas::types::{Address, Attestation, UID};

const NETWORK: &str = "Test SDF Network ; September 2015";

fn account(n: u8) -> Address {
    Address::Account([n; 32])
}

fn contract(n: u8) -> Address {
    Address::Contract([n; 32])
}

/// A registry serving the schema `bool like`, and a SAS contract bound to
/// it. Returns the two contracts and the schema's identifier.
fn deploy() -> (SchemaRegistry, SAS, UID) {
    let owner = account(90);
    let env = Env::new(0, network_id(NETWORK), vec![owner]);
    let mut registry = SchemaRegistry::deploy(&env, contract(100));
    registry.init(&env, account(93)).unwrap();
    let schema_uid = registry
        .register(&env, owner, b"bool like".to_vec(), contract(91), true)
        .unwrap();
    let mut sas = SAS::deploy(contract(101));
    sas.init(&env, account(92), &registry).unwrap();
    (registry, sas, schema_uid)
}

fn env_at(timestamp: u64, authorized: Vec<Address>) -> Env {
    Env::new(timestamp, network_id(NETWORK), authorized)
}

fn attestation(uid: u8, schema_uid: UID, attester: Address, recipient: Address) -> Attestation {
    Attestation {
        uid: UID([uid; 32]),
        schema_uid,
        time: 1000,
        expiration_time: 0,
        revocation_time: 0,
        ref_uid: UID([0u8; 32]),
        recipient,
        attester,
        revocable: true,
        data: Vec::new(),
    }
}

#[test]
fn test_happy_path_attestation() {
    let (registry, mut sas, schema_uid) = deploy();
    let attester = account(1);
    let att = attestation(1, schema_uid, attester, account(2));
    let env = env_at(0, vec![attester]);
    let result_uid = sas.attest(&env, &registry, att).unwrap();
    assert_eq!(result_uid, UID([1u8; 32]));
}

#[test]
fn test_revocation_success() {
    let (registry, mut sas, schema_uid) = deploy();
    let attester = account(1);
    let env = env_at(0, vec![attester]);
    sas.attest(&env, &registry, attestation(1, schema_uid, attester, account(2))).unwrap();
    assert_eq!(sas.revoke(&env, UID([1u8; 32])), Ok(()));
}

#[test]
fn test_resolver_callback() {
    let (registry, mut sas, schema_uid) = deploy();
    let attester = account(1);
    let env = env_at(0, vec![attester]);
    let res = sas.attest(&env, &registry, attestation(5, schema_uid, attester, account(2)));
    assert_eq!(res, Ok(UID([5u8; 32])));
}

#[test]
fn issued_attestations_are_offered_to_the_schema_resolver() {
    let (registry, mut sas, schema_uid) = deploy();
    let attester = account(1);
    let env = env_at(0, vec![attester]);
    assert!(sas.resolver_calls().is_empty());
    sas.attest(&env, &registry, attestation(5, schema_uid, attester, account(2))).unwrap();
    sas.attest(&env, &registry, attestation(6, schema_uid, attester, account(3))).unwrap();
    assert_eq!(
        sas.resolver_calls(),
        &vec![(contract(91), UID([5u8; 32])), (contract(91), UID([6u8; 32]))]
    );
    let unknown = attestation(7, UID([77u8; 32]), attester, account(2));
    assert_eq!(sas.attest(&env, &registry, unknown), Err(SASError::SchemaNotFound));
    assert_eq!(sas.resolver_calls().len(), 2);
}

#[test]
fn test_attest_with_value() {
    let (registry, mut sas, schema_uid) = deploy();
    let attester = account(1);
    let token = contract(3);
    let env = env_at(0, vec![attester]);
    let att = attestation(7, schema_uid, attester, account(2));
    assert_eq!(sas.attest_with_value(&env, &registry, att, token, 500), Ok(UID([7u8; 32])));
}

/// A SAS deployment with one attester whose account key comes from `seed`,
/// and an attestation by that attester.
struct Setup {
    env: Env,
    registry: SchemaRegistry,
    sas: SAS,
    signing_key: SigningKey,
    attestation: Attestation,
}

fn setup(seed: [u8; 32]) -> Setup {
    let (registry, sas, schema_uid) = deploy();
    let signing_key = SigningKey::from_bytes(&seed);
    let attester = Address::Account(signing_key.verifying_key().to_bytes());
    let mut att = attestation(42, schema_uid, attester, account(2));
    att.data = vec![1, 2, 3];
    Setup { env: env_at(0, vec![attester]), registry, sas, signing_key, attestation: att }
}

fn sign(setup: &Setup, attestation: &Attestation, nonce: u64) -> [u8; 64] {
    let domain = AttestationDomain {
        network_id: setup.env.network_id,
        contract: setup.sas.address(),
        nonce,
    };
    let payload_hash = hash_offchain_attestation(attestation, &domain);
    setup.signing_key.sign(&payload_hash).to_bytes()
}

fn public_key(setup: &Setup) -> [u8; 32] {
    setup.signing_key.verifying_key().to_bytes()
}

#[test]
fn test_verify_offchain_attestation_valid() {
    let s = setup([31u8; 32]);
    let signature = sign(&s, &s.attestation, 7);
    assert!(s
        .sas
        .verify_offchain_attestation(&s.env, &s.attestation, 7, public_key(&s), signature)
        .unwrap());
}

#[test]
fn test_verify_offchain_attestation_tampered_data() {
    let s = setup([31u8; 32]);
    let signature = sign(&s, &s.attestation, 7);
    let mut tampered = s.attestation.clone();
    tampered.data = vec![9, 9, 9];
    let res = s.sas.verify_offchain_attestation(&s.env, &tampered, 7, public_key(&s), signature);
    assert!(res.is_err());
}

#[test]
fn test_verify_offchain_attestation_wrong_key() {
    let s = setup([31u8; 32]);
    let signature = sign(&s, &s.attestation, 7);
    let other = setup([32u8; 32]);
    let res =
        s.sas.verify_offchain_attestation(&s.env, &s.attestation, 7, public_key(&other), signature);
    assert!(res.is_err());
}

#[test]
fn test_verify_offchain_attestation_nonce_replay_bound() {
    let s = setup([31u8; 32]);
    let signature = sign(&s, &s.attestation, 7);
    let res = s.sas.verify_offchain_attestation(&s.env, &s.attestation, 8, public_key(&s), signature);
    assert!(res.is_err());
}

#[test]
fn test_verify_offchain_attestation_expired() {
    let mut s = setup([31u8; 32]);
    let mut expired = s.attestation.clone();
    expired.expiration_time = 100;
    let signature = sign(&s, &expired, 7);
    s.env.timestamp = 150;
    let res = s.sas.verify_offchain_attestation(&s.env, &expired, 7, public_key(&s), signature);
    assert!(res.is_err());
}

#[test]
fn test_verify_offchain_attestation_invalidated_by_onchain_revocation() {
    let mut s = setup([31u8; 32]);
    let signature = sign(&s, &s.attestation, 7);
    s.sas.attest(&s.env, &s.registry, s.attestation.clone()).unwrap();
    s.env.timestamp = 100;
    s.sas.revoke(&s.env, s.attestation.uid).unwrap();
    let res = s.sas.verify_offchain_attestation(&s.env, &s.attestation, 7, public_key(&s), signature);
    assert!(res.is_err());
}

#[test]
fn test_comprehensive_lifecycle() {
    let (registry, mut sas, schema_uid) = deploy();
    let attester = account(1);
    let uid = UID([10u8; 32]);
    let env = env_at(0, vec![attester]);
    let _ = sas.attest(&env, &registry, attestation(10, schema_uid, attester, account(2)));
    assert!(sas.verify_attestation(&env, uid));
    let later = env_at(100, vec![attester]);
    sas.revoke(&later, uid).unwrap();
    assert!(!sas.verify_attestation(&later, uid));
}

#[test]
fn test_attest_emits_attestation_issued_event() {
    let (registry, mut sas, schema_uid) = deploy();
    let attester = account(1);
    let recipient = account(2);
    let env = env_at(0, vec![attester]);
    sas.attest(&env, &registry, attestation(11, schema_uid, attester, recipient)).unwrap();
    let events = sas.events();
    assert_eq!(events.len(), 1);
    match events[0] {
        EmittedEvent::AttestationIssued(e) => {
            assert_eq!(e.uid, UID([11u8; 32]));
            assert_eq!(e.schema_uid, schema_uid);
            assert_eq!(e.attester, attester);
            assert_eq!(e.recipient, recipient);
        }
        other => panic!("expected AttestationIssued, got {other:?}"),
    }
}

#[test]
fn test_revoke_emits_attestation_revoked_event() {
    let (registry, mut sas, schema_uid) = deploy();
    let attester = account(1);
    let uid = UID([12u8; 32]);
    let env = env_at(0, vec![attester]);
    sas.attest(&env, &registry, attestation(12, schema_uid, attester, account(2))).unwrap();
    let revoked_at = 4242u64;
    let later = env_at(revoked_at, vec![attester]);
    sas.revoke(&later, uid).unwrap();
    match sas.events().last() {
        Some(EmittedEvent::AttestationRevoked(e)) => {
            assert_eq!(e.uid, uid);
            assert_eq!(e.timestamp, revoked_at);
        }
        other => panic!("expected AttestationRevoked, got {other:?}"),
    }
    assert_eq!(sas.get_attestation(uid).unwrap().revocation_time, revoked_at);
    assert!(!sas.verify_attestation(&later, uid));
}

#[test]
fn attest_requires_the_attesters_authorization() {
    let (registry, mut sas, schema_uid) = deploy();
    let env = env_at(0, vec![account(9)]);
    let res = sas.attest(&env, &registry, attestation(1, schema_uid, account(1), account(2)));
    assert_eq!(res, Err(SASError::Unauthorized));
    assert!(sas.get_attestation(UID([1u8; 32])).is_none());
    assert_eq!(sas.events().len(), 0);
}

#[test]
fn attest_rejects_an_unknown_schema() {
    let (registry, mut sas, _) = deploy();
    let attester = account(1);
    let env = env_at(0, vec![attester]);
    let res = sas.attest(&env, &registry, attestation(1, UID([2u8; 32]), attester, account(2)));
    assert_eq!(res, Err(SASError::SchemaNotFound));
}

#[test]
fn attest_rejects_a_deprecated_schema() {
    let (mut registry, mut sas, schema_uid) = deploy();
    let owner = account(90);
    let attester = account(1);
    let env = env_at(0, vec![attester, owner]);
    registry.deprecate(&env, schema_uid, owner).unwrap();
    let res = sas.attest(&env, &registry, attestation(1, schema_uid, attester, account(2)));
    assert_eq!(res, Err(SASError::SchemaNotFound));
}

#[test]
fn attest_rejects_an_already_expired_attestation() {
    let (registry, mut sas, schema_uid) = deploy();
    let attester = account(1);
    let env = env_at(150, vec![attester]);
    let mut att = attestation(8, schema_uid, attester, account(2));
    att.expiration_time = 100;
    assert_eq!(sas.attest(&env, &registry, att.clone()), Err(SASError::AlreadyExpired));
    att.expiration_time = 150;
    assert_eq!(sas.attest(&env, &registry, att.clone()), Err(SASError::AlreadyExpired));
    att.expiration_time = 151;
    assert_eq!(sas.attest(&env, &registry, att), Ok(UID([8u8; 32])));
}

#[test]
fn init_twice_is_rejected_and_keeps_the_binding() {
    let (registry, mut sas, _) = deploy();
    let env = env_at(0, vec![]);
    assert_eq!(sas.init(&env, account(50), &registry), Err(SASError::AlreadyInitialized));
    assert_eq!(sas.get_admin(), Some(account(92)));
    assert_eq!(sas.get_registry(), Some(contract(100)));
}

#[test]
fn revoke_reports_each_refusal() {
    let (registry, mut sas, schema_uid) = deploy();
    let attester = account(1);
    let env = env_at(0, vec![attester]);
    assert_eq!(sas.revoke(&env, UID([1u8; 32])), Err(SASError::AttestationNotFound));

    let mut fixed = attestation(3, schema_uid, attester, account(2));
    fixed.revocable = false;
    sas.attest(&env, &registry, fixed).unwrap();
    assert_eq!(sas.revoke(&env, UID([3u8; 32])), Err(SASError::NotRevocable));

    sas.attest(&env, &registry, attestation(4, schema_uid, attester, account(2))).unwrap();
    let stranger = env_at(0, vec![account(9)]);
    assert_eq!(sas.revoke(&stranger, UID([4u8; 32])), Err(SASError::Unauthorized));
    assert!(sas.verify_attestation(&env, UID([4u8; 32])));
}

#[test]
fn attest_by_delegation_checks_the_signature() {
    let (registry, mut sas, schema_uid) = deploy();
    let seed = [21u8; 32];
    let key = SigningKey::from_bytes(&seed).verifying_key().to_bytes();
    let recipient = account(2);
    let att = attestation(9, schema_uid, Address::Account(key), recipient);

    let mut payload = schema_uid.0.to_vec();
    payload.push(0u8);
    payload.extend_from_slice(&[2u8; 32]);
    let signature = generate_delegated_signature(&seed, &payload);

    let env = env_at(0, vec![]);
    let bad = sas.attest_by_delegation(&env, &registry, att.clone(), [0u8; 64], key);
    assert_eq!(bad, Err(SASError::InvalidSignature));
    let good = sas.attest_by_delegation(&env, &registry, att, signature, key);
    assert_eq!(good, Ok(UID([9u8; 32])));
    assert!(sas.verify_attestation(&env, UID([9u8; 32])));
}

#[test]
fn attest_by_delegation_requires_the_attesters_key() {
    let (registry, mut sas, schema_uid) = deploy();
    let seed = [21u8; 32];
    let key = SigningKey::from_bytes(&seed).verifying_key().to_bytes();
    let att = attestation(9, schema_uid, account(1), account(2));
    let mut payload = schema_uid.0.to_vec();
    payload.push(0u8);
    payload.extend_from_slice(&[2u8; 32]);
    let signature = generate_delegated_signature(&seed, &payload);
    let env = env_at(0, vec![]);
    let res = sas.attest_by_delegation(&env, &registry, att, signature, key);
    assert_eq!(res, Err(SASError::Unauthorized));
    assert!(sas.get_attestation(UID([9u8; 32])).is_none());
    assert_eq!(sas.events().len(), 0);
}

#[test]
fn attest_with_value_refuses_a_negative_value() {
    let (registry, mut sas, schema_uid) = deploy();
    let attester = account(1);
    let env = env_at(0, vec![attester]);
    let att = attestation(7, schema_uid, attester, account(2));
    assert_eq!(
        sas.attest_with_value(&env, &registry, att.clone(), contract(3), -1),
        Err(SASError::InvalidValue)
    );
    assert!(sas.get_attestation(UID([7u8; 32])).is_none());
    assert_eq!(sas.attest_with_value(&env, &registry, att, contract(3), 0), Ok(UID([7u8; 32])));
}

#[test]
fn multi_attest_is_all_or_nothing() {
    let (registry, mut sas, schema_uid) = deploy();
    let attester = account(1);
    let env = env_at(0, vec![attester]);
    let first = attestation(3, schema_uid, attester, account(2));
    let second = attestation(4, schema_uid, attester, account(2));
    let unknown = attestation(5, UID([77u8; 32]), attester, account(2));

    let res = sas.multi_attest(&env, &registry, vec![first.clone(), unknown]);
    assert_eq!(res, Err(SASError::SchemaNotFound));
    assert!(sas.get_attestation(UID([3u8; 32])).is_none());
    assert_eq!(sas.events().len(), 0);

    let uids = sas.multi_attest(&env, &registry, vec![first, second]).unwrap();
    assert_eq!(uids, vec![UID([3u8; 32]), UID([4u8; 32])]);
    assert_eq!(sas.events().len(), 2);

    let later = env_at(100, vec![attester]);
    assert_eq!(
        sas.multi_revoke(&later, vec![UID([3u8; 32]), UID([6u8; 32])]),
        Err(SASError::AttestationNotFound)
    );
    assert!(sas.verify_attestation(&later, UID([3u8; 32])));
    assert_eq!(sas.multi_revoke(&later, vec![UID([3u8; 32]), UID([4u8; 32])]), Ok(()));
    assert!(!sas.verify_attestation(&later, UID([3u8; 32])));
    assert!(!sas.verify_attestation(&later, UID([4u8; 32])));
}

#[test]
fn verify_attestation_answers_false_once_expired() {
    let (registry, mut sas, schema_uid) = deploy();
    let attester = account(1);
    let mut att = attestation(6, schema_uid, attester, account(2));
    att.expiration_time = 100;
    sas.attest(&env_at(50, vec![attester]), &registry, att).unwrap();
    assert!(sas.verify_attestation(&env_at(99, vec![]), UID([6u8; 32])));
    assert!(!sas.verify_attestation(&env_at(100, vec![]), UID([6u8; 32])));
    assert!(!sas.verify_attestation(&env_at(0, vec![]), UID([7u8; 32])));
}

#[test]
fn offchain_errors_name_the_failed_check() {
    let mut s = setup([31u8; 32]);
    let signature = sign(&s, &s.attestation, 7);
    let other = SigningKey::from_bytes(&[32u8; 32]).verifying_key().to_bytes();
    assert_eq!(
        s.sas.verify_offchain_attestation(&s.env, &s.attestation, 7, other, signature),
        Err(SASError::Unauthorized)
    );
    assert_eq!(
        s.sas.verify_offchain_attestation(&s.env, &s.attestation, 8, public_key(&s), signature),
        Err(SASError::InvalidSignature)
    );
    s.sas.attest(&s.env, &s.registry, s.attestation.clone()).unwrap();
    s.env.timestamp = 100;
    s.sas.revoke(&s.env, s.attestation.uid).unwrap();
    assert_eq!(
        s.sas.verify_offchain_attestation(&s.env, &s.attestation, 7, public_key(&s), signature),
        Err(SASError::AlreadyRevoked)
    );
}

#[test]
fn offchain_signature_is_bound_to_the_contract() {
    let s = setup([31u8; 32]);
    let signature = sign(&s, &s.attestation, 7);
    let mut elsewhere = SAS::deploy(contract(102));
    elsewhere.init(&s.env, account(92), &s.registry).unwrap();
    assert_eq!(
        elsewhere.verify_offchain_attestation(&s.env, &s.attestation, 7, public_key(&s), signature),
        Err(SASError::InvalidSignature)
    );
}

#[test]
fn revoking_at_ledger_time_zero_leaves_it_valid() {
    let (registry, mut sas, schema_uid) = deploy();
    let attester = account(1);
    let env = env_at(0, vec![attester]);
    sas.attest(&env, &registry, attestation(2, schema_uid, attester, account(2))).unwrap();
    sas.revoke(&env, UID([2u8; 32])).unwrap();
    assert_eq!(sas.get_attestation(UID([2u8; 32])).unwrap().revocation_time, 0);
    assert!(sas.verify_attestation(&env, UID([2u8; 32])));
    match sas.events().last() {
        Some(EmittedEvent::AttestationRevoked(e)) => assert_eq!(e.timestamp, 0),
        other => panic!("expected AttestationRevoked, got {other:?}"),
    }
}

#[test]
fn attesting_one_keeps_the_others() {
    let (registry, mut sas, schema_uid) = deploy();
    let attester = account(1);
    let env = env_at(0, vec![attester]);
    let mut first = attestation(1, schema_uid, attester, account(2));
    first.data = vec![7];
    sas.attest(&env, &registry, first).unwrap();
    sas.attest(&env, &registry, attestation(2, schema_uid, attester, account(3))).unwrap();
    let kept = sas.get_attestation(UID([1u8; 32])).unwrap();
    assert_eq!(kept.data, vec![7]);
    assert_eq!(kept.recipient, account(2));
    let mut replaced = attestation(1, schema_uid, attester, account(4));
    replaced.data = vec![8];
    sas.attest(&env, &registry, replaced).unwrap();
    assert_eq!(sas.get_attestation(UID([1u8; 32])).unwrap().data, vec![8]);
    assert_eq!(sas.get_attestation(UID([2u8; 32])).unwrap().recipient, account(3));
}

#[test]
fn offchain_digest_changes_with_every_part_of_the_domain() {
    let s = setup([31u8; 32]);
    let domain = AttestationDomain { network_id: s.env.network_id, contract: s.sas.address(), nonce: 7 };
    let base = hash_offchain_attestation(&s.attestation, &domain);
    assert_eq!(base, hash_offchain_attestation(&s.attestation, &domain));
    let other_nonce = AttestationDomain { nonce: 8, ..domain };
    assert_ne!(base, hash_offchain_attestation(&s.attestation, &other_nonce));
    let other_network = AttestationDomain { network_id: network_id("other network"), ..domain };
    assert_ne!(base, hash_offchain_attestation(&s.attestation, &other_network));
    let other_contract = AttestationDomain { contract: contract(102), ..domain };
    assert_ne!(base, hash_offchain_attestation(&s.attestation, &other_contract));
    let mut revoked = s.attestation.clone();
    revoked.revocation_time = 5;
    assert_eq!(base, hash_offchain_attestation(&revoked, &domain));
}
