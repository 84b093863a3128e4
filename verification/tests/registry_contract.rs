use soroban_sas::contract_events::EmittedEvent;
use soroban_sas::env::Env;
use soroban_sas::errors::SASError;
use soroban_sas::registry::{
    SchemaRegistry, INSTANCE_EXTEND_TO_LEDGERS, LEDGERS_IN_ONE_YEAR, MIN_ENTRY_TTL,
};
use soroban_sas::types::{Address, UID};

fn account(n: u8) -> Address {
    Address::Account([n; 32])
}

fn contract(n: u8) -> Address {
    Address::Contract([n; 32])
}

fn env_with(authorized: Vec<Address>) -> Env {
    Env::new(0, [0u8; 32], authorized)
}

#[test]
fn test_register_schema() {
    let mut registry = SchemaRegistry::deploy(&env_with(vec![]), contract(100));
    let owner = account(1);
    let resolver = contract(2);
    let env = env_with(vec![owner]);
    let uid = registry.register(&env, owner, b"bool like_soroban".to_vec(), resolver, true).unwrap();
    let record = registry.get_schema(&env, uid).unwrap();
    assert_eq!(record.schema, b"bool like_soroban".to_vec());
    assert!(record.revocable);
    assert_eq!(record.resolver, resolver);
}

#[test]
fn test_register_rejects_malformed_schema_strings() {
    let mut registry = SchemaRegistry::deploy(&env_with(vec![]), contract(100));
    let owner = account(1);
    let env = env_with(vec![owner]);
    for schema in ["!!!", " ", "12345"] {
        let res = registry.register(&env, owner, schema.as_bytes().to_vec(), contract(2), true);
        assert_eq!(res, Err(SASError::InvalidSchema));
    }
}

#[test]
fn test_register_emits_schema_registered_event() {
    let mut registry = SchemaRegistry::deploy(&env_with(vec![]), contract(100));
    let owner = account(1);
    let env = env_with(vec![owner]);
    let uid = registry.register(&env, owner, b"bool like_soroban".to_vec(), contract(2), true).unwrap();
    let events = registry.events();
    assert_eq!(events.len(), 1);
    match events[0] {
        EmittedEvent::SchemaRegistered(e) => {
            assert_eq!(e.schema_uid, uid);
            assert_eq!(e.owner, owner);
        }
        other => panic!("expected SchemaRegistered, got {other:?}"),
    }
}

#[test]
fn test_fee_and_treasury() {
    let mut registry = SchemaRegistry::deploy(&env_with(vec![]), contract(100));
    let admin = account(1);
    let treasury = account(2);
    registry.init(&env_with(vec![]), admin).unwrap();
    let env = env_with(vec![admin]);
    assert_eq!(registry.set_fee(&env, 1000), Ok(()));
    assert_eq!(registry.set_treasury(&env, treasury), Ok(()));
    assert_eq!(registry.withdraw_fees(&env, 500), Ok(()));
    assert_eq!(registry.get_fee(), Some(1000));
    assert_eq!(registry.get_treasury(), Some(treasury));
}

#[test]
fn test_deprecate() {
    let mut registry = SchemaRegistry::deploy(&env_with(vec![]), contract(100));
    let admin = account(1);
    let owner = account(2);
    let env = env_with(vec![admin, owner]);
    registry.init(&env, admin).unwrap();
    let uid = registry.register(&env, owner, b"bool like_soroban".to_vec(), contract(3), true).unwrap();
    assert!(registry.get_schema(&env, uid).is_some());
    registry.deprecate(&env, uid, owner).unwrap();
    assert!(registry.get_schema(&env, uid).is_none());
}

#[test]
fn test_deprecate_by_admin() {
    let mut registry = SchemaRegistry::deploy(&env_with(vec![]), contract(100));
    let admin = account(1);
    let owner = account(2);
    let env = env_with(vec![admin, owner]);
    registry.init(&env, admin).unwrap();
    let uid = registry.register(&env, owner, b"bool like_soroban".to_vec(), contract(3), true).unwrap();
    registry.deprecate(&env, uid, admin).unwrap();
    assert!(registry.get_schema(&env, uid).is_none());
}

#[test]
fn test_deprecate_rejects_unrelated_authorizer() {
    let mut registry = SchemaRegistry::deploy(&env_with(vec![]), contract(100));
    let admin = account(1);
    let owner = account(2);
    let unrelated = account(3);
    let env = env_with(vec![admin, owner, unrelated]);
    registry.init(&env, admin).unwrap();
    let uid = registry.register(&env, owner, b"bool like_soroban".to_vec(), contract(4), true).unwrap();
    assert_eq!(registry.deprecate(&env, uid, unrelated), Err(SASError::Unauthorized));
    assert!(registry.get_schema(&env, uid).is_some());
}

#[test]
fn test_validate_schema() {
    let mut registry = SchemaRegistry::deploy(&env_with(vec![]), contract(100));
    let admin = account(1);
    let owner = account(2);
    let env = env_with(vec![admin, owner]);
    registry.init(&env, admin).unwrap();
    let uid = registry.register(&env, owner, b"bool like_soroban".to_vec(), contract(3), true).unwrap();
    assert!(registry.validate_schema(&env, uid));
    registry.deprecate(&env, uid, owner).unwrap();
    assert!(!registry.validate_schema(&env, uid));
}

#[test]
fn test_test_init_twice_is_rejected() {
    let mut registry = SchemaRegistry::deploy(&env_with(vec![]), contract(100));
    let admin = account(1);
    let env = env_with(vec![]);
    registry.init(&env, admin).unwrap();
    assert_eq!(registry.init(&env, admin), Err(SASError::AlreadyInitialized));
}

#[test]
fn test_instance_configuration_survives_long_after_init() {
    let mut registry = SchemaRegistry::deploy(&env_with(vec![]), contract(100));
    let admin = account(1);
    registry.init(&env_with(vec![]), admin).unwrap();

    let later = env_with(vec![]).at_ledger(INSTANCE_EXTEND_TO_LEDGERS - 1000);
    assert!(u64::from(later.ledger_sequence) <= registry.instance_live_until());
    assert_eq!(registry.init(&later, admin), Err(SASError::AlreadyInitialized));
    assert_eq!(registry.get_admin(), Some(admin));
}

#[test]
fn test_ordinary_traffic_renews_decayed_instance_ttl() {
    let mut registry = SchemaRegistry::deploy(&env_with(vec![]), contract(100));
    let admin = account(1);
    registry.init(&env_with(vec![]), admin).unwrap();

    let owner = account(2);
    let resolver = contract(3);

    let first = env_with(vec![owner]).at_ledger(INSTANCE_EXTEND_TO_LEDGERS - 1000);
    assert!(u64::from(first.ledger_sequence) <= registry.instance_live_until());
    registry.register(&first, owner, b"schema one".to_vec(), resolver, true).unwrap();

    let second = env_with(vec![owner]).at_ledger(2 * (INSTANCE_EXTEND_TO_LEDGERS - 1000));
    assert!(u64::from(second.ledger_sequence) <= registry.instance_live_until());
    registry.register(&second, owner, b"schema two".to_vec(), resolver, true).unwrap();
    assert_eq!(registry.schema_count(&second), 2);
}

#[test]
fn an_instance_left_alone_is_archived_after_its_minimum_life() {
    let mut registry = SchemaRegistry::deploy(&env_with(vec![]), contract(100));
    assert_eq!(registry.instance_live_until(), u64::from(MIN_ENTRY_TTL) - 1);
    registry.init(&env_with(vec![]), account(1)).unwrap();
    assert_eq!(registry.instance_live_until(), u64::from(INSTANCE_EXTEND_TO_LEDGERS));
    let too_late = u64::from(2 * (INSTANCE_EXTEND_TO_LEDGERS - 1000));
    assert!(too_late > registry.instance_live_until());
}

#[test]
fn every_change_renews_the_instance_from_its_own_ledger() {
    let mut registry = SchemaRegistry::deploy(&env_with(vec![]), contract(100));
    let admin = account(1);
    registry.init(&env_with(vec![]), admin).unwrap();
    let at = |seq: u32| env_with(vec![admin]).at_ledger(seq);
    registry.set_fee(&at(100_000), 5).unwrap();
    assert_eq!(registry.instance_live_until(), 100_000 + u64::from(INSTANCE_EXTEND_TO_LEDGERS));
    registry.set_treasury(&at(200_000), account(2)).unwrap();
    assert_eq!(registry.instance_live_until(), 200_000 + u64::from(INSTANCE_EXTEND_TO_LEDGERS));
    registry.withdraw_fees(&at(300_000), 1).unwrap();
    assert_eq!(registry.instance_live_until(), 300_000 + u64::from(INSTANCE_EXTEND_TO_LEDGERS));
    assert_eq!(registry.set_fee(&env_with(vec![]).at_ledger(400_000), 6), Err(SASError::Unauthorized));
    assert_eq!(registry.instance_live_until(), 300_000 + u64::from(INSTANCE_EXTEND_TO_LEDGERS));
    registry.withdraw_fees(&at(10), 1).unwrap();
    assert_eq!(registry.instance_live_until(), 300_000 + u64::from(INSTANCE_EXTEND_TO_LEDGERS));
}

#[test]
fn registered_and_deprecated_entries_live_a_year() {
    let mut registry = SchemaRegistry::deploy(&env_with(vec![]), contract(100));
    let admin = account(1);
    let owner = account(2);
    registry.init(&env_with(vec![]), admin).unwrap();
    let env = env_with(vec![admin, owner]).at_ledger(50_000);
    let uid = registry.register(&env, owner, b"bool like".to_vec(), contract(3), true).unwrap();
    assert_eq!(registry.schema_live_until(uid), Some(50_000 + u64::from(LEDGERS_IN_ONE_YEAR)));
    assert_eq!(registry.schema_live_until(UID([9u8; 32])), None);
    assert_eq!(registry.deprecation_live_until(uid), None);

    let later = env_with(vec![admin]).at_ledger(60_000);
    registry.deprecate(&later, uid, admin).unwrap();
    assert_eq!(registry.deprecation_live_until(uid), Some(60_000 + u64::from(LEDGERS_IN_ONE_YEAR)));
    assert_eq!(registry.instance_live_until(), 60_000 + u64::from(INSTANCE_EXTEND_TO_LEDGERS));
    assert!(registry.get_schema(&later, uid).is_none());

    let earlier = env_with(vec![admin]).at_ledger(55_000);
    registry.deprecate(&earlier, uid, admin).unwrap();
    assert_eq!(registry.deprecation_live_until(uid), Some(60_000 + u64::from(LEDGERS_IN_ONE_YEAR)));
}

#[test]
fn registering_the_same_definition_twice_is_refused() {
    let mut registry = SchemaRegistry::deploy(&env_with(vec![]), contract(100));
    let owner = account(1);
    let env = env_with(vec![owner]);
    let first = registry.register(&env, owner, b"bool like".to_vec(), contract(2), true);
    assert!(first.is_ok());
    let again = registry.register(&env, account(1), b"bool like".to_vec(), contract(3), false);
    assert_eq!(again, Err(SASError::SchemaAlreadyExists));
    assert_eq!(registry.schema_count(&env), 1);
}

#[test]
fn register_requires_the_owners_authorization() {
    let mut registry = SchemaRegistry::deploy(&env_with(vec![]), contract(100));
    let env = env_with(vec![account(9)]);
    let res = registry.register(&env, account(1), b"bool like".to_vec(), contract(2), true);
    assert_eq!(res, Err(SASError::Unauthorized));
    assert_eq!(registry.events().len(), 0);
}

#[test]
fn schema_uid_is_the_digest_of_the_xdr_string() {
    let mut registry = SchemaRegistry::deploy(&env_with(vec![]), contract(100));
    let owner = account(1);
    let env = env_with(vec![owner]);
    let uid = registry.register(&env, owner, b"bool like".to_vec(), contract(2), true).unwrap();
    let xdr = [0, 0, 0, 14, 0, 0, 0, 9, b'b', b'o', b'o', b'l', b' ', b'l', b'i', b'k', b'e', 0, 0, 0];
    let host = soroban_sdk::Env::default();
    let digest = host.crypto().sha256(&soroban_sdk::Bytes::from_slice(&host, &xdr)).to_array();
    assert_eq!(uid, UID(digest));
    let string = soroban_sdk::String::from_str(&host, "bool like");
    let encoded = soroban_sdk::xdr::ToXdr::to_xdr(string, &host);
    assert_eq!(encoded, soroban_sdk::Bytes::from_slice(&host, &xdr));
}

#[test]
fn admin_operations_are_refused_before_init_and_to_strangers() {
    let mut registry = SchemaRegistry::deploy(&env_with(vec![]), contract(100));
    let admin = account(1);
    let env = env_with(vec![admin]);
    assert_eq!(registry.set_fee(&env, 10), Err(SASError::Unauthorized));
    assert_eq!(registry.upgrade(&env, [7u8; 32]), Err(SASError::Unauthorized));
    registry.init(&env, admin).unwrap();
    let stranger = env_with(vec![account(2)]);
    assert_eq!(registry.set_fee(&stranger, 10), Err(SASError::Unauthorized));
    assert_eq!(registry.set_treasury(&stranger, account(3)), Err(SASError::Unauthorized));
    assert_eq!(registry.withdraw_fees(&stranger, 1), Err(SASError::Unauthorized));
    assert_eq!(registry.get_fee(), None);
}

#[test]
fn upgrade_records_the_new_hash_and_an_event() {
    let mut registry = SchemaRegistry::deploy(&env_with(vec![]), contract(100));
    let admin = account(1);
    let env = env_with(vec![admin]).with_uploaded_wasm([7u8; 32]);
    registry.init(&env, admin).unwrap();
    assert_eq!(registry.upgrade(&env, [7u8; 32]), Ok(()));
    match registry.events().last() {
        Some(EmittedEvent::ContractUpgraded(e)) => {
            assert_eq!(e.new_wasm_hash, [7u8; 32]);
            assert_eq!(e.authorizer, admin);
        }
        other => panic!("expected ContractUpgraded, got {other:?}"),
    }
}

#[test]
fn get_schemas_pages_in_registration_order() {
    let mut registry = SchemaRegistry::deploy(&env_with(vec![]), contract(100));
    let owner = account(1);
    let env = env_with(vec![owner]);
    let a = registry.register(&env, owner, b"a".to_vec(), contract(2), true).unwrap();
    let b = registry.register(&env, owner, b"b".to_vec(), contract(2), true).unwrap();
    let c = registry.register(&env, owner, b"c".to_vec(), contract(2), true).unwrap();
    let page: Vec<UID> = registry.get_schemas(&env, 1, 5).iter().map(|r| r.uid).collect();
    assert_eq!(page, vec![b, c]);
    let page: Vec<UID> = registry.get_schemas(&env, 0, 1).iter().map(|r| r.uid).collect();
    assert_eq!(page, vec![a]);
    assert!(registry.get_schemas(&env, 3, 2).is_empty());
}

#[test]
fn set_fee_refuses_a_negative_fee() {
    let mut registry = SchemaRegistry::deploy(&env_with(vec![]), contract(100));
    let admin = account(1);
    let env = env_with(vec![admin]);
    registry.init(&env, admin).unwrap();
    assert_eq!(registry.set_fee(&env, -1), Err(SASError::InvalidValue));
    assert_eq!(registry.get_fee(), None);
    assert_eq!(registry.events().len(), 0);
    assert_eq!(registry.set_fee(&env, 0), Ok(()));
    assert_eq!(registry.get_fee(), Some(0));
    let stranger = env_with(vec![account(2)]);
    assert_eq!(registry.set_fee(&stranger, -1), Err(SASError::Unauthorized));
}
