//! Standardized events emitted by the attestation contracts.
//!
//! Off-chain indexing services subscribe to these to build queryable views
//! of the attestation graph without reading contract storage. Each event
//! is published with a topic list that starts with its symbol (for
//! example `ATTESTED`) followed by the keys given in its documentation.
use vstd::prelude::*;
use crate::types::{Address, Attestation, UID};

verus! {

/// Payload of the `SchemaRegistered` event, published with topics
/// `("REGISTER", schema_uid)`.
#[derive(Clone, Copy, Debug)]
pub struct SchemaRegisteredEvent {
    pub schema_uid: UID,
    pub owner: Address,
}

/// Payload of the `AttestationIssued` event, published with topics
/// `("ATTESTED", schema_uid, attester)`.
#[derive(Clone, Copy, Debug)]
pub struct AttestationIssuedEvent {
    pub uid: UID,
    pub schema_uid: UID,
    pub attester: Address,
    pub recipient: Address,
}

/// Payload of the `AttestationRevoked` event, published with topics
/// `("REVOKED", uid)`. `timestamp` is the revocation time recorded for
/// the attestation.
#[derive(Clone, Copy, Debug)]
pub struct AttestationRevokedEvent {
    pub uid: UID,
    pub timestamp: u64,
}

/// Payload of the `SchemaFeeUpdated` event, published with topics
/// its own symbol and the authorizer.
#[derive(Clone, Copy, Debug)]
pub struct SchemaFeeUpdatedEvent {
    pub old_fee: Option<i128>,
    pub new_fee: i128,
    pub authorizer: Address,
}

/// Payload of the `TreasuryUpdated` event, published with topics
/// its own symbol and the authorizer.
#[derive(Clone, Copy, Debug)]
pub struct TreasuryUpdatedEvent {
    pub old_treasury: Option<Address>,
    pub new_treasury: Address,
    pub authorizer: Address,
}

/// Payload of the `ContractUpgraded` event, published with topics
/// its own symbol and the authorizer.
#[derive(Clone, Copy, Debug)]
pub struct ContractUpgradedEvent {
    pub old_wasm_hash: [u8; 32],
    pub new_wasm_hash: [u8; 32],
    pub authorizer: Address,
}

/// Payload of the `IndexerUpdated` event, published with topics
/// its own symbol and the authorizer.
#[derive(Clone, Copy, Debug)]
pub struct IndexerUpdatedEvent {
    pub old_indexer: Option<Address>,
    pub new_indexer: Address,
    pub authorizer: Address,
}

/// Payload of the `AttesterKeyRegistered` event.
#[derive(Clone, Copy, Debug)]
pub struct AttesterKeyRegisteredEvent {
    pub attester: Address,
    pub public_key: [u8; 32],
    pub version: u32,
}

/// Payload of the `AttesterKeyRotated` event.
#[derive(Clone, Copy, Debug)]
pub struct AttesterKeyRotatedEvent {
    pub attester: Address,
    pub old_public_key: [u8; 32],
    pub new_public_key: [u8; 32],
    pub new_version: u32,
}

/// Payload of the `AttesterKeyRevoked` event.
#[derive(Clone, Copy, Debug)]
pub struct AttesterKeyRevokedEvent {
    pub attester: Address,
    pub public_key: [u8; 32],
    pub version: u32,
}

/// An event published by one of the contracts.
#[derive(Clone, Copy, Debug)]
pub enum EmittedEvent {
    SchemaRegistered(SchemaRegisteredEvent),
    AttestationIssued(AttestationIssuedEvent),
    AttestationRevoked(AttestationRevokedEvent),
    SchemaFeeUpdated(SchemaFeeUpdatedEvent),
    TreasuryUpdated(TreasuryUpdatedEvent),
    ContractUpgraded(ContractUpgradedEvent),
    IndexerUpdated(IndexerUpdatedEvent),
}

/// The `AttestationIssued` event for `a`.
pub open spec fn attested_event(a: crate::types::AttestationView) -> EmittedEvent {
    EmittedEvent::AttestationIssued(
        AttestationIssuedEvent {
            uid: a.uid,
            schema_uid: a.schema_uid,
            attester: a.attester,
            recipient: a.recipient,
        },
    )
}

/// Publishes the `AttestationIssued` event for `attestation`.
pub fn publish_attested(events: &mut Vec<EmittedEvent>, attestation: &Attestation)
    ensures
        final(events)@ == old(events)@.push(attested_event(attestation@)),
{
    events.push(
        EmittedEvent::AttestationIssued(
            AttestationIssuedEvent {
                uid: attestation.uid,
                schema_uid: attestation.schema_uid,
                attester: attestation.attester,
                recipient: attestation.recipient,
            },
        ),
    );
}

/// Publishes the `AttestationRevoked` event; `timestamp` must be the
/// revocation time written to storage.
pub fn publish_revoked(events: &mut Vec<EmittedEvent>, uid: &UID, timestamp: u64)
    ensures
        final(events)@ == old(events)@.push(
            EmittedEvent::AttestationRevoked(AttestationRevokedEvent { uid: *uid, timestamp }),
        ),
{
    events.push(EmittedEvent::AttestationRevoked(AttestationRevokedEvent { uid: *uid, timestamp }));
}

/// Publishes the `IndexerUpdated` event, after the new binding has been
/// written.
pub fn publish_indexer_updated(
    events: &mut Vec<EmittedEvent>,
    old_indexer: Option<Address>,
    new_indexer: Address,
    authorizer: Address,
)
    ensures
        final(events)@ == old(events)@.push(
            EmittedEvent::IndexerUpdated(IndexerUpdatedEvent { old_indexer, new_indexer, authorizer }),
        ),
{
    events.push(EmittedEvent::IndexerUpdated(IndexerUpdatedEvent { old_indexer, new_indexer, authorizer }));
}

} // verus!
