//! Properties of the contracts that span several operations.
use vstd::prelude::*;
use crate::contract_events::{AttestationRevokedEvent, EmittedEvent};
use crate::env::Env;
use crate::offchain::{
    lemma_offchain_preimage_layout, lemma_u64_be_injective, offchain_preimage, AttestationDomain,
};
use crate::indexer::{page, uids_by_attester, uids_by_recipient, uids_by_schema, IndexEntry};
use crate::events::{decode_event, sas_events_of, ContractEvent};
use crate::registry::{
    find_schema, lemma_find_schema, lemma_find_schema_push, RegistryView, INSTANCE_EXTEND_TO_LEDGERS,
    LEDGERS_IN_ONE_YEAR,
};
use crate::sas::{
    find_attestation, is_expired, lemma_find_attestation, lemma_find_attestation_unique,
    lemma_store_attestation, SasView,
};
use crate::types::{
    lemma_address_bytes_injective, lemma_bytes32_view_injective, Address, AttestationView,
    SchemaRecordView, UID,
};

verus! {

/// Read after write: a schema that has just been registered is served by
/// `get_schema` and accepted by `validate_schema`, with its registrant
/// recorded as creator, unless its identifier had been deprecated
/// beforehand; every other identifier is served as before.
pub proof fn law_registered_schema_is_served(
    v: RegistryView,
    record: SchemaRecordView,
    owner: Address,
    seq: int,
    other: Seq<u8>,
)
    requires
        v.consistent(),
        !v.is_registered(record.uid.0@),
        !v.deprecated.contains_key(record.uid.0@),
    ensures
        v.registered(record, owner, seq).active_schema(record.uid.0@) == Some(record),
        v.registered(record, owner, seq).schema_is_valid(record.uid.0@),
        v.registered(record, owner, seq).creator_of(record.uid.0@) == Some(owner),
        other != record.uid.0@ ==> v.registered(record, owner, seq).active_schema(other)
            == v.active_schema(other),
{
    lemma_find_schema_push(v.schemas, record, record.uid.0@);
    lemma_find_schema_push(v.schemas, record, other);
    lemma_find_schema(v.schemas, other);
    if let Some(i) = find_schema(v.schemas, other) {
        assert(v.schemas.push(record)[i] == v.schemas[i]);
    }
}

/// A definition can be registered only once: after its registration its
/// identifier is registered, so registering it again is refused with
/// `SchemaAlreadyExists`.
pub proof fn law_registration_is_unique(
    v: RegistryView,
    record: SchemaRecordView,
    owner: Address,
    seq: int,
)
    ensures
        v.registered(record, owner, seq).is_registered(record.uid.0@),
{
    lemma_find_schema_push(v.schemas, record, record.uid.0@);
}

/// A deprecated schema is no longer served or validated, and deprecating
/// one schema changes what is served for no other.
pub proof fn law_deprecated_schema_is_not_served(
    v: RegistryView,
    key: Seq<u8>,
    seq: int,
    other: Seq<u8>,
)
    ensures
        v.deprecated_with(key, seq).active_schema(key) is None,
        !v.deprecated_with(key, seq).schema_is_valid(key),
        other != key ==> v.deprecated_with(key, seq).active_schema(other) == v.active_schema(
            other,
        ),
{
}

/// Registration and deprecation keep the registry's storage consistent.
pub proof fn law_registry_stays_consistent(
    v: RegistryView,
    record: SchemaRecordView,
    owner: Address,
    key: Seq<u8>,
    seq: int,
)
    requires
        v.consistent(),
        v.schemas.len() < u32::MAX,
        !v.is_registered(record.uid.0@),
    ensures
        v.registered(record, owner, seq).consistent(),
        v.deprecated_with(key, seq).consistent(),
{
    lemma_find_schema(v.schemas, record.uid.0@);
    let w = v.registered(record, owner, seq);
    assert forall|i: int, j: int| 0 <= i < j < w.schemas.len() implies w.schemas[i].uid
        != w.schemas[j].uid by {
        if j == v.schemas.len() {
            crate::types::lemma_bytes32_view_injective(v.schemas[i].uid.0, record.uid.0);
        }
    }
}

/// Traffic keeps the registry alive: after any invocation on ledger `seq`
/// that changes the registry (`init`, `register`, `deprecate`, `set_fee`,
/// `set_treasury`, `upgrade`, `withdraw_fees`), the contract instance is
/// live on every ledger up to `seq + INSTANCE_EXTEND_TO_LEDGERS`, and its
/// life is never shortened.
pub proof fn law_traffic_renews_the_instance(
    v: RegistryView,
    record: SchemaRecordView,
    owner: Address,
    key: Seq<u8>,
    seq: int,
    later: int,
)
    requires
        later <= seq + INSTANCE_EXTEND_TO_LEDGERS,
    ensures
        v.renewed(seq).instance_live(later),
        v.registered(record, owner, seq).instance_live(later),
        v.deprecated_with(key, seq).instance_live(later),
        v.renewed(seq).instance_live_until >= v.instance_live_until,
        v.registered(record, owner, seq).instance_live_until >= v.instance_live_until,
        v.deprecated_with(key, seq).instance_live_until >= v.instance_live_until,
{
}

/// A registration on ledger `seq` keeps the new schema's record, creator
/// and position, and the schema count, alive for a year: through
/// `seq + LEDGERS_IN_ONE_YEAR`, and no entry of another schema changes its
/// ledger.
pub proof fn law_registered_entries_live_a_year(
    v: RegistryView,
    record: SchemaRecordView,
    owner: Address,
    seq: int,
    other: Seq<u8>,
)
    requires
        v.consistent(),
    ensures
        v.registered(record, owner, seq).schema_live_until(record.uid.0@) == Some(
            seq + LEDGERS_IN_ONE_YEAR,
        ),
        v.registered(record, owner, seq).count_live_until >= seq + LEDGERS_IN_ONE_YEAR,
        other != record.uid.0@ ==> v.registered(record, owner, seq).schema_live_until(other)
            == v.schema_live_until(other),
{
    lemma_find_schema_push(v.schemas, record, record.uid.0@);
    lemma_find_schema_push(v.schemas, record, other);
    lemma_find_schema(v.schemas, other);
    if let Some(i) = find_schema(v.schemas, other) {
        assert(v.live_until.push(seq + LEDGERS_IN_ONE_YEAR)[i] == v.live_until[i]);
    }
}

/// A deprecation on ledger `seq` keeps the flag alive for at least a
/// year, through `seq + LEDGERS_IN_ONE_YEAR`: until then the flag can be
/// read, so the schema's entries stay readable as long as its record lives.
pub proof fn law_deprecation_lives_a_year(v: RegistryView, key: Seq<u8>, seq: int, later: int)
    requires
        later <= seq + LEDGERS_IN_ONE_YEAR,
    ensures
        v.deprecated_with(key, seq).deprecated[key] >= seq + LEDGERS_IN_ONE_YEAR,
        v.deprecated_with(key, seq).schema_readable(key, later) <==> (v.schema_live_until(
            key,
        ) matches Some(t) ==> later <= t),
{
}

/// Read after write: an attestation that has just been issued is the one
/// stored under its identifier, and `verify_attestation` accepts it at any
/// time before it expires unless it carries a revocation time.
pub proof fn law_issued_attestation_is_stored(
    v: SasView,
    a: AttestationView,
    resolver: Address,
    now: u64,
)
    requires
        v.consistent(),
    ensures
        v.with_attestation(a, resolver).attestation_of(a.uid) == Some(a),
        v.with_attestation(a, resolver).consistent(),
        v.with_attestation(a, resolver).is_valid_at(a.uid, now) == (a.revocation_time == 0 && !is_expired(
            a,
            now,
        )),
{
    lemma_store_attestation(v.attestations, a);
}

/// Issuing an attestation leaves every other stored attestation as it was.
pub proof fn law_issue_keeps_others(v: SasView, a: AttestationView, resolver: Address, uid: UID)
    requires
        v.consistent(),
        uid != a.uid,
    ensures
        v.with_attestation(a, resolver).attestation_of(uid) == v.attestation_of(uid),
{
    lemma_store_attestation(v.attestations, a);
    let t = crate::sas::store_attestation(v.attestations, a);
    lemma_find_attestation(v.attestations, uid);
    match find_attestation(v.attestations, uid) {
        Some(i) => {
            lemma_find_attestation(v.attestations, a.uid);
            assert(t[i] == v.attestations[i]);
        },
        None => {},
    }
}

/// After a revocation, the stored revocation time is the ledger time of the
/// revocation and the `AttestationRevoked` event carries exactly that time,
/// so events and storage never diverge; the attestation is no longer valid
/// at any time, unless it was revoked at ledger time 0, which storage
/// cannot tell apart from "not revoked".
pub proof fn law_revoked_attestation_is_invalid(v: SasView, env: &Env, uid: UID, later: u64)
    requires
        v.consistent(),
        v.revoke_outcome(env, uid) is Ok,
    ensures
        ({
            let w = v.revoke_outcome(env, uid).unwrap();
            &&& w.attestation_of(uid) matches Some(a) && a.revocation_time == env.timestamp
            &&& env.timestamp > 0 ==> !w.is_valid_at(uid, later)
            &&& w.events.last() == EmittedEvent::AttestationRevoked(
                AttestationRevokedEvent { uid, timestamp: env.timestamp },
            )
            &&& w.consistent()
        }),
{
    let i = find_attestation(v.attestations, uid).unwrap();
    lemma_find_attestation(v.attestations, uid);
    let w = v.revoke_outcome(env, uid).unwrap();
    assert forall|p: int, q: int| 0 <= p < q < w.attestations.len() implies w.attestations[p].uid
        != w.attestations[q].uid by {
        assert(w.attestations[p].uid == v.attestations[p].uid);
        assert(w.attestations[q].uid == v.attestations[q].uid);
    }
    lemma_find_attestation_unique(w.attestations, uid, i);
}

/// Read after write in the indexer: an indexed attestation is appended to
/// the lists of its recipient, its schema and its attester, and to no other
/// list.
pub proof fn law_indexed_attestation_is_listed(
    entries: Seq<IndexEntry>,
    e: IndexEntry,
    recipient: Address,
    schema_uid: UID,
    attester: Address,
)
    ensures
        uids_by_recipient(entries.push(e), recipient) == if recipient == e.recipient {
            uids_by_recipient(entries, recipient).push(e.uid)
        } else {
            uids_by_recipient(entries, recipient)
        },
        uids_by_schema(entries.push(e), schema_uid) == if schema_uid == e.schema_uid {
            uids_by_schema(entries, schema_uid).push(e.uid)
        } else {
            uids_by_schema(entries, schema_uid)
        },
        uids_by_attester(entries.push(e), attester) == if attester == e.attester {
            uids_by_attester(entries, attester).push(e.uid)
        } else {
            uids_by_attester(entries, attester)
        },
{
    assert(entries.push(e).drop_last() =~= entries);
    assert(uids_by_recipient(entries, recipient) + seq![e.uid] =~= uids_by_recipient(
        entries,
        recipient,
    ).push(e.uid));
    assert(uids_by_schema(entries, schema_uid) + seq![e.uid] =~= uids_by_schema(
        entries,
        schema_uid,
    ).push(e.uid));
    assert(uids_by_attester(entries, attester) + seq![e.uid] =~= uids_by_attester(
        entries,
        attester,
    ).push(e.uid));
    assert(uids_by_recipient(entries, recipient) + Seq::<UID>::empty() =~= uids_by_recipient(
        entries,
        recipient,
    ));
    assert(uids_by_schema(entries, schema_uid) + Seq::<UID>::empty() =~= uids_by_schema(
        entries,
        schema_uid,
    ));
    assert(uids_by_attester(entries, attester) + Seq::<UID>::empty() =~= uids_by_attester(
        entries,
        attester,
    ));
}

/// Off-chain signatures are domain separated and bind every signed field:
/// two attestations have the same signed bytes only when they were signed
/// for the same network, the same verifying contract and the same nonce,
/// and agree on every field but the on-chain revocation time. A signature
/// made for one network, contract, nonce or payload is therefore never a
/// signature over the bytes of another.
pub proof fn law_offchain_preimage_binds_domain_and_fields(
    a: AttestationView,
    b: AttestationView,
    d: AttestationDomain,
    e: AttestationDomain,
)
    ensures
        offchain_preimage(a, d) == offchain_preimage(b, e) ==> {
            &&& d == e
            &&& a.uid == b.uid
            &&& a.schema_uid == b.schema_uid
            &&& a.time == b.time
            &&& a.expiration_time == b.expiration_time
            &&& a.ref_uid == b.ref_uid
            &&& a.recipient == b.recipient
            &&& a.attester == b.attester
            &&& a.revocable == b.revocable
            &&& a.data == b.data
        },
{
    if offchain_preimage(a, d) == offchain_preimage(b, e) {
        lemma_offchain_preimage_layout(a, d);
        lemma_offchain_preimage_layout(b, e);
        lemma_bytes32_view_injective(d.network_id, e.network_id);
        lemma_address_bytes_injective(d.contract, e.contract);
        lemma_u64_be_injective(d.nonce, e.nonce);
        lemma_bytes32_view_injective(a.uid.0, b.uid.0);
        lemma_bytes32_view_injective(a.schema_uid.0, b.schema_uid.0);
        lemma_u64_be_injective(a.time, b.time);
        lemma_u64_be_injective(a.expiration_time, b.expiration_time);
        lemma_bytes32_view_injective(a.ref_uid.0, b.ref_uid.0);
        lemma_address_bytes_injective(a.recipient, b.recipient);
        lemma_address_bytes_injective(a.attester, b.attester);
    }
}

/// A page is the window of the list that starts at `start`: it holds
/// `min(limit, len - start)` identifiers (none when `start` is past the
/// end), and its `k`-th identifier is the list's identifier at position
/// `start + k`; in particular a page starting inside the list begins with
/// the identifier at `start`.
pub proof fn law_page_is_the_window_at_start(s: Seq<UID>, start: int, limit: int)
    requires
        0 <= start,
        0 <= limit,
    ensures
        page(s, start, limit).len() == if start >= s.len() {
            0
        } else if start + limit < s.len() {
            limit
        } else {
            s.len() - start
        },
        forall|k: int|
            0 <= k < page(s, start, limit).len() ==> #[trigger] page(s, start, limit)[k] == s[start
                + k],
        start < s.len() && limit > 0 ==> page(s, start, limit)[0] == s[start],
{
}

/// Consecutive pages tile the list: the page at `start` of `a + b` items
/// is the page at `start` of `a` items followed by the page at
/// `start + a` of `b` items.
pub proof fn law_consecutive_pages_tile(s: Seq<UID>, start: int, a: int, b: int)
    requires
        0 <= start,
        0 <= a,
        0 <= b,
    ensures
        page(s, start, a + b) == page(s, start, a) + page(s, start + a, b),
{
    law_page_is_the_window_at_start(s, start, a);
    law_page_is_the_window_at_start(s, start + a, b);
    law_page_is_the_window_at_start(s, start, a + b);
    assert(page(s, start, a + b) =~= page(s, start, a) + page(s, start + a, b));
}

/// Parsing a batch one event longer: an event that `parse_event` decodes
/// is appended to the batch's events, any other event adds nothing.
pub proof fn law_batch_keeps_every_decoded_event(events: Seq<ContractEvent>, ev: ContractEvent)
    ensures
        decode_event(ev.topics@, ev.data) matches Ok(x) ==> sas_events_of(events.push(ev))
            == sas_events_of(events).push(x),
        decode_event(ev.topics@, ev.data) is Err ==> sas_events_of(events.push(ev))
            == sas_events_of(events),
{
    assert(events.push(ev).drop_last() =~= events);
    assert(events.push(ev).last() == ev);
    if let Ok(x) = decode_event(ev.topics@, ev.data) {
        assert(sas_events_of(events) + seq![x] =~= sas_events_of(events).push(x));
    } else {
        assert(sas_events_of(events) + Seq::<crate::events::SasEventView>::empty() =~= sas_events_of(
            events,
        ));
    }
}

/// Parsing two batches one after the other gives what parsing them as one
/// batch gives.
pub proof fn law_batches_concatenate(a: Seq<ContractEvent>, b: Seq<ContractEvent>)
    ensures
        sas_events_of(a + b) == sas_events_of(a) + sas_events_of(b),
    decreases b.len(),
{
    if b.len() == 0 {
        assert(a + b =~= a);
        assert(sas_events_of(a) + sas_events_of(b) =~= sas_events_of(a));
    } else {
        let ev = b.last();
        law_batches_concatenate(a, b.drop_last());
        assert((a + b).drop_last() =~= a + b.drop_last());
        assert((a + b).last() == ev);
        assert(sas_events_of(a + b) =~= sas_events_of(a) + sas_events_of(b));
    }
}

/// An empty batch parses to no events, and a batch of one event that
/// `parse_event` decodes parses to exactly that event; one that does not
/// decode parses to nothing.
pub proof fn law_single_event_batch(ev: ContractEvent)
    ensures
        sas_events_of(Seq::<ContractEvent>::empty()).len() == 0,
        decode_event(ev.topics@, ev.data) matches Ok(x) ==> sas_events_of(seq![ev]) == seq![x],
        decode_event(ev.topics@, ev.data) is Err ==> sas_events_of(seq![ev]).len() == 0,
{
    law_batch_keeps_every_decoded_event(Seq::empty(), ev);
    assert(Seq::<ContractEvent>::empty().push(ev) =~= seq![ev]);
    assert(sas_events_of(Seq::<ContractEvent>::empty()) =~= Seq::empty());
    if let Ok(x) = decode_event(ev.topics@, ev.data) {
        assert(Seq::<crate::events::SasEventView>::empty().push(x) =~= seq![x]);
    }
}

} // verus!
