//! Decoding SAS contract events out of Soroban RPC responses.
//!
//! Soroban RPC returns contract events as a list of topic values plus a
//! data value. The functions here decode the standardized SAS events
//! (`SchemaRegistered`, `AttestationIssued` and `AttestationRevoked`) into
//! plain values that off-chain indexers can consume directly.
use vstd::prelude::*;
use crate::types::Address;

verus! {

/// A Soroban contract value, as far as event decoding needs to see it.
/// Variants the decoder never inspects are represented by `Other`.
#[derive(Debug)]
pub enum ScValue {
    Void,
    Bool(bool),
    U32(u32),
    I32(i32),
    U64(u64),
    I64(i64),
    Bytes(Vec<u8>),
    String(Vec<u8>),
    Symbol(Vec<u8>),
    Vector(Option<Vec<ScValue>>),
    Mapping(Option<Vec<ScMapEntry>>),
    Address(Address),
    Other,
}

/// One key/value pair of a contract map.
#[derive(Debug)]
pub struct ScMapEntry {
    pub key: ScValue,
    pub val: ScValue,
}

/// A contract event: its topics and its data.
#[derive(Debug)]
pub struct ContractEvent {
    pub topics: Vec<ScValue>,
    pub data: ScValue,
}

/// First topic of a `SchemaRegistered` event: the symbol `REGISTER`.
pub const TOPIC_SCHEMA_REGISTERED: [u8; 8] = [82, 69, 71, 73, 83, 84, 69, 82];

/// First topic of an `AttestationIssued` event: the symbol `ATTESTED`.
pub const TOPIC_ATTESTATION_ISSUED: [u8; 8] = [65, 84, 84, 69, 83, 84, 69, 68];

/// First topic of an `AttestationRevoked` event: the symbol `REVOKED`.
pub const TOPIC_ATTESTATION_REVOKED: [u8; 7] = [82, 69, 86, 79, 75, 69, 68];

/// Payload key `schema_uid`.
pub const FIELD_SCHEMA_UID: [u8; 10] = [115, 99, 104, 101, 109, 97, 95, 117, 105, 100];

/// Payload key `owner`.
pub const FIELD_OWNER: [u8; 5] = [111, 119, 110, 101, 114];

/// Payload key `uid`.
pub const FIELD_UID: [u8; 3] = [117, 105, 100];

/// Payload key `attester`.
pub const FIELD_ATTESTER: [u8; 8] = [97, 116, 116, 101, 115, 116, 101, 114];

/// Payload key `recipient`.
pub const FIELD_RECIPIENT: [u8; 9] = [114, 101, 99, 105, 112, 105, 101, 110, 116];

/// Payload key `timestamp`.
pub const FIELD_TIMESTAMP: [u8; 9] = [116, 105, 109, 101, 115, 116, 97, 109, 112];

/// Decoded `SchemaRegistered` event.
#[derive(Clone, Copy, Debug, PartialEq, Eq)]
pub struct SchemaRegistered {
    pub schema_uid: [u8; 32],
    pub owner: Address,
}

/// Decoded `AttestationIssued` event.
#[derive(Clone, Copy, Debug, PartialEq, Eq)]
pub struct AttestationIssued {
    pub uid: [u8; 32],
    pub schema_uid: [u8; 32],
    pub attester: Address,
    pub recipient: Address,
}

/// Decoded `AttestationRevoked` event.
#[derive(Clone, Copy, Debug, PartialEq, Eq)]
pub struct AttestationRevoked {
    pub uid: [u8; 32],
    pub timestamp: u64,
}

/// Any standardized event emitted by the SAS contracts.
#[derive(Clone, Copy, Debug, PartialEq, Eq)]
pub enum SasEvent {
    SchemaRegistered(SchemaRegistered),
    AttestationIssued(AttestationIssued),
    AttestationRevoked(AttestationRevoked),
}

/// Why an event could not be decoded as a SAS event.
#[derive(Clone, Copy, Debug, PartialEq, Eq)]
pub enum EventParseError {
    /// The event's first topic is not one of the SAS topics.
    NotSasEvent,
    /// The topic list is empty.
    MissingTopic,
    /// The topic matched but the payload does not have the expected shape.
    MalformedPayload(&'static str),
}

/// The model of a decoded event, with identifiers as byte sequences.
pub enum SasEventView {
    SchemaRegistered { schema_uid: Seq<u8>, owner: Address },
    AttestationIssued { uid: Seq<u8>, schema_uid: Seq<u8>, attester: Address, recipient: Address },
    AttestationRevoked { uid: Seq<u8>, timestamp: u64 },
}

impl View for SasEvent {
    type V = SasEventView;

    open spec fn view(&self) -> SasEventView {
        match *self {
            SasEvent::SchemaRegistered(e) => SasEventView::SchemaRegistered {
                schema_uid: e.schema_uid@,
                owner: e.owner,
            },
            SasEvent::AttestationIssued(e) => SasEventView::AttestationIssued {
                uid: e.uid@,
                schema_uid: e.schema_uid@,
                attester: e.attester,
                recipient: e.recipient,
            },
            SasEvent::AttestationRevoked(e) => SasEventView::AttestationRevoked {
                uid: e.uid@,
                timestamp: e.timestamp,
            },
        }
    }
}

/// The model of a decoding failure, with the message as characters.
pub enum ParseFailure {
    NotSasEvent,
    MissingTopic,
    MalformedPayload(Seq<char>),
}

/// The model of an `EventParseError`.
pub open spec fn failure_of(e: EventParseError) -> ParseFailure {
    match e {
        EventParseError::NotSasEvent => ParseFailure::NotSasEvent,
        EventParseError::MissingTopic => ParseFailure::MissingTopic,
        EventParseError::MalformedPayload(m) => ParseFailure::MalformedPayload(m@),
    }
}

/// The model of a decoding result.
pub open spec fn outcome_of(r: Result<SasEvent, EventParseError>) -> Result<SasEventView, ParseFailure> {
    match r {
        Ok(e) => Ok(e@),
        Err(e) => Err(failure_of(e)),
    }
}

/// The value of the first entry of `entries` whose key is the symbol `key`.
pub open spec fn map_lookup(entries: Seq<ScMapEntry>, key: Seq<u8>) -> Option<ScValue>
    decreases entries.len(),
{
    if entries.len() == 0 {
        None
    } else if entries[0].key matches ScValue::Symbol(s) && s@ == key {
        Some(entries[0].val)
    } else {
        map_lookup(entries.drop_first(), key)
    }
}

/// The payload map of `data`.
pub open spec fn payload_entries(data: ScValue) -> Result<Seq<ScMapEntry>, Seq<char>> {
    match data {
        ScValue::Mapping(Some(m)) => Ok(m@),
        _ => Err("payload is not a map"@),
    }
}

/// The payload field `key` of `entries`.
pub open spec fn field_of(entries: Seq<ScMapEntry>, key: Seq<u8>) -> Result<ScValue, Seq<char>> {
    match map_lookup(entries, key) {
        Some(v) => Ok(v),
        None => Err("missing payload field"@),
    }
}

/// A UID serializes as a one-element vector wrapping its 32 bytes; a bare
/// bytes value is accepted too.
pub open spec fn uid_inner(v: ScValue) -> ScValue {
    match v {
        ScValue::Vector(Some(vs)) => if vs@.len() == 1 {
            vs@[0]
        } else {
            v
        },
        _ => v,
    }
}

/// The 32 identifier bytes that `v` holds.
pub open spec fn uid_from(v: ScValue) -> Result<Seq<u8>, Seq<char>> {
    match uid_inner(v) {
        ScValue::Bytes(b) => if b@.len() == 32 {
            Ok(b@)
        } else {
            Err("uid is not 32 bytes"@)
        },
        _ => Err("uid is not a bytes value"@),
    }
}

/// The address that `v` holds.
pub open spec fn address_from(v: ScValue) -> Result<Address, Seq<char>> {
    match v {
        ScValue::Address(a) => Ok(a),
        _ => Err("field is not an address"@),
    }
}

/// The identifier bytes of field `key` of `entries`.
pub open spec fn uid_field(entries: Seq<ScMapEntry>, key: Seq<u8>) -> Result<Seq<u8>, Seq<char>> {
    match field_of(entries, key) {
        Ok(v) => uid_from(v),
        Err(m) => Err(m),
    }
}

/// The address of field `key` of `entries`.
pub open spec fn address_field(entries: Seq<ScMapEntry>, key: Seq<u8>) -> Result<Address, Seq<char>> {
    match field_of(entries, key) {
        Ok(v) => address_from(v),
        Err(m) => Err(m),
    }
}

/// The `SchemaRegistered` payload: `schema_uid`, then `owner`.
pub open spec fn schema_registered_from(data: ScValue) -> Result<SasEventView, Seq<char>> {
    match payload_entries(data) {
        Err(m) => Err(m),
        Ok(m) => match uid_field(m, FIELD_SCHEMA_UID@) {
            Err(e) => Err(e),
            Ok(schema_uid) => match address_field(m, FIELD_OWNER@) {
                Err(e) => Err(e),
                Ok(owner) => Ok(SasEventView::SchemaRegistered { schema_uid, owner }),
            },
        },
    }
}

/// The `AttestationIssued` payload: `uid`, `schema_uid`, `attester`, then
/// `recipient`.
pub open spec fn attestation_issued_from(data: ScValue) -> Result<SasEventView, Seq<char>> {
    match payload_entries(data) {
        Err(m) => Err(m),
        Ok(m) => match uid_field(m, FIELD_UID@) {
            Err(e) => Err(e),
            Ok(uid) => match uid_field(m, FIELD_SCHEMA_UID@) {
                Err(e) => Err(e),
                Ok(schema_uid) => match address_field(m, FIELD_ATTESTER@) {
                    Err(e) => Err(e),
                    Ok(attester) => match address_field(m, FIELD_RECIPIENT@) {
                        Err(e) => Err(e),
                        Ok(recipient) => Ok(
                            SasEventView::AttestationIssued { uid, schema_uid, attester, recipient },
                        ),
                    },
                },
            },
        },
    }
}

/// The `AttestationRevoked` payload: `timestamp` (a `u64`), then `uid`.
pub open spec fn attestation_revoked_from(data: ScValue) -> Result<SasEventView, Seq<char>> {
    match payload_entries(data) {
        Err(m) => Err(m),
        Ok(m) => match field_of(m, FIELD_TIMESTAMP@) {
            Err(e) => Err(e),
            Ok(ScValue::U64(timestamp)) => match uid_field(m, FIELD_UID@) {
                Err(e) => Err(e),
                Ok(uid) => Ok(SasEventView::AttestationRevoked { uid, timestamp }),
            },
            Ok(_) => Err("timestamp is not a u64"@),
        },
    }
}

/// Lifts a payload decoding result to an event decoding result.
pub open spec fn as_outcome(r: Result<SasEventView, Seq<char>>) -> Result<SasEventView, ParseFailure> {
    match r {
        Ok(e) => Ok(e),
        Err(m) => Err(ParseFailure::MalformedPayload(m)),
    }
}

/// How `topics` and `data` decode: the first topic selects the event by
/// its symbol, and the data must be the matching payload map.
pub open spec fn decode_event(topics: Seq<ScValue>, data: ScValue) -> Result<
    SasEventView,
    ParseFailure,
> {
    if topics.len() == 0 {
        Err(ParseFailure::MissingTopic)
    } else {
        match topics[0] {
            ScValue::Symbol(name) => if name@ == TOPIC_SCHEMA_REGISTERED@ {
                as_outcome(schema_registered_from(data))
            } else if name@ == TOPIC_ATTESTATION_ISSUED@ {
                as_outcome(attestation_issued_from(data))
            } else if name@ == TOPIC_ATTESTATION_REVOKED@ {
                as_outcome(attestation_revoked_from(data))
            } else {
                Err(ParseFailure::NotSasEvent)
            },
            _ => Err(ParseFailure::NotSasEvent),
        }
    }
}

/// Compares two byte strings.
pub fn bytes_eq(a: &[u8], b: &[u8]) -> (res: bool)
    ensures
        res == (a@ == b@),
{
    if a.len() != b.len() {
        return false;
    }
    let mut i: usize = 0;
    while i < a.len()
        invariant
            0 <= i <= a@.len(),
            a@.len() == b@.len(),
            forall|j: int| 0 <= j < i ==> a@[j] == b@[j],
        decreases a@.len() - i,
    {
        if a[i] != b[i] {
            return false;
        }
        i = i + 1;
    }
    assert(a@ =~= b@);
    true
}

fn expect_map(data: &ScValue) -> (res: Result<&Vec<ScMapEntry>, EventParseError>)
    ensures
        res matches Ok(m) ==> payload_entries(*data) == Ok::<Seq<ScMapEntry>, Seq<char>>(m@),
        res matches Err(e) ==> payload_entries(*data) matches Err(msg) && failure_of(e)
            == ParseFailure::MalformedPayload(msg),
{
    match data {
        ScValue::Mapping(Some(map)) => Ok(map),
        _ => Err(EventParseError::MalformedPayload("payload is not a map")),
    }
}

fn map_get<'a>(map: &'a Vec<ScMapEntry>, key: &[u8]) -> (res: Result<&'a ScValue, EventParseError>)
    ensures
        res matches Ok(v) ==> field_of(map@, key@) == Ok::<ScValue, Seq<char>>(*v),
        res matches Err(e) ==> field_of(map@, key@) matches Err(msg) && failure_of(e)
            == ParseFailure::MalformedPayload(msg),
{
    let mut i: usize = 0;
    assert(map@.subrange(0, map@.len() as int) =~= map@);
    while i < map.len()
        invariant
            0 <= i <= map@.len(),
            map_lookup(map@, key@) == map_lookup(map@.subrange(i as int, map@.len() as int), key@),
        decreases map@.len() - i,
    {
        let entry = &map[i];
        let ghost rest = map@.subrange(i as int, map@.len() as int);
        assert(rest[0] == map@[i as int]);
        assert(rest.drop_first() =~= map@.subrange(i + 1, map@.len() as int));
        let is_key = match &entry.key {
            ScValue::Symbol(sym) => bytes_eq(sym.as_slice(), key),
            _ => false,
        };
        if is_key {
            return Ok(&entry.val);
        }
        i = i + 1;
    }
    Err(EventParseError::MalformedPayload("missing payload field"))
}

fn decode_uid(val: &ScValue) -> (res: Result<[u8; 32], EventParseError>)
    ensures
        res matches Ok(u) ==> uid_from(*val) == Ok::<Seq<u8>, Seq<char>>(u@),
        res matches Err(e) ==> uid_from(*val) matches Err(msg) && failure_of(e)
            == ParseFailure::MalformedPayload(msg),
{
    let inner = match val {
        ScValue::Vector(Some(vec)) => if vec.len() == 1 {
            &vec[0]
        } else {
            val
        },
        _ => val,
    };
    assert(*inner == uid_inner(*val));
    match inner {
        ScValue::Bytes(bytes) => {
            if bytes.len() != 32 {
                return Err(EventParseError::MalformedPayload("uid is not 32 bytes"));
            }
            let mut out = [0u8; 32];
            let mut i: usize = 0;
            while i < 32
                invariant
                    0 <= i <= 32,
                    bytes@.len() == 32,
                    out@.len() == 32,
                    forall|j: int| 0 <= j < i ==> out@[j] == bytes@[j],
                decreases 32 - i,
            {
                out[i] = bytes[i];
                i = i + 1;
            }
            assert(out@ =~= bytes@);
            Ok(out)
        },
        _ => Err(EventParseError::MalformedPayload("uid is not a bytes value")),
    }
}

fn decode_address(val: &ScValue) -> (res: Result<Address, EventParseError>)
    ensures
        res matches Ok(a) ==> address_from(*val) == Ok::<Address, Seq<char>>(a),
        res matches Err(e) ==> address_from(*val) matches Err(msg) && failure_of(e)
            == ParseFailure::MalformedPayload(msg),
{
    match val {
        ScValue::Address(address) => Ok(*address),
        _ => Err(EventParseError::MalformedPayload("field is not an address")),
    }
}

fn uid_field_of(map: &Vec<ScMapEntry>, key: &[u8]) -> (res: Result<[u8; 32], EventParseError>)
    ensures
        res matches Ok(u) ==> uid_field(map@, key@) == Ok::<Seq<u8>, Seq<char>>(u@),
        res matches Err(e) ==> uid_field(map@, key@) matches Err(msg) && failure_of(e)
            == ParseFailure::MalformedPayload(msg),
{
    let v = map_get(map, key)?;
    decode_uid(v)
}

fn address_field_of(map: &Vec<ScMapEntry>, key: &[u8]) -> (res: Result<Address, EventParseError>)
    ensures
        res matches Ok(a) ==> address_field(map@, key@) == Ok::<Address, Seq<char>>(a),
        res matches Err(e) ==> address_field(map@, key@) matches Err(msg) && failure_of(e)
            == ParseFailure::MalformedPayload(msg),
{
    let v = map_get(map, key)?;
    decode_address(v)
}

/// Parses decoded event `topics` and `data` into a [`SasEvent`].
pub fn parse_event(topics: &[ScValue], data: &ScValue) -> (res: Result<SasEvent, EventParseError>)
    ensures
        outcome_of(res) == decode_event(topics@, *data),
{
    if topics.len() == 0 {
        return Err(EventParseError::MissingTopic);
    }
    let name = match &topics[0] {
        ScValue::Symbol(sym) => sym,
        _ => {
            return Err(EventParseError::NotSasEvent);
        },
    };
    if bytes_eq(name.as_slice(), &TOPIC_SCHEMA_REGISTERED) {
        let map = expect_map(data)?;
        let schema_uid = uid_field_of(map, &FIELD_SCHEMA_UID)?;
        let owner = address_field_of(map, &FIELD_OWNER)?;
        Ok(SasEvent::SchemaRegistered(SchemaRegistered { schema_uid, owner }))
    } else if bytes_eq(name.as_slice(), &TOPIC_ATTESTATION_ISSUED) {
        let map = expect_map(data)?;
        let uid = uid_field_of(map, &FIELD_UID)?;
        let schema_uid = uid_field_of(map, &FIELD_SCHEMA_UID)?;
        let attester = address_field_of(map, &FIELD_ATTESTER)?;
        let recipient = address_field_of(map, &FIELD_RECIPIENT)?;
        Ok(SasEvent::AttestationIssued(AttestationIssued { uid, schema_uid, attester, recipient }))
    } else if bytes_eq(name.as_slice(), &TOPIC_ATTESTATION_REVOKED) {
        let map = expect_map(data)?;
        let timestamp = match map_get(map, &FIELD_TIMESTAMP)? {
            ScValue::U64(ts) => *ts,
            _ => {
                return Err(EventParseError::MalformedPayload("timestamp is not a u64"));
            },
        };
        let uid = uid_field_of(map, &FIELD_UID)?;
        Ok(SasEvent::AttestationRevoked(AttestationRevoked { uid, timestamp }))
    } else {
        Err(EventParseError::NotSasEvent)
    }
}

/// Parses a full contract event into a [`SasEvent`].
pub fn parse_contract_event(event: &ContractEvent) -> (res: Result<SasEvent, EventParseError>)
    ensures
        outcome_of(res) == decode_event(event.topics@, event.data),
{
    parse_event(event.topics.as_slice(), &event.data)
}

/// The SAS events among `events`, in order; events that do not decode are
/// skipped.
pub open spec fn sas_events_of(events: Seq<ContractEvent>) -> Seq<SasEventView>
    decreases events.len(),
{
    if events.len() == 0 {
        Seq::empty()
    } else {
        sas_events_of(events.drop_last()) + match decode_event(
            events.last().topics@,
            events.last().data,
        ) {
            Ok(e) => seq![e],
            Err(_) => Seq::empty(),
        }
    }
}

/// Parses every SAS event from a batch of contract events, silently
/// skipping events with unknown topics or malformed payloads.
pub fn parse_events(events: &[ContractEvent]) -> (res: Vec<SasEvent>)
    ensures
        res@.map_values(|e: SasEvent| e@) == sas_events_of(events@),
{
    let mut out: Vec<SasEvent> = Vec::new();
    let mut i: usize = 0;
    while i < events.len()
        invariant
            0 <= i <= events@.len(),
            out@.map_values(|e: SasEvent| e@) =~= sas_events_of(events@.subrange(0, i as int)),
        decreases events@.len() - i,
    {
        let ghost prev = out@;
        assert(events@.subrange(0, i + 1).drop_last() =~= events@.subrange(0, i as int));
        assert(events@.subrange(0, i + 1).last() == events@[i as int]);
        match parse_contract_event(&events[i]) {
            Ok(e) => {
                out.push(e);
                assert(out@.map_values(|e: SasEvent| e@) =~= prev.map_values(|e: SasEvent| e@).push(
                    e@,
                ));
            },
            Err(_) => {},
        }
        i = i + 1;
    }
    assert(events@.subrange(0, i as int) =~= events@);
    out
}

} // verus!
