//! The Schema Registry contract: the source of truth for the schemas that
//! attestations are issued against.
//!
//! A schema is identified by the SHA-256 digest of the XDR encoding of its
//! definition string, so registering the same definition twice is refused.
use vstd::prelude::*;
use crate::contract_events::{
    EmittedEvent, ContractUpgradedEvent, SchemaFeeUpdatedEvent, SchemaRegisteredEvent,
    TreasuryUpdatedEvent,
};
use crate::crypto::{MAX_HOST_INPUT, sha256, sha256_digest, string_scval_xdr, string_to_xdr};
use crate::env::{authorizes, wasm_uploaded, Env};
use crate::errors::SASError;
use crate::types::{
    address_eq, bytes32_eq, lemma_bytes32_view_injective, Address, SchemaRecord, SchemaRecordView,
    UID,
};
use crate::validation::{schema_well_formed, validate_schema_syntax};

verus! {

/// The identifier the registry gives to the schema definition `schema`:
/// SHA-256 of the XDR encoding of the definition as a contract string.
pub open spec fn schema_uid_bytes(schema: Seq<u8>) -> Seq<u8> {
    sha256_digest(string_scval_xdr(schema))
}

/// Index of the last record in `s` whose identifier has bytes `key`.
pub open spec fn find_schema(s: Seq<SchemaRecordView>, key: Seq<u8>) -> Option<int>
    decreases s.len(),
{
    if s.len() == 0 {
        None
    } else if s.last().uid.0@ == key {
        Some(s.len() - 1)
    } else {
        find_schema(s.drop_last(), key)
    }
}

/// What `find_schema` returns: a matching index, or no match at all.
pub proof fn lemma_find_schema(s: Seq<SchemaRecordView>, key: Seq<u8>)
    ensures
        find_schema(s, key) matches Some(i) ==> 0 <= i < s.len() && s[i].uid.0@ == key,
        find_schema(s, key) is None ==> forall|i: int| 0 <= i < s.len() ==> s[i].uid.0@ != key,
    decreases s.len(),
{
    if s.len() > 0 && s.last().uid.0@ != key {
        lemma_find_schema(s.drop_last(), key);
        if find_schema(s, key) is None {
            assert forall|i: int| 0 <= i < s.len() implies s[i].uid.0@ != key by {
                if i < s.len() - 1 {
                    assert(s.drop_last()[i] == s[i]);
                }
            }
        }
    }
}

/// Finding in a sequence extended by one record.
pub proof fn lemma_find_schema_push(s: Seq<SchemaRecordView>, r: SchemaRecordView, key: Seq<u8>)
    ensures
        find_schema(s.push(r), key) == if r.uid.0@ == key {
            Some(s.len() as int)
        } else {
            find_schema(s, key)
        },
{
    assert(s.push(r).drop_last() =~= s);
}

/// Ledgers closed in a year, at one ledger every five seconds: how long
/// every persistent entry the registry writes is kept alive.
pub const LEDGERS_IN_ONE_YEAR: u32 = 6_307_200;

/// How far ahead, in ledgers, each invocation that changes the registry
/// extends the life of the contract instance (thirty days of ledgers).
pub const INSTANCE_EXTEND_TO_LEDGERS: u32 = 518_400;

/// The time-to-live, in ledgers, that a newly created entry starts with.
pub const MIN_ENTRY_TTL: u32 = 4_096;

/// The ledger an entry is live through after its time-to-live was extended
/// on ledger `seq` to `extend_to` ledgers: an entry that would be archived
/// sooner is kept until `seq + extend_to`, one that lives longer keeps
/// its ledger.
pub open spec fn extended(live_until: int, seq: int, extend_to: int) -> int {
    if live_until < seq + extend_to {
        seq + extend_to
    } else {
        live_until
    }
}

/// The deprecation flags stored in `s`, oldest first, by identifier bytes,
/// each with the ledger it is live through; a later flag for an identifier
/// replaces an earlier one.
pub open spec fn deprecation_map(s: Seq<(Seq<u8>, int)>) -> Map<Seq<u8>, int>
    decreases s.len(),
{
    if s.len() == 0 {
        Map::empty()
    } else {
        deprecation_map(s.drop_last()).insert(s.last().0, s.last().1)
    }
}

/// The value `m` holds for `key`, if any.
pub open spec fn lookup(m: Map<Seq<u8>, int>, key: Seq<u8>) -> Option<int> {
    if m.contains_key(key) {
        Some(m[key])
    } else {
        None
    }
}

/// The model of the registry's storage.
pub struct RegistryView {
    /// The contract's own address.
    pub address: Address,
    /// The administrator set by `init`.
    pub admin: Option<Address>,
    /// The fee set by `set_fee`.
    pub fee: Option<i128>,
    /// The treasury set by `set_treasury`.
    pub treasury: Option<Address>,
    /// The WASM hash last recorded by `upgrade`, which is also the code
    /// the contract runs since that upgrade (before any upgrade it runs the
    /// code it was deployed with).
    pub wasm_hash: Option<[u8; 32]>,
    /// The ledger that the contract instance, and with it the
    /// administrator, fee, treasury and WASM hash, is live through.
    pub instance_live_until: int,
    /// The registered schemas, in registration order.
    pub schemas: Seq<SchemaRecordView>,
    /// `creators[i]` registered `schemas[i]`.
    pub creators: Seq<Address>,
    /// `live_until[i]` is the ledger that the record, the creator and the
    /// position entry of `schemas[i]` are live through.
    pub live_until: Seq<int>,
    /// The ledger that the stored schema count is live through, once a
    /// schema has been registered.
    pub count_live_until: int,
    /// The deprecated identifier bytes, each with the ledger its
    /// deprecation flag is live through.
    pub deprecated: Map<Seq<u8>, int>,
    /// The events published so far, oldest first.
    pub events: Seq<EmittedEvent>,
}

impl RegistryView {
    /// Storage that the registry's operations keep consistent: one creator
    /// and one live-until ledger per schema, distinct identifiers, and a
    /// count that fits in `u32`.
    pub open spec fn consistent(self) -> bool {
        &&& self.schemas.len() == self.creators.len()
        &&& self.schemas.len() == self.live_until.len()
        &&& self.schemas.len() <= u32::MAX
        &&& forall|i: int, j: int|
            0 <= i < j < self.schemas.len() ==> self.schemas[i].uid != self.schemas[j].uid
    }

    /// A schema with identifier bytes `key` has been registered.
    pub open spec fn is_registered(self, key: Seq<u8>) -> bool {
        find_schema(self.schemas, key) is Some
    }

    /// The record registered under identifier bytes `key`, deprecated or not.
    pub open spec fn record_of(self, key: Seq<u8>) -> Option<SchemaRecordView> {
        match find_schema(self.schemas, key) {
            Some(i) => Some(self.schemas[i]),
            None => None,
        }
    }

    /// The address that registered the schema with identifier bytes `key`.
    pub open spec fn creator_of(self, key: Seq<u8>) -> Option<Address> {
        match find_schema(self.schemas, key) {
            Some(i) => Some(self.creators[i]),
            None => None,
        }
    }

    /// The ledger that the entries of the schema with identifier bytes
    /// `key` are live through.
    pub open spec fn schema_live_until(self, key: Seq<u8>) -> Option<int> {
        match find_schema(self.schemas, key) {
            Some(i) => Some(self.live_until[i]),
            None => None,
        }
    }

    /// The contract instance has not been archived on ledger `seq`: the
    /// contract can be invoked.
    pub open spec fn instance_live(self, seq: int) -> bool {
        seq <= self.instance_live_until
    }

    /// On ledger `seq`, none of the stored entries about identifier bytes
    /// `key` (its deprecation flag, its record, its creator) has been
    /// archived. Reading an archived entry aborts the invocation.
    pub open spec fn schema_readable(self, key: Seq<u8>, seq: int) -> bool {
        &&& self.deprecated.contains_key(key) ==> seq <= self.deprecated[key]
        &&& self.schema_live_until(key) matches Some(t) ==> seq <= t
    }

    /// On ledger `seq`, the stored schema count has not been archived.
    pub open spec fn count_readable(self, seq: int) -> bool {
        self.schemas.len() > 0 ==> seq <= self.count_live_until
    }

    /// The state after an invocation on ledger `seq` that extended the
    /// life of the contract instance.
    pub open spec fn renewed(self, seq: int) -> RegistryView {
        RegistryView {
            instance_live_until: extended(self.instance_live_until, seq, INSTANCE_EXTEND_TO_LEDGERS as int),
            ..self
        }
    }

    /// What `get_schema` answers: the record, unless it has been deprecated.
    pub open spec fn active_schema(self, key: Seq<u8>) -> Option<SchemaRecordView> {
        if self.deprecated.contains_key(key) {
            None
        } else {
            self.record_of(key)
        }
    }

    /// What `validate_schema` answers.
    pub open spec fn schema_is_valid(self, key: Seq<u8>) -> bool {
        !self.deprecated.contains_key(key) && self.is_registered(key)
    }

    /// `a` may act as administrator in `env`: an administrator is set and
    /// has authorized the invocation.
    pub open spec fn admin_authorized(self, env: &Env) -> bool {
        self.admin matches Some(admin) && authorizes(env, admin)
    }

    /// The state after a successful registration of `record` by `owner` on
    /// ledger `seq`: the record, its creator and its position are stored,
    /// live for a year, the schema count's life is extended to a year, and
    /// so is the contract instance's to `INSTANCE_EXTEND_TO_LEDGERS`.
    pub open spec fn registered(self, record: SchemaRecordView, owner: Address, seq: int) -> RegistryView {
        RegistryView {
            schemas: self.schemas.push(record),
            creators: self.creators.push(owner),
            live_until: self.live_until.push(seq + LEDGERS_IN_ONE_YEAR),
            count_live_until: if self.schemas.len() == 0 {
                seq + LEDGERS_IN_ONE_YEAR
            } else {
                extended(self.count_live_until, seq, LEDGERS_IN_ONE_YEAR as int)
            },
            instance_live_until: extended(self.instance_live_until, seq, INSTANCE_EXTEND_TO_LEDGERS as int),
            events: self.events.push(
                EmittedEvent::SchemaRegistered(
                    SchemaRegisteredEvent { schema_uid: record.uid, owner },
                ),
            ),
            ..self
        }
    }

    /// The ledger the deprecation flag of `key` is live through after it
    /// was set on ledger `seq`: a year ahead, or later if it already was.
    pub open spec fn flag_live_until(self, key: Seq<u8>, seq: int) -> int {
        if self.deprecated.contains_key(key) {
            extended(self.deprecated[key], seq, LEDGERS_IN_ONE_YEAR as int)
        } else {
            seq + LEDGERS_IN_ONE_YEAR
        }
    }

    /// The state after the schema with bytes `key` was deprecated on ledger
    /// `seq`: its flag is set and kept alive for a year, and the contract
    /// instance's life is extended.
    pub open spec fn deprecated_with(self, key: Seq<u8>, seq: int) -> RegistryView {
        RegistryView {
            deprecated: self.deprecated.insert(key, self.flag_live_until(key, seq)),
            instance_live_until: extended(self.instance_live_until, seq, INSTANCE_EXTEND_TO_LEDGERS as int),
            ..self
        }
    }

    /// `authorizer` may deprecate the schema with identifier bytes `key`:
    /// it authorized the invocation and is the administrator or the
    /// schema's creator.
    pub open spec fn may_deprecate(self, env: &Env, key: Seq<u8>, authorizer: Address) -> bool {
        &&& authorizes(env, authorizer)
        &&& self.admin is Some
        &&& (self.admin == Some(authorizer) || self.creator_of(key) == Some(authorizer))
    }
}

struct SchemaEntry {
    record: SchemaRecord,
    creator: Address,
    live_until: u64,
}

struct Deprecation {
    uid: UID,
    live_until: u64,
}

/// The Schema Registry contract and its storage.
pub struct SchemaRegistry {
    address: Address,
    admin: Option<Address>,
    fee: Option<i128>,
    treasury: Option<Address>,
    wasm_hash: Option<[u8; 32]>,
    instance_live_until: u64,
    entries: Vec<SchemaEntry>,
    count_live_until: u64,
    deprecations: Vec<Deprecation>,
    events: Vec<EmittedEvent>,
}

/// The deprecation flags of `s` as identifier bytes and live-until ledgers.
spec fn flags_of(s: Seq<Deprecation>) -> Seq<(Seq<u8>, int)> {
    s.map_values(|d: Deprecation| (d.uid.0@, d.live_until as int))
}

impl View for SchemaRegistry {
    type V = RegistryView;

    closed spec fn view(&self) -> RegistryView {
        RegistryView {
            address: self.address,
            admin: self.admin,
            fee: self.fee,
            treasury: self.treasury,
            wasm_hash: self.wasm_hash,
            instance_live_until: self.instance_live_until as int,
            schemas: self.entries@.map_values(|e: SchemaEntry| e.record@),
            creators: self.entries@.map_values(|e: SchemaEntry| e.creator),
            live_until: self.entries@.map_values(|e: SchemaEntry| e.live_until as int),
            count_live_until: self.count_live_until as int,
            deprecated: deprecation_map(flags_of(self.deprecations@)),
            events: self.events@,
        }
    }
}

impl SchemaRegistry {
    /// The registry's storage is consistent.
    pub closed spec fn wf(&self) -> bool {
        self@.consistent()
    }

    /// A registry deployed at `address` on the ledger of `env`, with empty
    /// storage; its instance starts with the minimum time-to-live.
    pub fn deploy(env: &Env, address: Address) -> (res: Self)
        ensures
            res.wf(),
            res@.address == address,
            res@.admin is None,
            res@.fee is None,
            res@.treasury is None,
            res@.wasm_hash is None,
            res@.instance_live_until == env.ledger_sequence + MIN_ENTRY_TTL - 1,
            res@.schemas.len() == 0,
            res@.creators.len() == 0,
            res@.live_until.len() == 0,
            res@.deprecated.is_empty(),
            res@.events.len() == 0,
    {
        let res = SchemaRegistry {
            address,
            admin: None,
            fee: None,
            treasury: None,
            wasm_hash: None,
            instance_live_until: env.ledger_sequence as u64 + MIN_ENTRY_TTL as u64 - 1,
            entries: Vec::new(),
            count_live_until: 0,
            deprecations: Vec::new(),
            events: Vec::new(),
        };
        assert(flags_of(res.deprecations@) =~= Seq::<(Seq<u8>, int)>::empty());
        assert(res@.deprecated =~= Map::<Seq<u8>, int>::empty());
        res
    }

    /// The contract's own address.
    pub fn address(&self) -> (res: Address)
        ensures
            res == self@.address,
    {
        self.address
    }

    /// Compatibility probe that dependants call before trusting this
    /// contract as a schema registry.
    pub fn sasreg(&self) -> (res: bool)
        ensures
            res,
    {
        true
    }

    /// The ledger the contract instance is live through.
    pub fn instance_live_until(&self) -> (res: u64)
        ensures
            res == self@.instance_live_until,
    {
        self.instance_live_until
    }

    /// Extends the life of the contract instance, as every invocation that
    /// changes the registry does.
    fn renew(&mut self, env: &Env)
        requires
            old(self).wf(),
        ensures
            final(self).wf(),
            final(self)@ == old(self)@.renewed(env.ledger_sequence as int),
    {
        let target = env.ledger_sequence as u64 + INSTANCE_EXTEND_TO_LEDGERS as u64;
        if self.instance_live_until < target {
            self.instance_live_until = target;
        }
        assert(self@ =~= old(self)@.renewed(env.ledger_sequence as int));
    }

    /// Sets the administrator; refused once one is set. Extends the life of
    /// the contract instance. The instance must not have been archived.
    pub fn init(&mut self, env: &Env, admin: Address) -> (res: Result<(), SASError>)
        requires
            old(self).wf(),
            old(self)@.instance_live(env.ledger_sequence as int),
        ensures
            final(self).wf(),
            res is Err <==> old(self)@.admin is Some,
            res is Err ==> res == Err::<(), SASError>(SASError::AlreadyInitialized)
                && final(self)@ == old(self)@,
            res is Ok ==> final(self)@ == (RegistryView {
                admin: Some(admin),
                ..old(self)@
            }).renewed(env.ledger_sequence as int),
    {
        if self.admin.is_some() {
            return Err(SASError::AlreadyInitialized);
        }
        self.admin = Some(admin);
        self.renew(env);
        Ok(())
    }

    /// The administrator, if `init` has run.
    pub fn get_admin(&self) -> (res: Option<Address>)
        ensures
            res == self@.admin,
    {
        self.admin
    }

    /// The registration fee, if one has been set.
    pub fn get_fee(&self) -> (res: Option<i128>)
        ensures
            res == self@.fee,
    {
        self.fee
    }

    /// The treasury, if one has been set.
    pub fn get_treasury(&self) -> (res: Option<Address>)
        ensures
            res == self@.treasury,
    {
        self.treasury
    }

    /// The events published so far, oldest first.
    pub fn events(&self) -> (res: &Vec<EmittedEvent>)
        ensures
            res@ == self@.events,
    {
        &self.events
    }

    fn require_admin(&self, env: &Env) -> (res: Result<Address, SASError>)
        ensures
            res is Ok <==> self@.admin_authorized(env),
            res matches Ok(a) ==> self@.admin == Some(a),
            res is Err ==> res == Err::<Address, SASError>(SASError::Unauthorized),
    {
        match self.admin {
            Some(admin) => {
                if env.require_auth(&admin) {
                    Ok(admin)
                } else {
                    Err(SASError::Unauthorized)
                }
            },
            None => Err(SASError::Unauthorized),
        }
    }

    /// Replaces the installed WASM with the uploaded code `new_wasm_hash`.
    /// Requires the administrator's authorization; refused with
    /// `Unauthorized` otherwise, also before `init`. Records
    /// `new_wasm_hash` and publishes `ContractUpgraded` with the hash being
    /// replaced (the new hash itself the first time, since the contract
    /// cannot read its own installed hash), and extends the life of the
    /// contract instance. Switching to code that was never uploaded aborts
    /// the whole invocation, so that input is excluded, and so is an
    /// archived instance.
    pub fn upgrade(&mut self, env: &Env, new_wasm_hash: [u8; 32]) -> (res: Result<(), SASError>)
        requires
            old(self).wf(),
            old(self)@.instance_live(env.ledger_sequence as int),
            old(self)@.admin_authorized(env) ==> wasm_uploaded(env, new_wasm_hash),
        ensures
            final(self).wf(),
            res is Ok <==> old(self)@.admin_authorized(env),
            res is Err ==> res == Err::<(), SASError>(SASError::Unauthorized)
                && final(self)@ == old(self)@,
            res is Ok ==> final(self)@ == (RegistryView {
                wasm_hash: Some(new_wasm_hash),
                events: old(self)@.events.push(
                    EmittedEvent::ContractUpgraded(
                        ContractUpgradedEvent {
                            old_wasm_hash: match old(self)@.wasm_hash {
                                Some(h) => h,
                                None => new_wasm_hash,
                            },
                            new_wasm_hash,
                            authorizer: old(self)@.admin.unwrap(),
                        },
                    ),
                ),
                ..old(self)@
            }).renewed(env.ledger_sequence as int),
    {
        let admin = self.require_admin(env)?;
        self.record_upgrade_event(&admin, new_wasm_hash);
        self.renew(env);
        Ok(())
    }

    fn record_upgrade_event(&mut self, admin: &Address, new_wasm_hash: [u8; 32])
        requires
            old(self).wf(),
        ensures
            final(self).wf(),
            final(self)@ == (RegistryView {
                wasm_hash: Some(new_wasm_hash),
                events: old(self)@.events.push(
                    EmittedEvent::ContractUpgraded(
                        ContractUpgradedEvent {
                            old_wasm_hash: match old(self)@.wasm_hash {
                                Some(h) => h,
                                None => new_wasm_hash,
                            },
                            new_wasm_hash,
                            authorizer: *admin,
                        },
                    ),
                ),
                ..old(self)@
            }),
    {
        let old_wasm_hash = match self.wasm_hash {
            Some(h) => h,
            None => new_wasm_hash,
        };
        self.wasm_hash = Some(new_wasm_hash);
        self.events.push(
            EmittedEvent::ContractUpgraded(
                ContractUpgradedEvent { old_wasm_hash, new_wasm_hash, authorizer: *admin },
            ),
        );
    }

    /// Sets the registration fee. Requires the administrator's
    /// authorization (`Unauthorized` otherwise); a negative fee is refused
    /// with `InvalidValue`. Publishes `SchemaFeeUpdated` with the previous
    /// fee, and extends the life of the contract instance, which must not
    /// have been archived.
    pub fn set_fee(&mut self, env: &Env, fee: i128) -> (res: Result<(), SASError>)
        requires
            old(self).wf(),
            old(self)@.instance_live(env.ledger_sequence as int),
        ensures
            final(self).wf(),
            res is Ok <==> old(self)@.admin_authorized(env) && fee >= 0,
            !old(self)@.admin_authorized(env) ==> res == Err::<(), SASError>(SASError::Unauthorized),
            old(self)@.admin_authorized(env) && fee < 0 ==> res == Err::<(), SASError>(
                SASError::InvalidValue,
            ),
            res is Err ==> final(self)@ == old(self)@,
            res is Ok ==> final(self)@ == (RegistryView {
                fee: Some(fee),
                events: old(self)@.events.push(
                    EmittedEvent::SchemaFeeUpdated(
                        SchemaFeeUpdatedEvent {
                            old_fee: old(self)@.fee,
                            new_fee: fee,
                            authorizer: old(self)@.admin.unwrap(),
                        },
                    ),
                ),
                ..old(self)@
            }).renewed(env.ledger_sequence as int),
    {
        let admin = self.require_admin(env)?;
        if fee < 0 {
            return Err(SASError::InvalidValue);
        }
        let old_fee = self.fee;
        self.fee = Some(fee);
        self.events.push(
            EmittedEvent::SchemaFeeUpdated(
                SchemaFeeUpdatedEvent { old_fee, new_fee: fee, authorizer: admin },
            ),
        );
        self.renew(env);
        Ok(())
    }

    /// Sets the treasury that receives registration fees. Requires the
    /// administrator's authorization. Publishes `TreasuryUpdated` with the
    /// previous treasury, and extends the life of the contract instance,
    /// which must not have been archived.
    pub fn set_treasury(&mut self, env: &Env, treasury: Address) -> (res: Result<(), SASError>)
        requires
            old(self).wf(),
            old(self)@.instance_live(env.ledger_sequence as int),
        ensures
            final(self).wf(),
            res is Ok <==> old(self)@.admin_authorized(env),
            res is Err ==> res == Err::<(), SASError>(SASError::Unauthorized)
                && final(self)@ == old(self)@,
            res is Ok ==> final(self)@ == (RegistryView {
                treasury: Some(treasury),
                events: old(self)@.events.push(
                    EmittedEvent::TreasuryUpdated(
                        TreasuryUpdatedEvent {
                            old_treasury: old(self)@.treasury,
                            new_treasury: treasury,
                            authorizer: old(self)@.admin.unwrap(),
                        },
                    ),
                ),
                ..old(self)@
            }).renewed(env.ledger_sequence as int),
    {
        let admin = self.require_admin(env)?;
        let old_treasury = self.treasury;
        self.treasury = Some(treasury);
        self.events.push(
            EmittedEvent::TreasuryUpdated(
                TreasuryUpdatedEvent { old_treasury, new_treasury: treasury, authorizer: admin },
            ),
        );
        self.renew(env);
        Ok(())
    }

    /// Withdraws collected fees. Requires the administrator's
    /// authorization; no token transfer is performed and storage is left
    /// unchanged but for the life of the contract instance, which is
    /// extended and must not have been archived.
    pub fn withdraw_fees(&mut self, env: &Env, amount: i128) -> (res: Result<(), SASError>)
        requires
            old(self).wf(),
            old(self)@.instance_live(env.ledger_sequence as int),
        ensures
            final(self).wf(),
            res is Ok <==> old(self)@.admin_authorized(env),
            res is Err ==> res == Err::<(), SASError>(SASError::Unauthorized)
                && final(self)@ == old(self)@,
            res is Ok ==> final(self)@ == old(self)@.renewed(env.ledger_sequence as int),
    {
        let _admin = self.require_admin(env)?;
        self.renew(env);
        Ok(())
    }

    /// Index of the entry whose identifier is `uid`.
    fn position(&self, uid: &UID) -> (res: Option<usize>)
        ensures
            res matches Some(i) ==> find_schema(self@.schemas, uid.0@) == Some(i as int) && i
                < self.entries@.len() && self@.schemas[i as int] == self.entries@[i as int].record@
                && self@.creators[i as int] == self.entries@[i as int].creator
                && self@.live_until[i as int] == self.entries@[i as int].live_until,
            res is None ==> find_schema(self@.schemas, uid.0@) is None,
    {
        let ghost s = self@.schemas;
        let mut i: usize = self.entries.len();
        assert(s.subrange(0, i as int) =~= s);
        while i > 0
            invariant
                0 <= i <= self.entries@.len(),
                s == self@.schemas,
                s.len() == self.entries@.len(),
                find_schema(s, uid.0@) == find_schema(s.subrange(0, i as int), uid.0@),
            decreases i,
        {
            let e = &self.entries[i - 1];
            proof {
                lemma_bytes32_view_injective(e.record.uid.0, uid.0);
                assert(s.subrange(0, i as int).drop_last() =~= s.subrange(0, i - 1));
                assert(s[i - 1] == e.record@);
            }
            if bytes32_eq(&e.record.uid.0, &uid.0) {
                return Some(i - 1);
            }
            i = i - 1;
        }
        None
    }

    /// The ledger the deprecation flag of `uid` is live through, if the
    /// flag is set.
    fn deprecation_of(&self, uid: &UID) -> (res: Option<u64>)
        ensures
            res matches Some(t) ==> lookup(self@.deprecated, uid.0@) == Some(t as int),
            res is None ==> lookup(self@.deprecated, uid.0@) is None,
    {
        let ghost s = flags_of(self.deprecations@);
        let mut i: usize = self.deprecations.len();
        assert(s.subrange(0, i as int) =~= s);
        while i > 0
            invariant
                0 <= i <= self.deprecations@.len(),
                s == flags_of(self.deprecations@),
                s.len() == self.deprecations@.len(),
                lookup(deprecation_map(s), uid.0@) == lookup(
                    deprecation_map(s.subrange(0, i as int)),
                    uid.0@,
                ),
            decreases i,
        {
            let d = &self.deprecations[i - 1];
            proof {
                lemma_bytes32_view_injective(d.uid.0, uid.0);
                assert(s.subrange(0, i as int).drop_last() =~= s.subrange(0, i - 1));
                assert(s[i - 1] == (d.uid.0@, d.live_until as int));
            }
            if bytes32_eq(&d.uid.0, &uid.0) {
                return Some(d.live_until);
            }
            i = i - 1;
        }
        assert(s.subrange(0, 0) =~= Seq::<(Seq<u8>, int)>::empty());
        None
    }

    /// The ledger the entries of the schema registered under `uid` are
    /// live through, if it is registered.
    pub fn schema_live_until(&self, uid: UID) -> (res: Option<u64>)
        ensures
            res matches Some(t) ==> self@.schema_live_until(uid.0@) == Some(t as int),
            res is None ==> self@.schema_live_until(uid.0@) is None,
    {
        match self.position(&uid) {
            Some(i) => Some(self.entries[i].live_until),
            None => None,
        }
    }

    /// The ledger the deprecation flag of `uid` is live through, if `uid`
    /// has been deprecated.
    pub fn deprecation_live_until(&self, uid: UID) -> (res: Option<u64>)
        ensures
            res matches Some(t) ==> self@.deprecated.contains_key(uid.0@)
                && self@.deprecated[uid.0@] == t,
            res is None ==> !self@.deprecated.contains_key(uid.0@),
    {
        self.deprecation_of(&uid)
    }

    /// Deprecates a schema so that it is no longer served. `authorizer`
    /// must authorize the invocation and be the administrator or the
    /// schema's creator; otherwise the call is refused with
    /// `Unauthorized`, also before `init`. The deprecation flag is kept
    /// alive for a year, and the life of the contract instance is extended.
    /// The instance and the schema's stored entries must not have been
    /// archived.
    pub fn deprecate(&mut self, env: &Env, uid: UID, authorizer: Address) -> (res: Result<
        (),
        SASError,
    >)
        requires
            old(self).wf(),
            old(self)@.instance_live(env.ledger_sequence as int),
            old(self)@.schema_readable(uid.0@, env.ledger_sequence as int),
        ensures
            final(self).wf(),
            res is Ok <==> old(self)@.may_deprecate(env, uid.0@, authorizer),
            res is Err ==> res == Err::<(), SASError>(SASError::Unauthorized)
                && final(self)@ == old(self)@,
            res is Ok ==> final(self)@ == old(self)@.deprecated_with(
                uid.0@,
                env.ledger_sequence as int,
            ),
    {
        if !env.require_auth(&authorizer) {
            return Err(SASError::Unauthorized);
        }
        let admin = match self.admin {
            Some(a) => a,
            None => {
                return Err(SASError::Unauthorized);
            },
        };
        let is_admin = address_eq(&authorizer, &admin);
        let is_creator = match self.position(&uid) {
            Some(i) => {
                assert(self@.creators[i as int] == self.entries@[i as int].creator);
                address_eq(&self.entries[i].creator, &authorizer)
            },
            None => false,
        };
        if !is_admin && !is_creator {
            return Err(SASError::Unauthorized);
        }
        let year_ahead = env.ledger_sequence as u64 + LEDGERS_IN_ONE_YEAR as u64;
        let live_until = match self.deprecation_of(&uid) {
            Some(t) => if t < year_ahead {
                year_ahead
            } else {
                t
            },
            None => year_ahead,
        };
        assert(live_until == old(self)@.flag_live_until(uid.0@, env.ledger_sequence as int));
        let ghost before = flags_of(self.deprecations@);
        self.deprecations.push(Deprecation { uid, live_until });
        proof {
            let after = flags_of(self.deprecations@);
            assert(after.drop_last() =~= before);
            assert(after.last() == (uid.0@, live_until as int));
            assert(self@.deprecated =~= old(self)@.deprecated.insert(uid.0@, live_until as int));
            assert(self@.schemas =~= old(self)@.schemas);
            assert(self@.creators =~= old(self)@.creators);
            assert(self@.live_until =~= old(self)@.live_until);
        }
        self.renew(env);
        assert(self@ =~= old(self)@.deprecated_with(uid.0@, env.ledger_sequence as int));
        Ok(())
    }

    /// Registers the schema definition `schema`, owned by `owner`, and
    /// returns its identifier: the SHA-256 digest of the XDR encoding of
    /// the definition. Refused with `InvalidSchema` when the definition is
    /// not well formed, with `Unauthorized` when `owner` has not authorized
    /// the invocation, and with `SchemaAlreadyExists` when the definition
    /// is already registered, in that order. Publishes `SchemaRegistered`.
    /// The new record, its creator and its position are kept alive for a
    /// year, so is the schema count, and the life of the contract instance
    /// is extended; the instance and the schema count must not have been
    /// archived.
    pub fn register(
        &mut self,
        env: &Env,
        owner: Address,
        schema: Vec<u8>,
        resolver: Address,
        revocable: bool,
    ) -> (res: Result<UID, SASError>)
        requires
            old(self).wf(),
            old(self)@.schemas.len() < u32::MAX,
            old(self)@.instance_live(env.ledger_sequence as int),
            old(self)@.count_readable(env.ledger_sequence as int),
        ensures
            final(self).wf(),
            !schema_well_formed(schema@) ==> res == Err::<UID, SASError>(SASError::InvalidSchema),
            schema_well_formed(schema@) && !authorizes(env, owner) ==> res == Err::<UID, SASError>(
                SASError::Unauthorized,
            ),
            schema_well_formed(schema@) && authorizes(env, owner) && old(self)@.is_registered(
                schema_uid_bytes(schema@),
            ) ==> res == Err::<UID, SASError>(SASError::SchemaAlreadyExists),
            res is Ok <==> schema_well_formed(schema@) && authorizes(env, owner) && !old(
                self,
            )@.is_registered(schema_uid_bytes(schema@)),
            res is Err ==> final(self)@ == old(self)@,
            res matches Ok(uid) ==> uid.0@ == schema_uid_bytes(schema@) && final(self)@ == old(
                self,
            )@.registered(
                SchemaRecordView { uid, resolver, revocable, schema: schema@ },
                owner,
                env.ledger_sequence as int,
            ),
    {
        validate_schema_syntax(schema.as_slice())?;
        if !env.require_auth(&owner) {
            return Err(SASError::Unauthorized);
        }
        let payload = string_to_xdr(schema.as_slice());
        proof {
            assert(payload@.len() <= MAX_HOST_INPUT) by {
                assert(schema@.len() <= 1024);
                assert(string_scval_xdr(schema@).len() <= 1024 + 12);
            }
        }
        let uid = UID(sha256(payload.as_slice()));
        if self.position(&uid).is_some() {
            return Err(SASError::SchemaAlreadyExists);
        }
        proof {
            lemma_find_schema(self@.schemas, uid.0@);
        }
        let year_ahead = env.ledger_sequence as u64 + LEDGERS_IN_ONE_YEAR as u64;
        let record = SchemaRecord { uid, resolver, revocable, schema };
        let ghost rv = record@;
        if self.entries.len() == 0 || self.count_live_until < year_ahead {
            self.count_live_until = year_ahead;
        }
        self.entries.push(SchemaEntry { record, creator: owner, live_until: year_ahead });
        self.events.push(
            EmittedEvent::SchemaRegistered(SchemaRegisteredEvent { schema_uid: uid, owner }),
        );
        proof {
            let ov = old(self)@;
            assert(self@.schemas =~= ov.schemas.push(rv));
            assert(self@.creators =~= ov.creators.push(owner));
            assert(self@.live_until =~= ov.live_until.push(year_ahead as int));
            assert forall|i: int, j: int| 0 <= i < j < self@.schemas.len() implies self@.schemas[i].uid
                != self@.schemas[j].uid by {
                if j == ov.schemas.len() {
                    lemma_bytes32_view_injective(ov.schemas[i].uid.0, uid.0);
                }
            }
        }
        self.renew(env);
        assert(self@ =~= old(self)@.registered(rv, owner, env.ledger_sequence as int));
        Ok(uid)
    }

    /// The schema registered under `uid`, unless it is unknown or
    /// deprecated. The instance and the entries read must not have been
    /// archived.
    pub fn get_schema(&self, env: &Env, uid: UID) -> (res: Option<SchemaRecord>)
        requires
            self.wf(),
            self@.instance_live(env.ledger_sequence as int),
            self@.schema_readable(uid.0@, env.ledger_sequence as int),
        ensures
            res matches Some(r) ==> self@.active_schema(uid.0@) == Some(r@),
            res is None ==> self@.active_schema(uid.0@) is None,
    {
        if self.deprecation_of(&uid).is_some() {
            return None;
        }
        match self.position(&uid) {
            Some(i) => {
                assert(self@.schemas[i as int] == self.entries@[i as int].record@);
                Some(self.entries[i].record.duplicate())
            },
            None => None,
        }
    }

    /// Whether `uid` names a registered schema that is not deprecated. The
    /// instance and the entries read must not have been archived.
    pub fn validate_schema(&self, env: &Env, uid: UID) -> (res: bool)
        requires
            self.wf(),
            self@.instance_live(env.ledger_sequence as int),
            self@.schema_readable(uid.0@, env.ledger_sequence as int),
        ensures
            res == self@.schema_is_valid(uid.0@),
    {
        if self.deprecation_of(&uid).is_some() {
            return false;
        }
        self.position(&uid).is_some()
    }

    /// The number of registered schemas. The instance and the stored count
    /// must not have been archived.
    pub fn schema_count(&self, env: &Env) -> (res: u32)
        requires
            self.wf(),
            self@.instance_live(env.ledger_sequence as int),
            self@.count_readable(env.ledger_sequence as int),
        ensures
            res == self@.schemas.len(),
    {
        self.entries.len() as u32
    }

    /// Up to `limit` schemas in registration order, starting at position
    /// `start`; deprecated schemas are included. The instance, the stored
    /// count and the entries read must not have been archived.
    pub fn get_schemas(&self, env: &Env, start: u32, limit: u32) -> (res: Vec<SchemaRecord>)
        requires
            self.wf(),
            start + limit <= u32::MAX,
            self@.instance_live(env.ledger_sequence as int),
            self@.count_readable(env.ledger_sequence as int),
            forall|i: int|
                start <= i < start + limit && i < self@.schemas.len() ==> env.ledger_sequence
                    <= #[trigger] self@.live_until[i],
        ensures
            res@.map_values(|r: SchemaRecord| r@) == if start < self@.schemas.len() {
                self@.schemas.subrange(
                    start as int,
                    if start + limit > self@.schemas.len() {
                        self@.schemas.len() as int
                    } else {
                        start + limit
                    },
                )
            } else {
                Seq::empty()
            },
    {
        let count = self.entries.len() as u32;
        if start >= count {
            assert(Seq::<SchemaRecord>::empty().map_values(|r: SchemaRecord| r@) =~= Seq::<
                SchemaRecordView,
            >::empty());
            return Vec::new();
        }
        let end = if start + limit > count {
            count
        } else {
            start + limit
        };
        let mut out: Vec<SchemaRecord> = Vec::new();
        let mut i = start;
        while i < end
            invariant
                start <= i <= end <= count,
                count == self@.schemas.len(),
                count == self.entries@.len(),
                out@.map_values(|r: SchemaRecord| r@) =~= self@.schemas.subrange(
                    start as int,
                    i as int,
                ),
            decreases end - i,
        {
            let ghost prev = out@;
            assert(self@.schemas[i as int] == self.entries@[i as int].record@);
            let r = self.entries[i as usize].record.duplicate();
            assert(r@ == self@.schemas[i as int]);
            out.push(r);
            assert(out@ == prev.push(r));
            assert(out@.map_values(|r: SchemaRecord| r@) =~= prev.map_values(|r: SchemaRecord| r@).push(r@));
            i = i + 1;
            assert(out@.map_values(|r: SchemaRecord| r@) =~= self@.schemas.subrange(
                start as int,
                i as int,
            ));
        }
        out
    }
}

} // verus!
