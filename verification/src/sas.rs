//! The SAS core contract: issues, revokes and verifies attestations
//! against the schemas of a Schema Registry.
use vstd::prelude::*;
use crate::contract_events::{
    attested_event, publish_attested, publish_revoked, AttestationRevokedEvent, EmittedEvent,
};
use crate::env::{authorizes, Env};
use crate::errors::SASError;
use crate::offchain::{hash_offchain_attestation, offchain_digest, AttestationDomain, MAX_OFFCHAIN_DATA};
use crate::registry::{RegistryView, SchemaRegistry};
use crate::signature::{ed25519_accepts, ed25519_verify};
use crate::types::{
    address_bytes, append_address, append_bytes, bytes32_eq, lemma_bytes32_view_injective,
    Address, Attestation, AttestationView, UID,
};
use crate::validation::expired_at;

verus! {

/// Index of the last attestation in `s` with identifier `uid`.
pub open spec fn find_attestation(s: Seq<AttestationView>, uid: UID) -> Option<int>
    decreases s.len(),
{
    if s.len() == 0 {
        None
    } else if s.last().uid == uid {
        Some(s.len() - 1)
    } else {
        find_attestation(s.drop_last(), uid)
    }
}

/// What `find_attestation` returns: a matching index, or no match at all.
pub proof fn lemma_find_attestation(s: Seq<AttestationView>, uid: UID)
    ensures
        find_attestation(s, uid) matches Some(i) ==> 0 <= i < s.len() && s[i].uid == uid,
        find_attestation(s, uid) is None ==> forall|i: int| 0 <= i < s.len() ==> s[i].uid != uid,
    decreases s.len(),
{
    if s.len() > 0 && s.last().uid != uid {
        lemma_find_attestation(s.drop_last(), uid);
        if find_attestation(s, uid) is None {
            assert forall|i: int| 0 <= i < s.len() implies s[i].uid != uid by {
                if i < s.len() - 1 {
                    assert(s.drop_last()[i] == s[i]);
                }
            }
        }
    }
}

/// With distinct identifiers, the index of an attestation is the one
/// whose identifier matches.
pub proof fn lemma_find_attestation_unique(s: Seq<AttestationView>, uid: UID, i: int)
    requires
        forall|a: int, b: int| 0 <= a < b < s.len() ==> s[a].uid != s[b].uid,
        0 <= i < s.len(),
        s[i].uid == uid,
    ensures
        find_attestation(s, uid) == Some(i),
{
    lemma_find_attestation(s, uid);
}

/// `s` with `a` stored under its identifier: an earlier attestation with
/// the same identifier is replaced, otherwise `a` is appended.
pub open spec fn store_attestation(s: Seq<AttestationView>, a: AttestationView) -> Seq<AttestationView> {
    match find_attestation(s, a.uid) {
        Some(i) => s.update(i, a),
        None => s.push(a),
    }
}

/// The attestation is past its expiration time at `now` (0 never expires).
pub open spec fn is_expired(a: AttestationView, now: u64) -> bool {
    expired_at(now, a.expiration_time)
}

/// `public_key` is the account key of the attester of `a`.
pub open spec fn key_of_attester(a: AttestationView, public_key: Seq<u8>) -> bool {
    a.attester matches Address::Account(k) && k@ == public_key
}

/// The message a delegated attestation is signed over: the schema uid
/// followed by the encoding of the recipient.
pub open spec fn delegation_payload(a: AttestationView) -> Seq<u8> {
    a.schema_uid.0@ + address_bytes(a.recipient)
}

/// The model of the SAS contract's storage.
pub struct SasView {
    /// The contract's own address.
    pub address: Address,
    /// The administrator set by `init`.
    pub admin: Option<Address>,
    /// The Schema Registry set by `init`.
    pub registry: Option<Address>,
    /// The stored attestations, one per identifier.
    pub attestations: Seq<AttestationView>,
    /// The events published so far, oldest first.
    pub events: Seq<EmittedEvent>,
    /// The `on_attest` callbacks made so far, oldest first: the resolver
    /// of the attestation's schema, and the identifier of the attestation
    /// it was offered. What a resolver answers, or whether it fails, is
    /// ignored.
    pub resolver_calls: Seq<(Address, UID)>,
}

impl SasView {
    /// Stored attestations have distinct identifiers.
    pub open spec fn consistent(self) -> bool {
        forall|i: int, j: int|
            0 <= i < j < self.attestations.len() ==> self.attestations[i].uid
                != self.attestations[j].uid
    }

    /// The attestation stored under `uid`.
    pub open spec fn attestation_of(self, uid: UID) -> Option<AttestationView> {
        match find_attestation(self.attestations, uid) {
            Some(i) => Some(self.attestations[i]),
            None => None,
        }
    }

    /// What `verify_attestation` answers at time `now`: the attestation
    /// exists, has not been revoked and has not expired.
    pub open spec fn is_valid_at(self, uid: UID, now: u64) -> bool {
        match self.attestation_of(uid) {
            Some(a) => a.revocation_time == 0 && !is_expired(a, now),
            None => false,
        }
    }

    /// `a` offered to `resolver`, stored, and its `AttestationIssued`
    /// event published.
    pub open spec fn with_attestation(self, a: AttestationView, resolver: Address) -> SasView {
        SasView {
            attestations: store_attestation(self.attestations, a),
            events: self.events.push(attested_event(a)),
            resolver_calls: self.resolver_calls.push((resolver, a.uid)),
            ..self
        }
    }

    /// The outcome of recording `a` once its issuer is established: refused
    /// with `AlreadyExpired` when it has already expired at the ledger time,
    /// with `SchemaNotFound` when the registry does not serve its schema.
    /// Otherwise the schema's resolver is offered the attestation.
    pub open spec fn issue(self, env: &Env, registry: RegistryView, a: AttestationView) -> Result<
        SasView,
        SASError,
    > {
        if is_expired(a, env.timestamp) {
            Err(SASError::AlreadyExpired)
        } else {
            match registry.active_schema(a.schema_uid.0@) {
                None => Err(SASError::SchemaNotFound),
                Some(schema) => Ok(self.with_attestation(a, schema.resolver)),
            }
        }
    }

    /// The outcome of `attest`: the attester must authorize the invocation.
    pub open spec fn attest_outcome(self, env: &Env, registry: RegistryView, a: AttestationView) -> Result<
        SasView,
        SASError,
    > {
        if !authorizes(env, a.attester) {
            Err(SASError::Unauthorized)
        } else {
            self.issue(env, registry, a)
        }
    }

    /// The outcome of attesting each of `atts` in turn, stopping at the
    /// first refusal.
    pub open spec fn multi_attest_outcome(
        self,
        env: &Env,
        registry: RegistryView,
        atts: Seq<AttestationView>,
    ) -> Result<SasView, SASError>
        decreases atts.len(),
    {
        if atts.len() == 0 {
            Ok(self)
        } else {
            match self.multi_attest_outcome(env, registry, atts.drop_last()) {
                Ok(v) => v.attest_outcome(env, registry, atts.last()),
                Err(e) => Err(e),
            }
        }
    }

    /// The outcome of `revoke`: the attestation must exist, its attester
    /// must authorize the invocation, and it must be revocable. Its
    /// revocation time becomes the ledger time, which the published
    /// `AttestationRevoked` event carries.
    pub open spec fn revoke_outcome(self, env: &Env, uid: UID) -> Result<SasView, SASError> {
        match find_attestation(self.attestations, uid) {
            None => Err(SASError::AttestationNotFound),
            Some(i) => {
                let a = self.attestations[i];
                if !authorizes(env, a.attester) {
                    Err(SASError::Unauthorized)
                } else if !a.revocable {
                    Err(SASError::NotRevocable)
                } else {
                    Ok(
                        SasView {
                            attestations: self.attestations.update(
                                i,
                                AttestationView { revocation_time: env.timestamp, ..a },
                            ),
                            events: self.events.push(
                                EmittedEvent::AttestationRevoked(
                                    AttestationRevokedEvent { uid, timestamp: env.timestamp },
                                ),
                            ),
                            ..self
                        },
                    )
                }
            },
        }
    }

    /// The outcome of revoking each of `uids` in turn, stopping at the
    /// first refusal.
    pub open spec fn multi_revoke_outcome(self, env: &Env, uids: Seq<UID>) -> Result<
        SasView,
        SASError,
    >
        decreases uids.len(),
    {
        if uids.len() == 0 {
            Ok(self)
        } else {
            match self.multi_revoke_outcome(env, uids.drop_last()) {
                Ok(v) => v.revoke_outcome(env, uids.last()),
                Err(e) => Err(e),
            }
        }
    }

    /// The outcome of verifying an off-chain attestation `a` signed with
    /// `signature` by `public_key` under `nonce`: the key must be the
    /// attester's account key (`Unauthorized` otherwise), the signature
    /// must be valid over the digest bound to this network, this contract
    /// and `nonce` (`InvalidSignature`), the attestation must not have
    /// expired (`AlreadyExpired`), and an attestation stored on chain under
    /// the same identifier must not have been revoked (`AlreadyRevoked`).
    pub open spec fn offchain_outcome(
        self,
        env: &Env,
        a: AttestationView,
        nonce: u64,
        public_key: Seq<u8>,
        signature: Seq<u8>,
    ) -> Result<(), SASError> {
        let domain = AttestationDomain {
            network_id: env.network_id,
            contract: self.address,
            nonce,
        };
        if !key_of_attester(a, public_key) {
            Err(SASError::Unauthorized)
        } else if !ed25519_accepts(public_key, offchain_digest(a, domain), signature) {
            Err(SASError::InvalidSignature)
        } else if is_expired(a, env.timestamp) {
            Err(SASError::AlreadyExpired)
        } else if self.attestation_of(a.uid) matches Some(stored) && stored.revocation_time != 0 {
            Err(SASError::AlreadyRevoked)
        } else {
            Ok(())
        }
    }
}

/// Storing an attestation keeps identifiers distinct and makes it the one
/// found under its identifier.
pub proof fn lemma_store_attestation(s: Seq<AttestationView>, a: AttestationView)
    requires
        forall|i: int, j: int| 0 <= i < j < s.len() ==> s[i].uid != s[j].uid,
    ensures
        ({
            let t = store_attestation(s, a);
            &&& forall|i: int, j: int| 0 <= i < j < t.len() ==> t[i].uid != t[j].uid
            &&& find_attestation(t, a.uid) matches Some(k) && t[k] == a
            &&& forall|u: UID|
                u != a.uid ==> #[trigger] find_attestation(t, u) == find_attestation(s, u)
        }),
{
    let t = store_attestation(s, a);
    lemma_find_attestation(s, a.uid);
    match find_attestation(s, a.uid) {
        Some(k) => {
            lemma_find_attestation_unique(t, a.uid, k);
            assert forall|u: UID| u != a.uid implies #[trigger] find_attestation(t, u)
                == find_attestation(s, u) by {
                lemma_find_attestation(s, u);
                lemma_find_attestation(t, u);
                if let Some(m) = find_attestation(s, u) {
                    lemma_find_attestation_unique(t, u, m);
                }
            }
        },
        None => {
            lemma_find_attestation_unique(t, a.uid, s.len() as int);
            assert forall|u: UID| u != a.uid implies #[trigger] find_attestation(t, u)
                == find_attestation(s, u) by {
                assert(t.drop_last() =~= s);
            }
        },
    }
}

/// The SAS contract and its storage.
pub struct SAS {
    address: Address,
    admin: Option<Address>,
    registry: Option<Address>,
    attestations: Vec<Attestation>,
    events: Vec<EmittedEvent>,
    resolver_calls: Vec<(Address, UID)>,
}

impl View for SAS {
    type V = SasView;

    closed spec fn view(&self) -> SasView {
        SasView {
            address: self.address,
            admin: self.admin,
            registry: self.registry,
            attestations: self.attestations@.map_values(|a: Attestation| a@),
            events: self.events@,
            resolver_calls: self.resolver_calls@,
        }
    }
}

impl SAS {
    /// The contract's storage is consistent.
    pub closed spec fn wf(&self) -> bool {
        self@.consistent()
    }

    /// A SAS contract deployed at `address`, with empty storage.
    pub fn deploy(address: Address) -> (res: Self)
        ensures
            res.wf(),
            res@ == (SasView {
                address,
                admin: None,
                registry: None,
                attestations: Seq::empty(),
                events: Seq::empty(),
                resolver_calls: Seq::empty(),
            }),
    {
        let res = SAS {
            address,
            admin: None,
            registry: None,
            attestations: Vec::new(),
            events: Vec::new(),
            resolver_calls: Vec::new(),
        };
        assert(res@.attestations =~= Seq::<AttestationView>::empty());
        assert(res@.events =~= Seq::<EmittedEvent>::empty());
        assert(res@.resolver_calls =~= Seq::<(Address, UID)>::empty());
        res
    }

    /// Compatibility probe that dependants call before trusting this
    /// contract as a SAS contract.
    pub fn sasv1(&self) -> (res: bool)
        ensures
            res,
    {
        true
    }

    /// The contract's own address.
    pub fn address(&self) -> (res: Address)
        ensures
            res == self@.address,
    {
        self.address
    }

    /// The events published so far, oldest first.
    pub fn events(&self) -> (res: &Vec<EmittedEvent>)
        ensures
            res@ == self@.events,
    {
        &self.events
    }

    /// The `on_attest` callbacks made so far, oldest first: each resolver
    /// with the identifier of the attestation it was offered.
    pub fn resolver_calls(&self) -> (res: &Vec<(Address, UID)>)
        ensures
            res@ == self@.resolver_calls,
    {
        &self.resolver_calls
    }

    /// Sets the administrator and binds the Schema Registry, after checking
    /// that `registry` answers the registry compatibility probe. Refused
    /// with `AlreadyInitialized` once initialized.
    pub fn init(&mut self, env: &Env, admin: Address, registry: &SchemaRegistry) -> (res: Result<
        (),
        SASError,
    >)
        requires
            old(self).wf(),
        ensures
            final(self).wf(),
            res is Err <==> old(self)@.admin is Some,
            res is Err ==> res == Err::<(), SASError>(SASError::AlreadyInitialized)
                && final(self)@ == old(self)@,
            res is Ok ==> final(self)@ == (SasView {
                admin: Some(admin),
                registry: Some(registry@.address),
                ..old(self)@
            }),
    {
        if self.admin.is_some() {
            return Err(SASError::AlreadyInitialized);
        }
        if !registry.sasreg() {
            return Err(SASError::IncompatibleDependency);
        }
        self.admin = Some(admin);
        self.registry = Some(registry.address());
        Ok(())
    }

    /// The administrator, if `init` has run.
    pub fn get_admin(&self) -> (res: Option<Address>)
        ensures
            res == self@.admin,
    {
        self.admin
    }

    /// The bound Schema Registry, if `init` has run.
    pub fn get_registry(&self) -> (res: Option<Address>)
        ensures
            res == self@.registry,
    {
        self.registry
    }

    /// Index of the stored attestation with identifier `uid`.
    fn position(&self, uid: &UID) -> (res: Option<usize>)
        ensures
            res matches Some(i) ==> find_attestation(self@.attestations, *uid) == Some(i as int)
                && i < self.attestations@.len() && self@.attestations[i as int]
                == self.attestations@[i as int]@,
            res is None ==> find_attestation(self@.attestations, *uid) is None,
    {
        let ghost s = self@.attestations;
        let mut i: usize = self.attestations.len();
        assert(s.subrange(0, i as int) =~= s);
        while i > 0
            invariant
                0 <= i <= self.attestations@.len(),
                s == self@.attestations,
                s.len() == self.attestations@.len(),
                find_attestation(s, *uid) == find_attestation(s.subrange(0, i as int), *uid),
            decreases i,
        {
            let a = &self.attestations[i - 1];
            proof {
                lemma_bytes32_view_injective(a.uid.0, uid.0);
                assert(s.subrange(0, i as int).drop_last() =~= s.subrange(0, i - 1));
                assert(s[i - 1] == a@);
            }
            if bytes32_eq(&a.uid.0, &uid.0) {
                return Some(i - 1);
            }
            i = i - 1;
        }
        None
    }

    /// The stored attestation with identifier `uid`.
    pub fn get_attestation(&self, uid: UID) -> (res: Option<Attestation>)
        ensures
            res matches Some(a) ==> self@.attestation_of(uid) == Some(a@),
            res is None ==> self@.attestation_of(uid) is None,
    {
        match self.position(&uid) {
            Some(i) => Some(self.attestations[i].duplicate()),
            None => None,
        }
    }

    fn store(&mut self, attestation: Attestation, resolver: Address)
        requires
            old(self).wf(),
        ensures
            final(self).wf(),
            final(self)@ == old(self)@.with_attestation(attestation@, resolver),
    {
        self.resolver_calls.push((resolver, attestation.uid));
        let ghost a = attestation@;
        proof {
            lemma_store_attestation(self@.attestations, a);
        }
        let pos = self.position(&attestation.uid);
        publish_attested(&mut self.events, &attestation);
        match pos {
            Some(i) => {
                self.attestations.set(i, attestation);
            },
            None => {
                self.attestations.push(attestation);
            },
        }
        assert(self@.attestations =~= store_attestation(old(self)@.attestations, a));
    }

    fn attest_internal(&mut self, env: &Env, registry: &SchemaRegistry, attestation: Attestation) -> (res:
        Result<UID, SASError>)
        requires
            old(self).wf(),
            registry.wf(),
            registry@.instance_live(env.ledger_sequence as int),
            registry@.schema_readable(attestation.schema_uid.0@, env.ledger_sequence as int),
        ensures
            final(self).wf(),
            res matches Ok(uid) ==> uid == attestation.uid && old(self)@.issue(
                env,
                registry@,
                attestation@,
            ) == Ok::<SasView, SASError>(final(self)@),
            res matches Err(e) ==> old(self)@.issue(env, registry@, attestation@) == Err::<
                SasView,
                SASError,
            >(e) && final(self)@ == old(self)@,
    {
        if attestation.expiration_time != 0 && attestation.expiration_time <= env.timestamp {
            return Err(SASError::AlreadyExpired);
        }
        let resolver = match registry.get_schema(env, attestation.schema_uid) {
            Some(schema) => schema.resolver,
            None => {
                return Err(SASError::SchemaNotFound);
            },
        };
        let uid = attestation.uid;
        self.store(attestation, resolver);
        Ok(uid)
    }

    /// Issues `attestation`, which its attester must authorize, against the
    /// bound registry, and returns its identifier. An earlier attestation
    /// with the same identifier is replaced. Publishes `AttestationIssued`
    /// and offers the attestation to the schema's resolver. The registry's
    /// instance and its entries about the schema must not have been
    /// archived: reading them would abort the invocation.
    pub fn attest(&mut self, env: &Env, registry: &SchemaRegistry, attestation: Attestation) -> (res:
        Result<UID, SASError>)
        requires
            old(self).wf(),
            registry.wf(),
            old(self)@.registry == Some(registry@.address),
            registry@.instance_live(env.ledger_sequence as int),
            registry@.schema_readable(attestation.schema_uid.0@, env.ledger_sequence as int),
        ensures
            final(self).wf(),
            res matches Ok(uid) ==> uid == attestation.uid && old(self)@.attest_outcome(
                env,
                registry@,
                attestation@,
            ) == Ok::<SasView, SASError>(final(self)@),
            res matches Err(e) ==> old(self)@.attest_outcome(env, registry@, attestation@) == Err::<
                SasView,
                SASError,
            >(e) && final(self)@ == old(self)@,
    {
        if !env.require_auth(&attestation.attester) {
            return Err(SASError::Unauthorized);
        }
        self.attest_internal(env, registry, attestation)
    }

    /// Issues `attestation` on the strength of an ed25519 `signature` by
    /// `public_key` over the schema uid and the recipient, instead of the
    /// attester's authorization. The key must be the attester's account key
    /// (`Unauthorized` otherwise), and the signature must verify
    /// (`InvalidSignature` otherwise). The registry must be readable as for
    /// `attest`.
    pub fn attest_by_delegation(
        &mut self,
        env: &Env,
        registry: &SchemaRegistry,
        attestation: Attestation,
        signature: [u8; 64],
        public_key: [u8; 32],
    ) -> (res: Result<UID, SASError>)
        requires
            old(self).wf(),
            registry.wf(),
            old(self)@.registry == Some(registry@.address),
            registry@.instance_live(env.ledger_sequence as int),
            registry@.schema_readable(attestation.schema_uid.0@, env.ledger_sequence as int),
        ensures
            final(self).wf(),
            !key_of_attester(attestation@, public_key@) ==> res == Err::<UID, SASError>(
                SASError::Unauthorized,
            ) && final(self)@ == old(self)@,
            key_of_attester(attestation@, public_key@) && !ed25519_accepts(
                public_key@,
                delegation_payload(attestation@),
                signature@,
            ) ==> res == Err::<UID, SASError>(SASError::InvalidSignature) && final(self)@ == old(
                self,
            )@,
            key_of_attester(attestation@, public_key@) && ed25519_accepts(
                public_key@,
                delegation_payload(attestation@),
                signature@,
            ) ==> {
                &&& res matches Ok(uid) ==> uid == attestation.uid && old(self)@.issue(
                    env,
                    registry@,
                    attestation@,
                ) == Ok::<SasView, SASError>(final(self)@)
                &&& res matches Err(e) ==> old(self)@.issue(env, registry@, attestation@) == Err::<
                    SasView,
                    SASError,
                >(e) && final(self)@ == old(self)@
            },
    {
        let bound = match attestation.attester {
            Address::Account(k) => bytes32_eq(&k, &public_key),
            Address::Contract(_) => false,
        };
        proof {
            if let Address::Account(k) = attestation.attester {
                lemma_bytes32_view_injective(k, public_key);
            }
        }
        if !bound {
            return Err(SASError::Unauthorized);
        }
        let mut payload: Vec<u8> = Vec::new();
        append_bytes(&mut payload, &attestation.schema_uid.0);
        append_address(&mut payload, &attestation.recipient);
        assert(payload@ =~= delegation_payload(attestation@));
        if !ed25519_verify(&public_key, payload.as_slice(), &signature) {
            return Err(SASError::InvalidSignature);
        }
        self.attest_internal(env, registry, attestation)
    }

    /// Issues `attestation` together with a `value` in `token`: a negative
    /// value is refused with `InvalidValue`; otherwise this is `attest` (no
    /// token transfer is performed).
    pub fn attest_with_value(
        &mut self,
        env: &Env,
        registry: &SchemaRegistry,
        attestation: Attestation,
        token: Address,
        value: i128,
    ) -> (res: Result<UID, SASError>)
        requires
            old(self).wf(),
            registry.wf(),
            old(self)@.registry == Some(registry@.address),
            registry@.instance_live(env.ledger_sequence as int),
            registry@.schema_readable(attestation.schema_uid.0@, env.ledger_sequence as int),
        ensures
            final(self).wf(),
            value < 0 ==> res == Err::<UID, SASError>(SASError::InvalidValue) && final(self)@
                == old(self)@,
            value >= 0 ==> (res matches Ok(uid) ==> uid == attestation.uid
                && old(self)@.attest_outcome(env, registry@, attestation@) == Ok::<SasView, SASError>(
                final(self)@,
            )),
            value >= 0 ==> (res matches Err(e) ==> old(self)@.attest_outcome(
                env,
                registry@,
                attestation@,
            ) == Err::<SasView, SASError>(e) && final(self)@ == old(self)@),
    {
        if value < 0 {
            return Err(SASError::InvalidValue);
        }
        self.attest(env, registry, attestation)
    }

    /// An equal copy of the contract's storage.
    fn duplicate(&self) -> (res: Self)
        ensures
            res@ == self@,
    {
        let mut atts: Vec<Attestation> = Vec::new();
        let mut i: usize = 0;
        while i < self.attestations.len()
            invariant
                0 <= i <= self.attestations@.len(),
                atts@.len() == i,
                forall|k: int| 0 <= k < i ==> #[trigger] atts@[k]@ == self.attestations@[k]@,
            decreases self.attestations@.len() - i,
        {
            let a = self.attestations[i].duplicate();
            atts.push(a);
            i = i + 1;
        }
        assert(atts@.map_values(|a: Attestation| a@) =~= self.attestations@.map_values(
            |a: Attestation| a@,
        ));
        let mut events: Vec<EmittedEvent> = Vec::new();
        let mut j: usize = 0;
        while j < self.events.len()
            invariant
                0 <= j <= self.events@.len(),
                events@ =~= self.events@.subrange(0, j as int),
            decreases self.events@.len() - j,
        {
            events.push(self.events[j]);
            j = j + 1;
        }
        assert(self.events@.subrange(0, j as int) =~= self.events@);
        let mut resolver_calls: Vec<(Address, UID)> = Vec::new();
        let mut k: usize = 0;
        while k < self.resolver_calls.len()
            invariant
                0 <= k <= self.resolver_calls@.len(),
                resolver_calls@ =~= self.resolver_calls@.subrange(0, k as int),
            decreases self.resolver_calls@.len() - k,
        {
            resolver_calls.push(self.resolver_calls[k]);
            k = k + 1;
        }
        assert(self.resolver_calls@.subrange(0, k as int) =~= self.resolver_calls@);
        SAS {
            address: self.address,
            admin: self.admin,
            registry: self.registry,
            attestations: atts,
            events,
            resolver_calls,
        }
    }

    /// Issues each of `attestations` in turn, as `attest` does, and returns
    /// their identifiers. All or nothing: if one is refused, the call fails
    /// with its error and storage is left unchanged.
    pub fn multi_attest(
        &mut self,
        env: &Env,
        registry: &SchemaRegistry,
        attestations: Vec<Attestation>,
    ) -> (res: Result<Vec<UID>, SASError>)
        requires
            old(self).wf(),
            registry.wf(),
            old(self)@.registry == Some(registry@.address),
            registry@.instance_live(env.ledger_sequence as int),
            forall|i: int|
                0 <= i < attestations@.len() ==> registry@.schema_readable(
                    #[trigger] attestations@[i].schema_uid.0@,
                    env.ledger_sequence as int,
                ),
        ensures
            final(self).wf(),
            res matches Ok(uids) ==> uids@ == attestations@.map_values(|a: Attestation| a.uid)
                && old(self)@.multi_attest_outcome(
                env,
                registry@,
                attestations@.map_values(|a: Attestation| a@),
            ) == Ok::<SasView, SASError>(final(self)@),
            res matches Err(e) ==> old(self)@.multi_attest_outcome(
                env,
                registry@,
                attestations@.map_values(|a: Attestation| a@),
            ) == Err::<SasView, SASError>(e) && final(self)@ == old(self)@,
    {
        let ghost atts = attestations@.map_values(|a: Attestation| a@);
        let mut work = self.duplicate();
        let mut uids: Vec<UID> = Vec::new();
        let mut i: usize = 0;
        while i < attestations.len()
            invariant
                0 <= i <= attestations@.len(),
                atts == attestations@.map_values(|a: Attestation| a@),
                work.wf(),
                registry.wf(),
                work@.registry == Some(registry@.address),
                registry@.instance_live(env.ledger_sequence as int),
                forall|k: int|
                    0 <= k < attestations@.len() ==> registry@.schema_readable(
                        #[trigger] attestations@[k].schema_uid.0@,
                        env.ledger_sequence as int,
                    ),
                self@ == old(self)@,
                self.wf(),
                old(self)@.multi_attest_outcome(env, registry@, atts.subrange(0, i as int)) == Ok::<
                    SasView,
                    SASError,
                >(work@),
                uids@ == attestations@.subrange(0, i as int).map_values(|a: Attestation| a.uid),
            decreases attestations@.len() - i,
        {
            proof {
                assert(atts.subrange(0, i + 1).drop_last() =~= atts.subrange(0, i as int));
                assert(atts.subrange(0, i + 1).last() == atts[i as int]);
            }
            let a = attestations[i].duplicate();
            let ghost prev = work@;
            match work.attest(env, registry, a) {
                Ok(uid) => {
                    uids.push(uid);
                },
                Err(e) => {
                    proof {
                        lemma_multi_attest_stops(old(self)@, env, registry@, atts, i as int);
                    }
                    return Err(e);
                },
            }
            i = i + 1;
            assert(uids@ =~= attestations@.subrange(0, i as int).map_values(|a: Attestation| a.uid));
        }
        assert(atts.subrange(0, i as int) =~= atts);
        assert(attestations@.subrange(0, i as int) =~= attestations@);
        *self = work;
        Ok(uids)
    }

    /// Revokes the attestation `uid`, which its attester must authorize
    /// and which must be revocable; its revocation time becomes the ledger
    /// time. Publishes `AttestationRevoked` with that time.
    pub fn revoke(&mut self, env: &Env, uid: UID) -> (res: Result<(), SASError>)
        requires
            old(self).wf(),
        ensures
            final(self).wf(),
            res is Ok ==> old(self)@.revoke_outcome(env, uid) == Ok::<SasView, SASError>(
                final(self)@,
            ),
            res matches Err(e) ==> old(self)@.revoke_outcome(env, uid) == Err::<SasView, SASError>(e)
                && final(self)@ == old(self)@,
    {
        let i = match self.position(&uid) {
            Some(i) => i,
            None => {
                return Err(SASError::AttestationNotFound);
            },
        };
        if !env.require_auth(&self.attestations[i].attester) {
            return Err(SASError::Unauthorized);
        }
        if !self.attestations[i].revocable {
            return Err(SASError::NotRevocable);
        }
        let ghost s = self@.attestations;
        let mut a = self.attestations[i].duplicate();
        a.revocation_time = env.timestamp;
        self.attestations.set(i, a);
        publish_revoked(&mut self.events, &uid, env.timestamp);
        proof {
            lemma_find_attestation(s, uid);
            assert(self@.attestations =~= s.update(
                i as int,
                AttestationView { revocation_time: env.timestamp, ..s[i as int] },
            ));
            assert forall|p: int, q: int| 0 <= p < q < self@.attestations.len() implies self@.attestations[p].uid
                != self@.attestations[q].uid by {
                assert(self@.attestations[p].uid == s[p].uid);
                assert(self@.attestations[q].uid == s[q].uid);
            }
        }
        Ok(())
    }

    /// Revokes each of `uids` in turn, as `revoke` does. All or nothing: if
    /// one is refused, the call fails with its error and storage is left
    /// unchanged.
    pub fn multi_revoke(&mut self, env: &Env, uids: Vec<UID>) -> (res: Result<(), SASError>)
        requires
            old(self).wf(),
        ensures
            final(self).wf(),
            res is Ok ==> old(self)@.multi_revoke_outcome(env, uids@) == Ok::<SasView, SASError>(
                final(self)@,
            ),
            res matches Err(e) ==> old(self)@.multi_revoke_outcome(env, uids@) == Err::<
                SasView,
                SASError,
            >(e) && final(self)@ == old(self)@,
    {
        let mut work = self.duplicate();
        let mut i: usize = 0;
        while i < uids.len()
            invariant
                0 <= i <= uids@.len(),
                work.wf(),
                self@ == old(self)@,
                self.wf(),
                old(self)@.multi_revoke_outcome(env, uids@.subrange(0, i as int)) == Ok::<
                    SasView,
                    SASError,
                >(work@),
            decreases uids@.len() - i,
        {
            proof {
                assert(uids@.subrange(0, i + 1).drop_last() =~= uids@.subrange(0, i as int));
                assert(uids@.subrange(0, i + 1).last() == uids@[i as int]);
            }
            match work.revoke(env, uids[i]) {
                Ok(()) => {},
                Err(e) => {
                    proof {
                        lemma_multi_revoke_stops(old(self)@, env, uids@, i as int);
                    }
                    return Err(e);
                },
            }
            i = i + 1;
        }
        assert(uids@.subrange(0, i as int) =~= uids@);
        *self = work;
        Ok(())
    }

    /// Whether the attestation `uid` exists, has not been revoked and has
    /// not expired at the ledger time.
    pub fn verify_attestation(&self, env: &Env, uid: UID) -> (res: bool)
        ensures
            res == self@.is_valid_at(uid, env.timestamp),
    {
        match self.position(&uid) {
            Some(i) => {
                let a = &self.attestations[i];
                if a.revocation_time != 0 {
                    return false;
                }
                if a.expiration_time != 0 && env.timestamp >= a.expiration_time {
                    return false;
                }
                true
            },
            None => false,
        }
    }

    /// Verifies an attestation signed off-chain with `signature` by
    /// `public_key` under `nonce`, bound to this network and this contract.
    /// Answers `true`, or fails with the first check that does not hold:
    /// `Unauthorized` when `public_key` is not the attester's account key,
    /// `InvalidSignature`, `AlreadyExpired`, `AlreadyRevoked` (revoked on
    /// chain).
    pub fn verify_offchain_attestation(
        &self,
        env: &Env,
        attestation: &Attestation,
        nonce: u64,
        public_key: [u8; 32],
        signature: [u8; 64],
    ) -> (res: Result<bool, SASError>)
        requires
            attestation.data@.len() <= MAX_OFFCHAIN_DATA,
        ensures
            res is Ok ==> res == Ok::<bool, SASError>(true),
            res is Ok <==> self@.offchain_outcome(
                env,
                attestation@,
                nonce,
                public_key@,
                signature@,
            ) is Ok,
            res matches Err(e) ==> self@.offchain_outcome(
                env,
                attestation@,
                nonce,
                public_key@,
                signature@,
            ) == Err::<(), SASError>(e),
    {
        let bound = match attestation.attester {
            Address::Account(k) => bytes32_eq(&k, &public_key),
            Address::Contract(_) => false,
        };
        proof {
            if let Address::Account(k) = attestation.attester {
                lemma_bytes32_view_injective(k, public_key);
            }
        }
        if !bound {
            return Err(SASError::Unauthorized);
        }
        let domain = AttestationDomain {
            network_id: env.network_id,
            contract: self.address,
            nonce,
        };
        let digest = hash_offchain_attestation(attestation, &domain);
        if !ed25519_verify(&public_key, &digest, &signature) {
            return Err(SASError::InvalidSignature);
        }
        if attestation.expiration_time != 0 && env.timestamp >= attestation.expiration_time {
            return Err(SASError::AlreadyExpired);
        }
        match self.position(&attestation.uid) {
            Some(i) => {
                if self.attestations[i].revocation_time != 0 {
                    return Err(SASError::AlreadyRevoked);
                }
            },
            None => {},
        }
        Ok(true)
    }
}

/// Once an attestation of a batch is refused, the whole batch is refused
/// with that error.
proof fn lemma_multi_attest_stops(
    v: SasView,
    env: &Env,
    registry: RegistryView,
    atts: Seq<AttestationView>,
    i: int,
)
    requires
        0 <= i < atts.len(),
        v.multi_attest_outcome(env, registry, atts.subrange(0, i + 1)) is Err,
    ensures
        v.multi_attest_outcome(env, registry, atts) == v.multi_attest_outcome(
            env,
            registry,
            atts.subrange(0, i + 1),
        ),
    decreases atts.len() - i,
{
    if i + 1 < atts.len() {
        assert(atts.subrange(0, i + 2).drop_last() =~= atts.subrange(0, i + 1));
        lemma_multi_attest_stops(v, env, registry, atts, i + 1);
    } else {
        assert(atts.subrange(0, i + 1) =~= atts);
    }
}

/// Once a revocation of a batch is refused, the whole batch is refused
/// with that error.
proof fn lemma_multi_revoke_stops(v: SasView, env: &Env, uids: Seq<UID>, i: int)
    requires
        0 <= i < uids.len(),
        v.multi_revoke_outcome(env, uids.subrange(0, i + 1)) is Err,
    ensures
        v.multi_revoke_outcome(env, uids) == v.multi_revoke_outcome(env, uids.subrange(0, i + 1)),
    decreases uids.len() - i,
{
    if i + 1 < uids.len() {
        assert(uids.subrange(0, i + 2).drop_last() =~= uids.subrange(0, i + 1));
        lemma_multi_revoke_stops(v, env, uids, i + 1);
    } else {
        assert(uids.subrange(0, i + 1) =~= uids);
    }
}

} // verus!
