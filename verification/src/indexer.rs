//! The Indexer contract: reverse lookups from recipients, schemas and
//! attesters to the attestations issued for them.
//!
//! Only the SAS contract the indexer is bound to by `init` may record
//! entries: the lookups are only useful if every entry corresponds to an
//! attestation that contract issued.
use vstd::prelude::*;
use crate::env::{authorizes, Env};
use crate::errors::SASError;
use crate::sas::SAS;
use crate::types::{address_eq, uid_eq, Address, UID};

verus! {

/// Number of identifiers a storage chunk holds.
pub const CHUNK_SIZE: u32 = 100;

/// One indexed attestation.
#[derive(Clone, Copy, Debug)]
pub struct IndexEntry {
    pub uid: UID,
    pub recipient: Address,
    pub schema_uid: UID,
    pub attester: Address,
}

/// Identifiers of the entries of `s` for `recipient`, in indexing order.
pub open spec fn uids_by_recipient(s: Seq<IndexEntry>, recipient: Address) -> Seq<UID>
    decreases s.len(),
{
    if s.len() == 0 {
        Seq::empty()
    } else {
        uids_by_recipient(s.drop_last(), recipient) + if s.last().recipient == recipient {
            seq![s.last().uid]
        } else {
            Seq::empty()
        }
    }
}

/// Identifiers of the entries of `s` for `schema_uid`, in indexing order.
pub open spec fn uids_by_schema(s: Seq<IndexEntry>, schema_uid: UID) -> Seq<UID>
    decreases s.len(),
{
    if s.len() == 0 {
        Seq::empty()
    } else {
        uids_by_schema(s.drop_last(), schema_uid) + if s.last().schema_uid == schema_uid {
            seq![s.last().uid]
        } else {
            Seq::empty()
        }
    }
}

/// Identifiers of the entries of `s` for `attester`, in indexing order.
pub open spec fn uids_by_attester(s: Seq<IndexEntry>, attester: Address) -> Seq<UID>
    decreases s.len(),
{
    if s.len() == 0 {
        Seq::empty()
    } else {
        uids_by_attester(s.drop_last(), attester) + if s.last().attester == attester {
            seq![s.last().uid]
        } else {
            Seq::empty()
        }
    }
}

/// The window `[start, start + limit)` of `s`, cut at its end.
pub open spec fn page(s: Seq<UID>, start: int, limit: int) -> Seq<UID> {
    if start >= s.len() {
        Seq::empty()
    } else if start + limit > s.len() {
        s.subrange(start, s.len() as int)
    } else {
        s.subrange(start, start + limit)
    }
}

/// The model of the indexer's storage.
pub struct IndexerView {
    /// The contract's own address.
    pub address: Address,
    /// The administrator set by `init`.
    pub admin: Option<Address>,
    /// The SAS contract set by `init`, the only one allowed to record.
    pub sas: Option<Address>,
    /// The indexed attestations, in indexing order.
    pub entries: Seq<IndexEntry>,
}

impl IndexerView {
    /// The bound SAS contract has authorized the invocation.
    pub open spec fn sas_authorized(self, env: &Env) -> bool {
        self.sas matches Some(sas) && authorizes(env, sas)
    }
}

/// The Indexer contract and its storage.
pub struct Indexer {
    address: Address,
    admin: Option<Address>,
    sas: Option<Address>,
    entries: Vec<IndexEntry>,
}

impl View for Indexer {
    type V = IndexerView;

    closed spec fn view(&self) -> IndexerView {
        IndexerView {
            address: self.address,
            admin: self.admin,
            sas: self.sas,
            entries: self.entries@,
        }
    }
}

impl Indexer {
    /// An indexer deployed at `address`, with empty storage.
    pub fn deploy(address: Address) -> (res: Self)
        ensures
            res@ == (IndexerView { address, admin: None, sas: None, entries: Seq::empty() }),
    {
        let res = Indexer { address, admin: None, sas: None, entries: Vec::new() };
        assert(res@.entries =~= Seq::<IndexEntry>::empty());
        res
    }

    /// Sets the administrator and binds the SAS contract allowed to
    /// record, after checking that `sas` answers the SAS compatibility
    /// probe. Refused with `AlreadyInitialized` once initialized.
    pub fn init(&mut self, env: &Env, admin: Address, sas: &SAS) -> (res: Result<(), SASError>)
        ensures
            res is Err <==> old(self)@.admin is Some,
            res is Err ==> res == Err::<(), SASError>(SASError::AlreadyInitialized)
                && final(self)@ == old(self)@,
            res is Ok ==> final(self)@ == (IndexerView {
                admin: Some(admin),
                sas: Some(sas@.address),
                ..old(self)@
            }),
    {
        if self.admin.is_some() {
            return Err(SASError::AlreadyInitialized);
        }
        if !sas.sasv1() {
            return Err(SASError::IncompatibleDependency);
        }
        self.admin = Some(admin);
        self.sas = Some(sas.address());
        Ok(())
    }

    /// The administrator, if `init` has run.
    pub fn get_admin(&self) -> (res: Option<Address>)
        ensures
            res == self@.admin,
    {
        self.admin
    }

    /// The bound SAS contract, if `init` has run.
    pub fn get_sas(&self) -> (res: Option<Address>)
        ensures
            res == self@.sas,
    {
        self.sas
    }

    /// Records attestation `uid` under its recipient, schema and attester.
    /// Only the bound SAS contract may do so: the call is refused with
    /// `Unauthorized` when it has not authorized the invocation, and before
    /// `init`, when no SAS contract is bound.
    pub fn index_attestation(
        &mut self,
        env: &Env,
        uid: UID,
        recipient: Address,
        schema_uid: UID,
        attester: Address,
    ) -> (res: Result<(), SASError>)
        ensures
            res is Ok <==> old(self)@.sas_authorized(env),
            res is Err ==> res == Err::<(), SASError>(SASError::Unauthorized)
                && final(self)@ == old(self)@,
            res is Ok ==> final(self)@ == (IndexerView {
                entries: old(self)@.entries.push(IndexEntry { uid, recipient, schema_uid, attester }),
                ..old(self)@
            }),
    {
        let sas = match self.sas {
            Some(s) => s,
            None => {
                return Err(SASError::Unauthorized);
            },
        };
        if !env.require_auth(&sas) {
            return Err(SASError::Unauthorized);
        }
        self.entries.push(IndexEntry { uid, recipient, schema_uid, attester });
        Ok(())
    }

    /// The attestations indexed for `recipient`, in indexing order.
    pub fn get_attestations_by_recipient(&self, recipient: Address) -> (res: Vec<UID>)
        ensures
            res@ == uids_by_recipient(self@.entries, recipient),
    {
        let mut out: Vec<UID> = Vec::new();
        let mut i: usize = 0;
        while i < self.entries.len()
            invariant
                0 <= i <= self.entries@.len(),
                out@ == uids_by_recipient(self.entries@.subrange(0, i as int), recipient),
            decreases self.entries@.len() - i,
        {
            let e = self.entries[i];
            assert(self.entries@.subrange(0, i + 1).drop_last() =~= self.entries@.subrange(
                0,
                i as int,
            ));
            if address_eq(&e.recipient, &recipient) {
                out.push(e.uid);
            }
            i = i + 1;
            assert(out@ =~= uids_by_recipient(self.entries@.subrange(0, i as int), recipient));
        }
        assert(self.entries@.subrange(0, i as int) =~= self.entries@);
        out
    }

    /// The attestations indexed for `schema_uid`, in indexing order.
    pub fn get_attestations_by_schema(&self, schema_uid: UID) -> (res: Vec<UID>)
        ensures
            res@ == uids_by_schema(self@.entries, schema_uid),
    {
        let mut out: Vec<UID> = Vec::new();
        let mut i: usize = 0;
        while i < self.entries.len()
            invariant
                0 <= i <= self.entries@.len(),
                out@ == uids_by_schema(self.entries@.subrange(0, i as int), schema_uid),
            decreases self.entries@.len() - i,
        {
            let e = self.entries[i];
            assert(self.entries@.subrange(0, i + 1).drop_last() =~= self.entries@.subrange(
                0,
                i as int,
            ));
            if uid_eq(&e.schema_uid, &schema_uid) {
                out.push(e.uid);
            }
            i = i + 1;
            assert(out@ =~= uids_by_schema(self.entries@.subrange(0, i as int), schema_uid));
        }
        assert(self.entries@.subrange(0, i as int) =~= self.entries@);
        out
    }

    /// The attestations indexed for `attester`, in indexing order.
    pub fn get_attestations_by_attester(&self, attester: Address) -> (res: Vec<UID>)
        ensures
            res@ == uids_by_attester(self@.entries, attester),
    {
        let mut out: Vec<UID> = Vec::new();
        let mut i: usize = 0;
        while i < self.entries.len()
            invariant
                0 <= i <= self.entries@.len(),
                out@ == uids_by_attester(self.entries@.subrange(0, i as int), attester),
            decreases self.entries@.len() - i,
        {
            let e = self.entries[i];
            assert(self.entries@.subrange(0, i + 1).drop_last() =~= self.entries@.subrange(
                0,
                i as int,
            ));
            if address_eq(&e.attester, &attester) {
                out.push(e.uid);
            }
            i = i + 1;
            assert(out@ =~= uids_by_attester(self.entries@.subrange(0, i as int), attester));
        }
        assert(self.entries@.subrange(0, i as int) =~= self.entries@);
        out
    }

    /// Up to `limit` attestations indexed for `recipient`, starting at
    /// position `start` of its list.
    pub fn get_atts_by_recipient_paginated(&self, recipient: Address, start: u32, limit: u32) -> (res:
        Vec<UID>)
        ensures
            res@ == page(uids_by_recipient(self@.entries, recipient), start as int, limit as int),
            res@.len() == if start < uids_by_recipient(self@.entries, recipient).len() {
                if start + limit < uids_by_recipient(self@.entries, recipient).len() {
                    limit as int
                } else {
                    uids_by_recipient(self@.entries, recipient).len() - start
                }
            } else {
                0
            },
            forall|k: int|
                0 <= k < res@.len() ==> #[trigger] res@[k] == uids_by_recipient(
                    self@.entries,
                    recipient,
                )[start + k],
    {
        let all = self.get_attestations_by_recipient(recipient);
        slice_page(&all, start as u64, limit as u64)
    }

    /// The `chunk`-th storage chunk of `recipient`'s list: the identifiers
    /// at positions `[CHUNK_SIZE * chunk, CHUNK_SIZE * (chunk + 1))`.
    pub fn get_recipient_chunk(&self, recipient: Address, chunk: u32) -> (res: Vec<UID>)
        ensures
            res@ == page(
                uids_by_recipient(self@.entries, recipient),
                CHUNK_SIZE * chunk,
                CHUNK_SIZE as int,
            ),
    {
        let all = self.get_attestations_by_recipient(recipient);
        assert((CHUNK_SIZE as u64) * (chunk as u64) <= 100 * 0xFFFF_FFFFu64) by (nonlinear_arith)
            requires
                chunk <= 0xFFFF_FFFFu32,
                CHUNK_SIZE == 100,
        ;
        slice_page(&all, (CHUNK_SIZE as u64) * (chunk as u64), CHUNK_SIZE as u64)
    }
}

/// The window `[start, start + limit)` of `s`, cut at its end.
fn slice_page(s: &Vec<UID>, start: u64, limit: u64) -> (res: Vec<UID>)
    requires
        start + limit <= u64::MAX,
    ensures
        res@ == page(s@, start as int, limit as int),
        start >= s@.len() ==> res@.len() == 0,
        start < s@.len() ==> res@ == s@.subrange(
            start as int,
            if start + limit < s@.len() { start + limit } else { s@.len() as int },
        ),
{
    let n = s.len();
    let mut out: Vec<UID> = Vec::new();
    if start >= n as u64 {
        assert(out@ =~= page(s@, start as int, limit as int));
        return out;
    }
    let first = start as usize;
    let end: usize = if start + limit > n as u64 {
        n
    } else {
        (start + limit) as usize
    };
    let mut i = first;
    while i < end
        invariant
            first <= i <= end <= n,
            first == start,
            n == s@.len(),
            end == (if start + limit > n { n as int } else { start + limit }),
            out@ =~= s@.subrange(first as int, i as int),
        decreases end - i,
    {
        out.push(s[i]);
        i = i + 1;
        assert(out@ =~= s@.subrange(first as int, i as int));
    }
    out
}

} // verus!
