//! Core data types shared by the attestation contracts and the SDK:
//! identifiers, addresses, schema records and attestations.
use vstd::prelude::*;

verus! {

/// Two 32-byte arrays are equal exactly when their byte sequences are.
pub proof fn lemma_bytes32_view_injective(a: [u8; 32], b: [u8; 32])
    ensures
        (a@ == b@) <==> (a == b),
{
    if a@ == b@ {
        assert(a =~= b);
    }
}

/// Compares two 32-byte values byte by byte.
pub fn bytes32_eq(a: &[u8; 32], b: &[u8; 32]) -> (res: bool)
    ensures
        res == (*a == *b),
{
    proof {
        lemma_bytes32_view_injective(*a, *b);
    }
    let mut i: usize = 0;
    while i < 32
        invariant
            0 <= i <= 32,
            a@.len() == 32,
            b@.len() == 32,
            forall|j: int| 0 <= j < i ==> a@[j] == b@[j],
        decreases 32 - i,
    {
        if a[i] != b[i] {
            return false;
        }
        i = i + 1;
    }
    assert(a@ =~= b@);
    true
}

/// A 32-byte unique identifier of a schema or an attestation.
#[derive(Clone, Copy, Debug)]
pub struct UID(pub [u8; 32]);

impl PartialEq for UID {
    fn eq(&self, other: &Self) -> (res: bool) {
        bytes32_eq(&self.0, &other.0)
    }
}

impl vstd::std_specs::cmp::PartialEqSpecImpl for UID {
    open spec fn obeys_eq_spec() -> bool {
        true
    }

    open spec fn eq_spec(&self, other: &Self) -> bool {
        *self == *other
    }
}

impl Eq for UID {}

/// Compares two identifiers.
pub fn uid_eq(a: &UID, b: &UID) -> (res: bool)
    ensures
        res == (*a == *b),
{
    bytes32_eq(&a.0, &b.0)
}

/// An account (ed25519 public key) or a contract (32-byte contract id).
#[derive(Clone, Copy, Debug)]
pub enum Address {
    Account([u8; 32]),
    Contract([u8; 32]),
}

impl PartialEq for Address {
    fn eq(&self, other: &Self) -> (res: bool) {
        address_eq(self, other)
    }
}

impl vstd::std_specs::cmp::PartialEqSpecImpl for Address {
    open spec fn obeys_eq_spec() -> bool {
        true
    }

    open spec fn eq_spec(&self, other: &Self) -> bool {
        *self == *other
    }
}

impl Eq for Address {}

/// Compares two addresses.
pub fn address_eq(a: &Address, b: &Address) -> (res: bool)
    ensures
        res == (*a == *b),
{
    match (a, b) {
        (Address::Account(x), Address::Account(y)) => bytes32_eq(x, y),
        (Address::Contract(x), Address::Contract(y)) => bytes32_eq(x, y),
        _ => false,
    }
}

/// The canonical byte encoding of an address: a kind byte (0 for an account,
/// 1 for a contract) followed by the 32 key bytes.
pub open spec fn address_bytes(a: Address) -> Seq<u8> {
    match a {
        Address::Account(k) => seq![0u8] + k@,
        Address::Contract(k) => seq![1u8] + k@,
    }
}

/// The encoding is injective: equal encodings come from equal addresses.
pub proof fn lemma_address_bytes_injective(a: Address, b: Address)
    ensures
        (address_bytes(a) == address_bytes(b)) <==> (a == b),
{
    if address_bytes(a) == address_bytes(b) {
        match (a, b) {
            (Address::Account(x), Address::Account(y)) => {
                assert(address_bytes(a)[0] == 0u8);
                assert(x@ =~= address_bytes(a).subrange(1, 33));
                assert(y@ =~= address_bytes(b).subrange(1, 33));
                lemma_bytes32_view_injective(x, y);
            },
            (Address::Contract(x), Address::Contract(y)) => {
                assert(x@ =~= address_bytes(a).subrange(1, 33));
                assert(y@ =~= address_bytes(b).subrange(1, 33));
                lemma_bytes32_view_injective(x, y);
            },
            (Address::Account(x), Address::Contract(y)) => {
                assert(address_bytes(a)[0] != address_bytes(b)[0]);
            },
            (Address::Contract(x), Address::Account(y)) => {
                assert(address_bytes(a)[0] != address_bytes(b)[0]);
            },
        }
    }
}

/// Appends the bytes of `src` to `dst`.
pub fn append_bytes(dst: &mut Vec<u8>, src: &[u8])
    ensures
        final(dst)@ == old(dst)@ + src@,
{
    let mut i: usize = 0;
    while i < src.len()
        invariant
            0 <= i <= src@.len(),
            dst@ == old(dst)@ + src@.subrange(0, i as int),
        decreases src@.len() - i,
    {
        dst.push(src[i]);
        i = i + 1;
        assert(src@.subrange(0, i as int) =~= src@.subrange(0, i - 1) + seq![src@[i - 1]]);
    }
    assert(src@.subrange(0, src@.len() as int) =~= src@);
}

/// Appends the canonical encoding of `a` to `dst`.
pub fn append_address(dst: &mut Vec<u8>, a: &Address)
    ensures
        final(dst)@ == old(dst)@ + address_bytes(*a),
{
    match a {
        Address::Account(k) => {
            dst.push(0u8);
            append_bytes(dst, k);
        },
        Address::Contract(k) => {
            dst.push(1u8);
            append_bytes(dst, k);
        },
    }
    assert(final(dst)@ =~= old(dst)@ + address_bytes(*a));
}

/// The model of a schema record.
pub struct SchemaRecordView {
    pub uid: UID,
    pub resolver: Address,
    pub revocable: bool,
    pub schema: Seq<u8>,
}

/// A registered schema: its identifier, resolver contract, whether
/// attestations against it may be revoked, and its definition string.
#[derive(Clone, Debug)]
pub struct SchemaRecord {
    pub uid: UID,
    pub resolver: Address,
    pub revocable: bool,
    pub schema: Vec<u8>,
}

impl View for SchemaRecord {
    type V = SchemaRecordView;

    open spec fn view(&self) -> SchemaRecordView {
        SchemaRecordView {
            uid: self.uid,
            resolver: self.resolver,
            revocable: self.revocable,
            schema: self.schema@,
        }
    }
}

impl SchemaRecord {
    /// An equal copy of this record.
    pub fn duplicate(&self) -> (res: Self)
        ensures
            res@ == self@,
    {
        SchemaRecord {
            uid: self.uid,
            resolver: self.resolver,
            revocable: self.revocable,
            schema: self.schema.clone(),
        }
    }
}

/// The model of an attestation.
pub struct AttestationView {
    pub uid: UID,
    pub schema_uid: UID,
    pub time: u64,
    pub expiration_time: u64,
    pub revocation_time: u64,
    pub ref_uid: UID,
    pub recipient: Address,
    pub attester: Address,
    pub revocable: bool,
    pub data: Seq<u8>,
}

/// A statement by `attester` about `recipient` under schema `schema_uid`.
///
/// An `expiration_time` of 0 means the attestation never expires; a
/// `revocation_time` of 0 means it has not been revoked.
#[derive(Clone, Debug)]
pub struct Attestation {
    pub uid: UID,
    pub schema_uid: UID,
    pub time: u64,
    pub expiration_time: u64,
    pub revocation_time: u64,
    pub ref_uid: UID,
    pub recipient: Address,
    pub attester: Address,
    pub revocable: bool,
    pub data: Vec<u8>,
}

impl View for Attestation {
    type V = AttestationView;

    open spec fn view(&self) -> AttestationView {
        AttestationView {
            uid: self.uid,
            schema_uid: self.schema_uid,
            time: self.time,
            expiration_time: self.expiration_time,
            revocation_time: self.revocation_time,
            ref_uid: self.ref_uid,
            recipient: self.recipient,
            attester: self.attester,
            revocable: self.revocable,
            data: self.data@,
        }
    }
}

impl Attestation {
    /// An equal copy of this attestation.
    pub fn duplicate(&self) -> (res: Self)
        ensures
            res@ == self@,
    {
        Attestation {
            uid: self.uid,
            schema_uid: self.schema_uid,
            time: self.time,
            expiration_time: self.expiration_time,
            revocation_time: self.revocation_time,
            ref_uid: self.ref_uid,
            recipient: self.recipient,
            attester: self.attester,
            revocable: self.revocable,
            data: self.data.clone(),
        }
    }
}

/// The root of a Merkle tree over a batch of attestations.
#[derive(Clone, Copy, Debug)]
pub struct MerkleRoot(pub [u8; 32]);

/// A batch of attestations committed to by its Merkle root.
#[derive(Clone, Copy, Debug)]
pub struct BatchAttestation {
    pub root: MerkleRoot,
    pub count: u32,
}

/// A recoverable signature: recovery id `v` and the two 32-byte halves.
#[derive(Clone, Copy, Debug)]
pub struct SignatureData {
    pub v: u32,
    pub r: [u8; 32],
    pub s: [u8; 32],
}

/// An attestation signed by `attester` over `payload_hash` and submitted by
/// someone else.
#[derive(Clone, Copy, Debug)]
pub struct DelegatedAttestation {
    pub attester: Address,
    pub signature: SignatureData,
    pub payload_hash: [u8; 32],
}

} // verus!
