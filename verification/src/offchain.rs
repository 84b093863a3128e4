//! Typed-data hashing of off-chain attestations.
//!
//! An attestation signed off-chain is bound to a domain: the network it is
//! meant for, the SAS contract that will verify it, and a nonce. The signed
//! digest commits to all three, so a signature cannot be replayed on
//! another network, against another contract, or under another nonce.
use vstd::prelude::*;
use crate::crypto::{sha256, sha256_digest, MAX_HOST_INPUT};
use crate::types::{append_address, append_bytes, address_bytes, Address, Attestation, AttestationView};

verus! {

/// The domain an off-chain attestation signature is bound to.
#[derive(Clone, Copy, Debug)]
pub struct AttestationDomain {
    /// SHA-256 of the network passphrase.
    pub network_id: [u8; 32],
    /// The SAS contract that verifies the attestation.
    pub contract: Address,
    /// Replay-protection nonce.
    pub nonce: u64,
}

/// Longest attestation payload, in bytes, that can be hashed: the preimage
/// is 256 bytes plus the payload, and must fit `MAX_HOST_INPUT`.
pub const MAX_OFFCHAIN_DATA: usize = MAX_HOST_INPUT - 256;

/// The 8-byte big-endian encoding of `n`.
pub open spec fn u64_be(n: u64) -> Seq<u8> {
    Seq::new(8, |i: int| ((n as int / pow256(7 - i)) % 256) as u8)
}

/// 256 to the power `k`.
pub open spec fn pow256(k: int) -> int
    decreases k,
{
    if k <= 0 {
        1
    } else {
        256 * pow256(k - 1)
    }
}

/// The 4-byte big-endian encoding of `n`.
pub open spec fn u32_be_bytes(n: u32) -> Seq<u8> {
    Seq::new(4, |i: int| ((n as int / pow256(3 - i)) % 256) as u8)
}

/// The bytes hashed for `a` in `domain`: the domain (network id, contract
/// address, nonce) followed by the attestation fields (uid, schema uid,
/// time, expiration time, reference uid, recipient, attester, revocable
/// flag, data length and data). The revocation time is on-chain state and
/// is not signed.
pub open spec fn offchain_preimage(a: AttestationView, domain: AttestationDomain) -> Seq<u8> {
    domain.network_id@ + address_bytes(domain.contract) + u64_be(domain.nonce) + a.uid.0@
        + a.schema_uid.0@ + u64_be(a.time) + u64_be(a.expiration_time) + a.ref_uid.0@
        + address_bytes(a.recipient) + address_bytes(a.attester) + seq![
        if a.revocable {
            1u8
        } else {
            0u8
        },
    ] + u32_be_bytes(a.data.len() as u32) + a.data
}

/// Where each part of the domain and of the attestation stands in the
/// preimage.
pub proof fn lemma_offchain_preimage_layout(a: AttestationView, d: AttestationDomain)
    ensures
        ({
            let p = offchain_preimage(a, d);
            &&& p.len() == 256 + a.data.len()
            &&& p.subrange(0, 32) == d.network_id@
            &&& p.subrange(32, 65) == address_bytes(d.contract)
            &&& p.subrange(65, 73) == u64_be(d.nonce)
            &&& p.subrange(73, 105) == a.uid.0@
            &&& p.subrange(105, 137) == a.schema_uid.0@
            &&& p.subrange(137, 145) == u64_be(a.time)
            &&& p.subrange(145, 153) == u64_be(a.expiration_time)
            &&& p.subrange(153, 185) == a.ref_uid.0@
            &&& p.subrange(185, 218) == address_bytes(a.recipient)
            &&& p.subrange(218, 251) == address_bytes(a.attester)
            &&& p[251] == (if a.revocable {
                1u8
            } else {
                0u8
            })
            &&& p.subrange(256, p.len() as int) == a.data
        }),
{
    let p = offchain_preimage(a, d);
    let contract = address_bytes(d.contract);
    let recipient = address_bytes(a.recipient);
    let attester = address_bytes(a.attester);
    assert(contract.len() == 33);
    assert(recipient.len() == 33);
    assert(attester.len() == 33);
    assert(p.subrange(0, 32) =~= d.network_id@);
    assert(p.subrange(32, 65) =~= contract);
    assert(p.subrange(65, 73) =~= u64_be(d.nonce));
    assert(p.subrange(73, 105) =~= a.uid.0@);
    assert(p.subrange(105, 137) =~= a.schema_uid.0@);
    assert(p.subrange(137, 145) =~= u64_be(a.time));
    assert(p.subrange(145, 153) =~= u64_be(a.expiration_time));
    assert(p.subrange(153, 185) =~= a.ref_uid.0@);
    assert(p.subrange(185, 218) =~= recipient);
    assert(p.subrange(218, 251) =~= attester);
    assert(p.subrange(256, p.len() as int) =~= a.data);
}

/// The digest an off-chain attestation signature is made over.
pub open spec fn offchain_digest(a: AttestationView, domain: AttestationDomain) -> Seq<u8> {
    sha256_digest(offchain_preimage(a, domain))
}

proof fn lemma_pow256_values()
    ensures
        pow256(0) == 1,
        pow256(1) == 0x100,
        pow256(2) == 0x1_0000,
        pow256(3) == 0x100_0000,
        pow256(4) == 0x1_0000_0000,
        pow256(5) == 0x100_0000_0000,
        pow256(6) == 0x1_0000_0000_0000,
        pow256(7) == 0x100_0000_0000_0000,
{
    reveal_with_fuel(pow256, 8);
}

/// Distinct numbers have distinct big-endian encodings.
pub proof fn lemma_u64_be_injective(n: u64, m: u64)
    ensures
        u64_be(n) == u64_be(m) ==> n == m,
{
    if u64_be(n) == u64_be(m) {
        lemma_pow256_values();
        assert(u64_be(n)[0] == u64_be(m)[0]);
        assert(u64_be(n)[1] == u64_be(m)[1]);
        assert(u64_be(n)[2] == u64_be(m)[2]);
        assert(u64_be(n)[3] == u64_be(m)[3]);
        assert(u64_be(n)[4] == u64_be(m)[4]);
        assert(u64_be(n)[5] == u64_be(m)[5]);
        assert(u64_be(n)[6] == u64_be(m)[6]);
        assert(u64_be(n)[7] == u64_be(m)[7]);
        assert(n == m) by (bit_vector)
            requires
                (n / 0x100_0000_0000_0000) % 256 == (m / 0x100_0000_0000_0000) % 256,
                (n / 0x1_0000_0000_0000) % 256 == (m / 0x1_0000_0000_0000) % 256,
                (n / 0x100_0000_0000) % 256 == (m / 0x100_0000_0000) % 256,
                (n / 0x1_0000_0000) % 256 == (m / 0x1_0000_0000) % 256,
                (n / 0x100_0000) % 256 == (m / 0x100_0000) % 256,
                (n / 0x1_0000) % 256 == (m / 0x1_0000) % 256,
                (n / 0x100) % 256 == (m / 0x100) % 256,
                n % 256 == m % 256,
        ;
    }
}

/// Appends the 8-byte big-endian encoding of `n`.
pub fn append_u64_be(dst: &mut Vec<u8>, n: u64)
    ensures
        final(dst)@ == old(dst)@ + u64_be(n),
{
    proof {
        lemma_pow256_values();
    }
    dst.push((n / 0x100_0000_0000_0000) as u8);
    dst.push(((n / 0x1_0000_0000_0000) % 256) as u8);
    dst.push(((n / 0x100_0000_0000) % 256) as u8);
    dst.push(((n / 0x1_0000_0000) % 256) as u8);
    dst.push(((n / 0x100_0000) % 256) as u8);
    dst.push(((n / 0x1_0000) % 256) as u8);
    dst.push(((n / 0x100) % 256) as u8);
    dst.push((n % 256) as u8);
    assert(final(dst)@ =~= old(dst)@ + u64_be(n));
}

/// Appends the 4-byte big-endian encoding of `n`.
pub fn append_u32_be(dst: &mut Vec<u8>, n: u32)
    ensures
        final(dst)@ == old(dst)@ + u32_be_bytes(n),
{
    proof {
        lemma_pow256_values();
    }
    dst.push((n / 0x100_0000) as u8);
    dst.push(((n / 0x1_0000) % 256) as u8);
    dst.push(((n / 0x100) % 256) as u8);
    dst.push((n % 256) as u8);
    assert(final(dst)@ =~= old(dst)@ + u32_be_bytes(n));
}

/// The bytes that `hash_offchain_attestation` hashes.
pub fn offchain_attestation_preimage(attestation: &Attestation, domain: &AttestationDomain) -> (res:
    Vec<u8>)
    requires
        attestation.data@.len() <= MAX_OFFCHAIN_DATA,
    ensures
        res@ == offchain_preimage(attestation@, *domain),
{
    let mut out: Vec<u8> = Vec::new();
    append_bytes(&mut out, &domain.network_id);
    append_address(&mut out, &domain.contract);
    append_u64_be(&mut out, domain.nonce);
    append_bytes(&mut out, &attestation.uid.0);
    append_bytes(&mut out, &attestation.schema_uid.0);
    append_u64_be(&mut out, attestation.time);
    append_u64_be(&mut out, attestation.expiration_time);
    append_bytes(&mut out, &attestation.ref_uid.0);
    append_address(&mut out, &attestation.recipient);
    append_address(&mut out, &attestation.attester);
    out.push(if attestation.revocable {
        1u8
    } else {
        0u8
    });
    append_u32_be(&mut out, attestation.data.len() as u32);
    append_bytes(&mut out, attestation.data.as_slice());
    assert(out@ =~= offchain_preimage(attestation@, *domain));
    out
}

/// The digest an off-chain attestation is signed over: SHA-256 of its
/// preimage in `domain`.
pub fn hash_offchain_attestation(attestation: &Attestation, domain: &AttestationDomain) -> (res: [u8;
    32])
    requires
        attestation.data@.len() <= MAX_OFFCHAIN_DATA,
    ensures
        res@ == offchain_digest(attestation@, *domain),
{
    let preimage = offchain_attestation_preimage(attestation, domain);
    proof {
        assert(address_bytes(domain.contract).len() == 33);
        assert(address_bytes(attestation@.recipient).len() == 33);
        assert(address_bytes(attestation@.attester).len() == 33);
    }
    sha256(preimage.as_slice())
}

} // verus!
