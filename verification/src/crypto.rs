//! Hashing and XDR encoding performed by the Soroban host.
use vstd::prelude::*;
use soroban_sdk::xdr::ToXdr;

verus! {

/// Longest input, in bytes, that is hashed or encoded here. Each call runs
/// in a fresh Soroban host, whose default budget of 100M CPU instructions
/// and 40 MB of memory is charged about 55 instructions per hashed byte;
/// beyond that budget the host fails and the call panics, so inputs are
/// kept well below it.
pub const MAX_HOST_INPUT: usize = 1_000_000;

/// The SHA-256 digest of `data`, as computed by the Soroban host.
pub uninterp spec fn sha256_digest(data: Seq<u8>) -> Seq<u8>;

/// The 4-byte big-endian encoding of `n`.
pub open spec fn u32_be(n: u32) -> Seq<u8> {
    seq![
        ((n / 0x100_0000) % 0x100) as u8,
        ((n / 0x1_0000) % 0x100) as u8,
        ((n / 0x100) % 0x100) as u8,
        (n % 0x100) as u8,
    ]
}

/// The zero bytes that pad an XDR opaque value of `len` bytes to a multiple
/// of four.
pub open spec fn xdr_padding(len: nat) -> Seq<u8> {
    Seq::new(((4 - (len % 4)) % 4) as nat, |i: int| 0u8)
}

/// The XDR encoding of the contract value `ScVal::String(s)`: the value
/// type `SCV_STRING` (14) as a 4-byte big-endian integer, the byte length
/// as a 4-byte big-endian integer, the bytes, then zero padding to a
/// multiple of four.
pub open spec fn string_scval_xdr(s: Seq<u8>) -> Seq<u8>
    recommends
        s.len() <= u32::MAX,
{
    u32_be(14) + u32_be(s.len() as u32) + s + xdr_padding(s.len())
}

/// Calls the Soroban host's `Crypto::sha256` on `data`; the result is the
/// SHA-256 digest of `data`, named `sha256_digest` and not written out.
#[verifier::external_body]
pub(crate) fn sha256(data: &[u8]) -> (res: [u8; 32])
    requires
        data@.len() <= MAX_HOST_INPUT,
    ensures
        res@ == sha256_digest(data@),
{
    let env = soroban_sdk::Env::default();
    env.crypto().sha256(&soroban_sdk::Bytes::from_slice(&env, data)).to_array()
}

/// Calls `ToXdr::to_xdr` of `soroban_sdk` on the contract string holding
/// the bytes `s`, and returns the encoded bytes: the XDR encoding of
/// `ScVal::String(s)`.
#[verifier::external_body]
pub(crate) fn string_to_xdr(s: &[u8]) -> (res: Vec<u8>)
    requires
        s@.len() <= MAX_HOST_INPUT,
    ensures
        res@ == string_scval_xdr(s@),
{
    let env = soroban_sdk::Env::default();
    let encoded = soroban_sdk::String::from_bytes(&env, s).to_xdr(&env);
    let mut out = vec![0u8; encoded.len() as usize];
    encoded.copy_into_slice(&mut out);
    out
}

} // verus!
