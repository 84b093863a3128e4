//! Ed25519 keys and signatures for delegated and off-chain attestations.
//!
//! Message construction (which bytes get signed) is the caller's
//! responsibility; this module only derives public keys, signs and
//! verifies.
use vstd::prelude::*;
use ed25519_dalek::Signer;

verus! {

/// The ed25519 public key that belongs to the 32-byte secret seed `seed`.
pub uninterp spec fn ed25519_public_key(seed: Seq<u8>) -> Seq<u8>;

/// The ed25519 signature of `message` under the secret seed `seed`.
pub uninterp spec fn ed25519_signature(seed: Seq<u8>, message: Seq<u8>) -> Seq<u8>;

/// Whether strict ed25519 verification accepts `signature` on `message`
/// under `public_key`.
pub uninterp spec fn ed25519_accepts(public_key: Seq<u8>, message: Seq<u8>, signature: Seq<u8>) -> bool;

/// Derives the 32-byte ed25519 public key for `secret_seed`.
///
/// Calls `ed25519_dalek::SigningKey::from_bytes` and `verifying_key`; the
/// key is named `ed25519_public_key` and not written out.
#[verifier::external_body]
pub fn derive_public_key(secret_seed: &[u8; 32]) -> (res: [u8; 32])
    ensures
        res@ == ed25519_public_key(secret_seed@),
{
    ed25519_dalek::SigningKey::from_bytes(secret_seed).verifying_key().to_bytes()
}

/// Signs `message` with the ed25519 key derived from `secret_seed`.
///
/// Calls `ed25519_dalek::SigningKey::sign`; the signature is named
/// `ed25519_signature`. Ed25519 signing is deterministic (RFC 8032), and a
/// signature it produces is accepted by strict verification under the
/// matching public key; that is the one fact stated of the result beyond
/// its name.
#[verifier::external_body]
pub fn generate_delegated_signature(secret_seed: &[u8; 32], message: &[u8]) -> (res: [u8; 64])
    ensures
        res@ == ed25519_signature(secret_seed@, message@),
        ed25519_accepts(ed25519_public_key(secret_seed@), message@, res@),
{
    ed25519_dalek::SigningKey::from_bytes(secret_seed).sign(message).to_bytes()
}

/// Strictly verifies `signature` on `message` under `public_key`.
///
/// Calls `ed25519_dalek::VerifyingKey::from_bytes` and `verify_strict`, as
/// the Soroban host does; a key that does not decode is rejected. The
/// outcome is named `ed25519_accepts` and not written out.
#[verifier::external_body]
pub(crate) fn ed25519_verify(public_key: &[u8; 32], message: &[u8], signature: &[u8; 64]) -> (res: bool)
    ensures
        res == ed25519_accepts(public_key@, message@, signature@),
{
    match ed25519_dalek::VerifyingKey::from_bytes(public_key) {
        Ok(key) => key.verify_strict(message, &ed25519_dalek::Signature::from_bytes(signature)).is_ok(),
        Err(_) => false,
    }
}

} // verus!
