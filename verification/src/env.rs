//! The invocation context a contract call runs in.
use vstd::prelude::*;
use crate::types::{Address, address_eq};

verus! {

/// What a contract invocation sees of the ledger: the close time and
/// sequence number of the ledger, the network it runs on, the addresses
/// that authorized the invocation, and the hashes of the WASM code
/// uploaded to the ledger.
pub struct Env {
    /// Ledger close time, in seconds.
    pub timestamp: u64,
    /// Sequence number of the ledger. A stored entry is live through the
    /// ledger its time-to-live reaches; after that it is archived.
    pub ledger_sequence: u32,
    /// SHA-256 of the network passphrase.
    pub network_id: [u8; 32],
    /// The addresses whose authorization this invocation carries.
    pub authorized: Vec<Address>,
    /// Hashes of the WASM code uploaded to the ledger, which a contract can
    /// switch to.
    pub uploaded_wasm: Vec<[u8; 32]>,
}

/// WASM code with hash `hash` has been uploaded to the ledger of `env`.
pub open spec fn wasm_uploaded(env: &Env, hash: [u8; 32]) -> bool {
    env.uploaded_wasm@.contains(hash)
}

/// `a` has authorized the invocation running in `env`.
pub open spec fn authorizes(env: &Env, a: Address) -> bool {
    env.authorized@.contains(a)
}

impl Env {
    /// A context at `timestamp` on `network_id`, authorized by `authorized`,
    /// on the first ledger (sequence 0), with no uploaded WASM code.
    pub fn new(timestamp: u64, network_id: [u8; 32], authorized: Vec<Address>) -> (res: Env)
        ensures
            res.timestamp == timestamp,
            res.ledger_sequence == 0,
            res.network_id == network_id,
            res.authorized@ == authorized@,
            res.uploaded_wasm@ == Seq::<[u8; 32]>::empty(),
    {
        Env { timestamp, ledger_sequence: 0, network_id, authorized, uploaded_wasm: Vec::new() }
    }

    /// The same context, on the ledger with sequence number `sequence`.
    pub fn at_ledger(self, sequence: u32) -> (res: Env)
        ensures
            res.timestamp == self.timestamp,
            res.ledger_sequence == sequence,
            res.network_id == self.network_id,
            res.authorized@ == self.authorized@,
            res.uploaded_wasm@ == self.uploaded_wasm@,
    {
        Env { ledger_sequence: sequence, ..self }
    }

    /// The same context, on a ledger where WASM code with hash `hash` has
    /// also been uploaded.
    pub fn with_uploaded_wasm(self, hash: [u8; 32]) -> (res: Env)
        ensures
            res.timestamp == self.timestamp,
            res.ledger_sequence == self.ledger_sequence,
            res.network_id == self.network_id,
            res.authorized@ == self.authorized@,
            res.uploaded_wasm@ == self.uploaded_wasm@.push(hash),
    {
        let mut uploaded_wasm = self.uploaded_wasm;
        uploaded_wasm.push(hash);
        Env {
            timestamp: self.timestamp,
            ledger_sequence: self.ledger_sequence,
            network_id: self.network_id,
            authorized: self.authorized,
            uploaded_wasm,
        }
    }

    /// Checks that `a` has authorized this invocation.
    pub fn require_auth(&self, a: &Address) -> (res: bool)
        ensures
            res == authorizes(self, *a),
    {
        let mut i: usize = 0;
        while i < self.authorized.len()
            invariant
                0 <= i <= self.authorized@.len(),
                forall|j: int| 0 <= j < i ==> self.authorized@[j] != *a,
            decreases self.authorized@.len() - i,
        {
            if address_eq(&self.authorized[i], a) {
                assert(self.authorized@[i as int] == *a);
                return true;
            }
            i = i + 1;
        }
        false
    }
}

} // verus!
