//! Soroban Attestation Service: schemas, attestations, their contracts and
//! the client-side helpers that talk to them.
pub mod cli;
pub mod cli_offchain;
pub mod client;
pub mod contract_events;
pub mod crypto;
pub mod env;
pub mod errors;
pub mod events;
pub mod indexer;
pub mod laws;
pub mod offchain;
pub mod registry;
pub mod rpc;
pub mod sas;
pub mod schema_builder;
pub mod signature;
pub mod simulate;
pub mod text;
pub mod transaction;
pub mod types;
pub mod validation;

pub use client::init;
