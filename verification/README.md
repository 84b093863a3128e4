# soroban_sas

The Soroban Attestation Service as a verified library: the Schema Registry,
SAS and Indexer contracts as state machines over an explicit invocation
context, the off-chain attestation format and its signatures, event
decoding, invoke transactions and their signatures, and the decisions the
SDK client takes around Soroban RPC calls. The functions of `src/` carry
contracts proved by Verus, except the small wrappers marked
`#[verifier::external_body]` around calls into soroban-sdk, ed25519-dalek,
stellar-strkey, hex and the standard library, whose contracts are trusted.

Layout:

- `src/registry.rs`, `src/sas.rs`, `src/indexer.rs`: the three contracts,
  each with a mathematical view of its storage (`RegistryView`, `SasView`,
  `IndexerView`) that the contracts' `ensures` clauses speak of. The
  registry's view also carries the ledger each stored entry lives through:
  every change renews the contract instance, registrations and
  deprecations keep their entries alive for a year, and a read of an
  archived entry is excluded by the readers' `requires`.
- `src/laws.rs`: properties that span several operations (read after write,
  uniqueness, consistency, renewal of the registry's entries, domain
  separation of off-chain signatures).
- `src/offchain.rs`, `src/cli_offchain.rs`, `src/signature.rs`: typed-data
  hashing of off-chain attestations, signing and verification.
- `src/events.rs`, `src/contract_events.rs`: published events and their
  decoding.
- `src/rpc.rs`, `src/simulate.rs`, `src/client.rs`, `src/transaction.rs`:
  JSON-RPC bodies and answers, unsigned and signed invoke transactions,
  sequence numbers, fees and polling decisions.
- `app/`: the `soroban-sas` command-line tool: argument parsing, files,
  HTTP transport and XDR conversions around the library.
- `tests/`: tests of the library on concrete values.
