//! Off-chain attestations as the command-line tool handles them: reading
//! an attestation written with hexadecimal identifiers and strkey
//! addresses, hashing it for a domain, signing it with an ed25519 seed, and
//! verifying a signed attestation.
use vstd::prelude::*;
use vstd::string::StringSliceAdditionalSpecFns;
use vstd::utf8::encode_utf8;
use crate::cli::{hex_decode, hex_decoded, hex_digit_value, parse_uid, uid_text};
use crate::client::network_id;
use crate::crypto::{sha256_digest, MAX_HOST_INPUT};
use crate::offchain::{hash_offchain_attestation, offchain_digest, AttestationDomain, MAX_OFFCHAIN_DATA};
use crate::signature::{
    derive_public_key, ed25519_accepts, ed25519_public_key, ed25519_signature, ed25519_verify,
    generate_delegated_signature,
};
use crate::simulate::{contract_strkey_payload, decode_contract_id};
use crate::types::{Address, Attestation, AttestationView, UID};

verus! {

/// The 32-byte payload of the account strkey (`G...`) `text`, or `None`
/// when `text` is not a valid ed25519 public key strkey.
pub uninterp spec fn account_strkey_payload(text: Seq<char>) -> Option<Seq<u8>>;

/// The 32-byte seed of the secret key strkey (`S...`) `text`, or `None`
/// when `text` is not a valid ed25519 secret key strkey.
pub uninterp spec fn secret_strkey_payload(text: Seq<char>) -> Option<Seq<u8>>;

/// Decodes an account strkey with `stellar_strkey::ed25519::PublicKey::from_string`.
/// On failure the decoder error's debug text is returned; that text is not
/// stated.
#[verifier::external_body]
fn decode_account_strkey(text: &str) -> (res: Result<[u8; 32], String>)
    ensures
        res matches Ok(k) ==> account_strkey_payload(text@) == Some(k@),
        res is Err ==> account_strkey_payload(text@) is None,
{
    match stellar_strkey::ed25519::PublicKey::from_string(text) {
        Ok(k) => Ok(k.0),
        Err(e) => Err(format!("{e:?}")),
    }
}

/// The account strkey (`G...`) that encodes the ed25519 public key `key`.
pub uninterp spec fn account_strkey_text(key: Seq<u8>) -> Seq<char>;

/// Encodes the ed25519 public key `key` as an account strkey, with the
/// `Display` form of `stellar_strkey::ed25519::PublicKey`.
#[verifier::external_body]
fn encode_account_strkey(key: [u8; 32]) -> (res: String)
    ensures
        res@ == account_strkey_text(key@),
{
    format!("{}", stellar_strkey::ed25519::PublicKey(key))
}

/// Decodes a secret key strkey with
/// `stellar_strkey::ed25519::PrivateKey::from_string`.
#[verifier::external_body]
fn decode_secret_strkey(text: &str) -> (res: Option<[u8; 32]>)
    ensures
        res matches Some(k) ==> secret_strkey_payload(text@) == Some(k@),
        res is None ==> secret_strkey_payload(text@) is None,
{
    match stellar_strkey::ed25519::PrivateKey::from_string(text) {
        Ok(k) => Some(k.0),
        Err(_) => None,
    }
}

/// The lowercase hexadecimal digit for `n` (0 to 15).
pub open spec fn hex_char(n: int) -> char {
    if n < 10 {
        (48 + n) as char
    } else {
        (87 + n) as char
    }
}

/// `bytes` in lowercase hexadecimal, two digits per byte, most significant
/// first.
pub open spec fn hex_text(bytes: Seq<u8>) -> Seq<char> {
    Seq::new(
        2 * bytes.len(),
        |i: int|
            if i % 2 == 0 {
                hex_char(bytes[i / 2] as int / 16)
            } else {
                hex_char(bytes[i / 2] as int % 16)
            },
    )
}

/// Hexadecimal text reads back as the bytes it was written from.
pub proof fn lemma_hex_text_decodes(b: Seq<u8>)
    ensures
        hex_decoded(encode_utf8(hex_text(b))) == Some(b),
{
    let t = hex_text(b);
    assert forall|i: int| 0 <= i < t.len() implies '\0' <= #[trigger] t[i] <= '\u{7f}'
        && (t[i] as u8) as int == (if i % 2 == 0 {
            hex_char(b[i / 2] as int / 16)
        } else {
            hex_char(b[i / 2] as int % 16)
        }) as int by {}
    assert(vstd::utf8::is_ascii_chars(t));
    vstd::utf8::is_ascii_chars_encode_utf8(t);
    let e = encode_utf8(t);
    assert forall|i: int| 0 <= i < e.len() implies #[trigger] hex_digit_value(e[i]) == Some(
        if i % 2 == 0 {
            b[i / 2] as int / 16
        } else {
            b[i / 2] as int % 16
        },
    ) by {
        assert(e[i] == t[i] as u8);
    }
    assert(e.len() % 2 == 0);
    let d = hex_decoded(e).unwrap();
    assert forall|i: int| 0 <= i < b.len() implies d[i] == b[i] by {
        assert(hex_digit_value(e[2 * i]) == Some(b[i] as int / 16));
        assert(hex_digit_value(e[2 * i + 1]) == Some(b[i] as int % 16));
    }
    assert(d =~= b);
}

/// Encodes `data` in lowercase hexadecimal with `hex::encode`.
#[verifier::external_body]
fn hex_encode(data: &[u8]) -> (res: String)
    ensures
        res@ == hex_text(data@),
{
    hex::encode(data)
}

/// An attestation as the command-line tool reads it: identifiers and data
/// in hexadecimal, recipient and attester as strkeys (`G...` or `C...`).
#[derive(Debug)]
pub struct AttestationInput {
    pub uid: String,
    pub schema_uid: String,
    pub time: u64,
    pub expiration_time: u64,
    pub ref_uid: String,
    pub recipient: String,
    pub attester: String,
    pub revocable: bool,
    pub data: String,
}

/// An attestation signed off-chain, with everything needed to verify it:
/// the domain it is bound to, the signer's public key and the signature,
/// both in hexadecimal.
#[derive(Debug)]
pub struct SignedOffchainAttestation {
    pub attestation: AttestationInput,
    pub nonce: u64,
    pub network_passphrase: String,
    pub contract_id: String,
    pub public_key: String,
    pub signature: String,
}

/// `text` is the strkey of address `a`: an account strkey for an account,
/// a contract strkey (and no account strkey) for a contract.
pub open spec fn denotes_address(text: Seq<char>, a: Address) -> bool {
    match a {
        Address::Account(k) => account_strkey_payload(text) == Some(k@),
        Address::Contract(k) => account_strkey_payload(text) is None && contract_strkey_payload(
            text,
        ) == Some(k@),
    }
}

/// `text` is an account or a contract strkey.
pub open spec fn is_address_text(text: Seq<char>) -> bool {
    account_strkey_payload(text) is Some || contract_strkey_payload(text) is Some
}

/// Every field of `input` is readable.
pub open spec fn is_attestation_input(input: AttestationInput) -> bool {
    &&& uid_text(encode_utf8(input.uid@)) is Some
    &&& uid_text(encode_utf8(input.schema_uid@)) is Some
    &&& uid_text(encode_utf8(input.ref_uid@)) is Some
    &&& is_address_text(input.recipient@)
    &&& is_address_text(input.attester@)
    &&& hex_decoded(encode_utf8(input.data@)) is Some
}

/// `input` describes the attestation `a`, which has not been revoked.
pub open spec fn denotes_attestation(input: AttestationInput, a: AttestationView) -> bool {
    &&& uid_text(encode_utf8(input.uid@)) == Some(a.uid.0@)
    &&& uid_text(encode_utf8(input.schema_uid@)) == Some(a.schema_uid.0@)
    &&& a.time == input.time
    &&& a.expiration_time == input.expiration_time
    &&& a.revocation_time == 0
    &&& uid_text(encode_utf8(input.ref_uid@)) == Some(a.ref_uid.0@)
    &&& denotes_address(input.recipient@, a.recipient)
    &&& denotes_address(input.attester@, a.attester)
    &&& a.revocable == input.revocable
    &&& hex_decoded(encode_utf8(input.data@)) == Some(a.data)
}

/// `d` is the domain of network `network_passphrase`, the contract whose
/// strkey is `contract_id`, and `nonce`.
pub open spec fn denotes_domain(
    d: AttestationDomain,
    network_passphrase: Seq<char>,
    contract_id: Seq<char>,
    nonce: u64,
) -> bool {
    &&& d.network_id@ == sha256_digest(encode_utf8(network_passphrase))
    &&& d.contract matches Address::Contract(k) && contract_strkey_payload(contract_id) == Some(k@)
    &&& d.nonce == nonce
}

/// `h` is the digest to sign for `input` in the domain of
/// `network_passphrase`, `contract_id` and `nonce`.
pub open spec fn is_payload_hash(
    h: Seq<u8>,
    input: AttestationInput,
    nonce: u64,
    network_passphrase: Seq<char>,
    contract_id: Seq<char>,
) -> bool {
    exists|a: AttestationView, d: AttestationDomain|
        #![trigger offchain_digest(a, d)]
        denotes_attestation(input, a) && denotes_domain(d, network_passphrase, contract_id, nonce)
            && h == offchain_digest(a, d)
}

/// The seed that `text` denotes: 32 bytes in hexadecimal, or else a secret
/// key strkey.
pub open spec fn secret_seed_of(text: Seq<char>) -> Option<Seq<u8>> {
    match uid_text(encode_utf8(text)) {
        Some(b) => Some(b),
        None => secret_strkey_payload(text),
    }
}

/// Reads a signing seed given as 32 bytes of hexadecimal (optionally
/// prefixed with `0x`) or as a secret key strkey (`S...`).
pub fn parse_secret_seed(text: &str) -> (res: Result<[u8; 32], String>)
    ensures
        res matches Ok(seed) ==> secret_seed_of(text@) == Some(seed@),
        res is Err ==> secret_seed_of(text@) is None,
{
    match parse_uid(text) {
        Ok(seed) => {
            return Ok(seed);
        },
        Err(_) => {},
    }
    match decode_secret_strkey(text) {
        Some(seed) => Ok(seed),
        None => Err(
            String::from_str("invalid secret key: expected an S... strkey or 32 bytes of hex"),
        ),
    }
}

/// Reads an address written as an account (`G...`) or a contract (`C...`)
/// strkey.
pub fn parse_address(text: &str) -> (res: Result<Address, String>)
    ensures
        res is Ok <==> is_address_text(text@),
        res matches Ok(a) ==> denotes_address(text@, a),
{
    match decode_account_strkey(text) {
        Ok(k) => {
            return Ok(Address::Account(k));
        },
        Err(_) => {},
    }
    match decode_contract_id(text) {
        Ok(k) => Ok(Address::Contract(k)),
        Err(_) => {
            let mut msg = String::from_str("invalid address: ");
            msg.append(text);
            Err(msg)
        },
    }
}

/// `prefix`, `": "`, then `detail`.
fn field_error(prefix: &str, detail: String) -> (res: String)
    ensures
        res@ == prefix@ + ": "@ + detail@,
{
    let mut msg = String::from_str(prefix);
    msg.append(": ");
    msg.append(detail.as_str());
    msg
}

/// Reads the attestation that `input` describes; its revocation time is 0.
/// Fails, naming the field, when a field is not readable.
pub fn parse_attestation(input: &AttestationInput) -> (res: Result<Attestation, String>)
    ensures
        res is Ok <==> is_attestation_input(*input),
        res matches Ok(a) ==> denotes_attestation(*input, a@),
{
    let uid = match parse_uid(input.uid.as_str()) {
        Ok(u) => u,
        Err(e) => {
            return Err(field_error("uid", e));
        },
    };
    let schema_uid = match parse_uid(input.schema_uid.as_str()) {
        Ok(u) => u,
        Err(e) => {
            return Err(field_error("schema_uid", e));
        },
    };
    let ref_uid = match parse_uid(input.ref_uid.as_str()) {
        Ok(u) => u,
        Err(e) => {
            return Err(field_error("ref_uid", e));
        },
    };
    let recipient = match parse_address(input.recipient.as_str()) {
        Ok(a) => a,
        Err(e) => {
            return Err(field_error("recipient", e));
        },
    };
    let attester = match parse_address(input.attester.as_str()) {
        Ok(a) => a,
        Err(e) => {
            return Err(field_error("attester", e));
        },
    };
    let data = match hex_decode(input.data.as_str().as_bytes()) {
        Ok(d) => d,
        Err(e) => {
            return Err(field_error("data", e));
        },
    };
    Ok(
        Attestation {
            uid: UID(uid),
            schema_uid: UID(schema_uid),
            time: input.time,
            expiration_time: input.expiration_time,
            revocation_time: 0,
            ref_uid: UID(ref_uid),
            recipient,
            attester,
            revocable: input.revocable,
            data,
        },
    )
}

/// The domain of `network_passphrase`, the contract `contract_id` and
/// `nonce`.
fn parse_domain(nonce: u64, network_passphrase: &str, contract_id: &str) -> (res: Result<
    AttestationDomain,
    String,
>)
    requires
        network_passphrase.spec_bytes().len() <= MAX_HOST_INPUT,
    ensures
        res is Ok <==> contract_strkey_payload(contract_id@) is Some,
        res matches Ok(d) ==> denotes_domain(d, network_passphrase@, contract_id@, nonce),
{
    let contract = match decode_contract_id(contract_id) {
        Ok(k) => k,
        Err(e) => {
            return Err(field_error("invalid contract id", e));
        },
    };
    Ok(
        AttestationDomain {
            network_id: network_id(network_passphrase),
            contract: Address::Contract(contract),
            nonce,
        },
    )
}

/// The digest to sign for `input` bound to the network
/// `network_passphrase`, the SAS contract `contract_id` and `nonce`. Fails
/// when the attestation or the contract id is not readable, or when the
/// data is too long to hash.
pub fn compute_payload_hash(
    input: &AttestationInput,
    nonce: u64,
    network_passphrase: &str,
    contract_id: &str,
) -> (res: Result<[u8; 32], String>)
    requires
        network_passphrase.spec_bytes().len() <= MAX_HOST_INPUT,
    ensures
        res is Ok <==> is_attestation_input(*input) && contract_strkey_payload(contract_id@) is Some
            && data_fits(*input),
        res matches Ok(h) ==> is_payload_hash(h@, *input, nonce, network_passphrase@, contract_id@),
{
    let attestation = parse_attestation(input)?;
    let domain = parse_domain(nonce, network_passphrase, contract_id)?;
    if attestation.data.len() > MAX_OFFCHAIN_DATA {
        return Err(String::from_str("data: too long to hash"));
    }
    let h = hash_offchain_attestation(&attestation, &domain);
    assert(denotes_attestation(*input, attestation@));
    assert(h@ == offchain_digest(attestation@, domain));
    Ok(h)
}

/// `input` is attested by the account whose public key is `public_key`.
pub open spec fn attested_by_key(input: AttestationInput, public_key: Seq<u8>) -> bool {
    account_strkey_payload(input.attester@) == Some(public_key)
}

/// Checks that the attester of `input` is the account of the key derived
/// from `secret_seed`, as an on-chain attestation signed with that seed
/// requires. Otherwise the error names the attester and that account.
pub fn check_attester(input: &AttestationInput, secret_seed: &[u8; 32]) -> (res: Result<(), String>)
    ensures
        res is Ok <==> attested_by_key(*input, ed25519_public_key(secret_seed@)),
        res matches Err(m) ==> m@ == "attester "@ + input.attester@
            + " does not match signing key account "@ + account_strkey_text(
            ed25519_public_key(secret_seed@),
        ),
{
    let public_key = derive_public_key(secret_seed);
    let bound = match decode_account_strkey(input.attester.as_str()) {
        Ok(k) => {
            proof {
                crate::types::lemma_bytes32_view_injective(k, public_key);
            }
            crate::types::bytes32_eq(&k, &public_key)
        },
        Err(_) => false,
    };
    if !bound {
        let expected = encode_account_strkey(public_key);
        let mut msg = String::from_str("attester ");
        msg.append(input.attester.as_str());
        msg.append(" does not match signing key account ");
        msg.append(expected.as_str());
        return Err(msg);
    }
    Ok(())
}

/// Signs `input` off-chain with the ed25519 key derived from `secret_seed`,
/// bound to the network `network_passphrase`, the SAS contract
/// `contract_id` and `nonce`. The attester must be the account of that
/// key; otherwise signing is refused.
pub fn sign_offchain_attestation(
    input: AttestationInput,
    nonce: u64,
    network_passphrase: &str,
    contract_id: &str,
    secret_seed: &[u8; 32],
) -> (res: Result<SignedOffchainAttestation, String>)
    requires
        network_passphrase.spec_bytes().len() <= MAX_HOST_INPUT,
    ensures
        res is Ok <==> is_attestation_input(input) && contract_strkey_payload(contract_id@) is Some
            && data_fits(input) && attested_by_key(input, ed25519_public_key(secret_seed@)),
        res matches Ok(s) ==> {
            &&& s.attestation == input
            &&& s.nonce == nonce
            &&& s.network_passphrase@ == network_passphrase@
            &&& s.contract_id@ == contract_id@
            &&& s.public_key@ == hex_text(ed25519_public_key(secret_seed@))
            &&& exists|h: Seq<u8>|
                is_payload_hash(h, input, nonce, network_passphrase@, contract_id@) && s.signature@
                    == hex_text(ed25519_signature(secret_seed@, h))
        },
        res matches Ok(s) ==> offchain_signature_valid(s) && data_fits(s.attestation),
{
    let public_key = derive_public_key(secret_seed);
    let bound = match decode_account_strkey(input.attester.as_str()) {
        Ok(k) => {
            proof {
                crate::types::lemma_bytes32_view_injective(k, public_key);
            }
            crate::types::bytes32_eq(&k, &public_key)
        },
        Err(_) => false,
    };
    if !bound {
        return Err(String::from_str("attester does not match the signing key's account"));
    }
    let h = compute_payload_hash(&input, nonce, network_passphrase, contract_id)?;
    let signature = generate_delegated_signature(secret_seed, &h);
    let signed = SignedOffchainAttestation {
        attestation: input,
        nonce,
        network_passphrase: String::from_str(network_passphrase),
        contract_id: String::from_str(contract_id),
        public_key: hex_encode(&public_key),
        signature: hex_encode(&signature),
    };
    proof {
        lemma_hex_text_decodes(public_key@);
        lemma_hex_text_decodes(signature@);
        assert(key_and_signature(signed) == Some((public_key@, signature@)));
        assert(key_and_signature(signed) matches Some((k, s)) && k == public_key@ && s
            == signature@);
        assert(attested_by_key(signed.attestation, public_key@));
        assert(is_payload_hash(h@, signed.attestation, nonce, network_passphrase@, contract_id@)
            && ed25519_accepts(public_key@, h@, signature@));
        assert(offchain_signature_valid(signed));
    }
    Ok(signed)
}

/// An input describes at most one attestation.
proof fn lemma_denotes_attestation_unique(input: AttestationInput, a: AttestationView, b: AttestationView)
    requires
        denotes_attestation(input, a),
        denotes_attestation(input, b),
    ensures
        a == b,
{
    crate::types::lemma_bytes32_view_injective(a.uid.0, b.uid.0);
    crate::types::lemma_bytes32_view_injective(a.schema_uid.0, b.schema_uid.0);
    crate::types::lemma_bytes32_view_injective(a.ref_uid.0, b.ref_uid.0);
    lemma_denotes_address_unique(input.recipient@, a.recipient, b.recipient);
    lemma_denotes_address_unique(input.attester@, a.attester, b.attester);
}

/// A strkey denotes at most one address.
proof fn lemma_denotes_address_unique(text: Seq<char>, a: Address, b: Address)
    requires
        denotes_address(text, a),
        denotes_address(text, b),
    ensures
        a == b,
{
    match (a, b) {
        (Address::Account(x), Address::Account(y)) => {
            crate::types::lemma_bytes32_view_injective(x, y);
        },
        (Address::Contract(x), Address::Contract(y)) => {
            crate::types::lemma_bytes32_view_injective(x, y);
        },
        _ => {},
    }
}

/// The payload hash of an input in a domain is unique.
proof fn lemma_payload_hash_unique(
    h1: Seq<u8>,
    h2: Seq<u8>,
    input: AttestationInput,
    nonce: u64,
    network_passphrase: Seq<char>,
    contract_id: Seq<char>,
)
    requires
        is_payload_hash(h1, input, nonce, network_passphrase, contract_id),
        is_payload_hash(h2, input, nonce, network_passphrase, contract_id),
    ensures
        h1 == h2,
{
    let (a1, d1) = choose|a: AttestationView, d: AttestationDomain|
        #![trigger offchain_digest(a, d)]
        denotes_attestation(input, a) && denotes_domain(d, network_passphrase, contract_id, nonce)
            && h1 == offchain_digest(a, d);
    let (a2, d2) = choose|a: AttestationView, d: AttestationDomain|
        #![trigger offchain_digest(a, d)]
        denotes_attestation(input, a) && denotes_domain(d, network_passphrase, contract_id, nonce)
            && h2 == offchain_digest(a, d);
    lemma_denotes_attestation_unique(input, a1, a2);
    crate::types::lemma_bytes32_view_injective(d1.network_id, d2.network_id);
    if let (Address::Contract(x), Address::Contract(y)) = (d1.contract, d2.contract) {
        crate::types::lemma_bytes32_view_injective(x, y);
    }
    assert(d1 == d2);
}

/// The data of `input` is short enough to hash.
pub open spec fn data_fits(input: AttestationInput) -> bool {
    hex_decoded(encode_utf8(input.data@)) matches Some(d) && d.len() <= MAX_OFFCHAIN_DATA
}

/// The 32-byte public key and 64-byte signature of `signed`, when both are
/// hexadecimal of the right length.
pub open spec fn key_and_signature(signed: SignedOffchainAttestation) -> Option<(Seq<u8>, Seq<u8>)> {
    match (
        hex_decoded(encode_utf8(signed.public_key@)),
        hex_decoded(encode_utf8(signed.signature@)),
    ) {
        (Some(k), Some(s)) => if k.len() == 32 && s.len() == 64 {
            Some((k, s))
        } else {
            None
        },
        _ => None,
    }
}

/// `signed` verifies: its key and signature are readable, the key is the
/// attester's account key, and the signature is valid over the payload
/// hash of its attestation in its domain.
pub open spec fn offchain_signature_valid(signed: SignedOffchainAttestation) -> bool {
    &&& key_and_signature(signed) matches Some((k, s))
    &&& attested_by_key(signed.attestation, k)
    &&& exists|h: Seq<u8>|
        #![trigger ed25519_accepts(k, h, s)]
        is_payload_hash(
            h,
            signed.attestation,
            signed.nonce,
            signed.network_passphrase@,
            signed.contract_id@,
        ) && ed25519_accepts(k, h, s)
}

/// Reads `text` as exactly 32 bytes of hexadecimal.
fn parse_hex32(text: &str) -> (res: Option<[u8; 32]>)
    ensures
        res matches Some(b) ==> hex_decoded(text.spec_bytes()) == Some(b@),
        res is None ==> !(hex_decoded(text.spec_bytes()) matches Some(v) && v.len() == 32),
{
    let decoded = match hex_decode(text.as_bytes()) {
        Ok(d) => d,
        Err(_) => {
            return None;
        },
    };
    if decoded.len() != 32 {
        return None;
    }
    let mut out = [0u8; 32];
    let mut j: usize = 0;
    while j < 32
        invariant
            0 <= j <= 32,
            decoded@.len() == 32,
            forall|k: int| 0 <= k < j ==> out@[k] == decoded@[k],
        decreases 32 - j,
    {
        out[j] = decoded[j];
        j = j + 1;
    }
    assert(out@ =~= decoded@);
    Some(out)
}

/// Reads `text` as exactly 64 bytes of hexadecimal.
fn parse_hex64(text: &str) -> (res: Option<[u8; 64]>)
    ensures
        res matches Some(b) ==> hex_decoded(text.spec_bytes()) == Some(b@),
        res is None ==> !(hex_decoded(text.spec_bytes()) matches Some(v) && v.len() == 64),
{
    let decoded = match hex_decode(text.as_bytes()) {
        Ok(d) => d,
        Err(_) => {
            return None;
        },
    };
    if decoded.len() != 64 {
        return None;
    }
    let mut out = [0u8; 64];
    let mut j: usize = 0;
    while j < 64
        invariant
            0 <= j <= 64,
            decoded@.len() == 64,
            forall|k: int| 0 <= k < j ==> out@[k] == decoded@[k],
        decreases 64 - j,
    {
        out[j] = decoded[j];
        j = j + 1;
    }
    assert(out@ =~= decoded@);
    Some(out)
}

/// Verifies a signed off-chain attestation: the public key must be the
/// attester's account key and the signature must be valid over the payload
/// hash of the attestation in the domain it names.
pub fn verify_offchain_attestation(signed: &SignedOffchainAttestation) -> (res: Result<(), String>)
    requires
        encode_utf8(signed.network_passphrase@).len() <= MAX_HOST_INPUT,
    ensures
        res is Ok <==> offchain_signature_valid(*signed) && data_fits(signed.attestation),
{
    let public_key = match parse_hex32(signed.public_key.as_str()) {
        Some(k) => k,
        None => {
            return Err(String::from_str("public_key: expected 32 bytes of hex"));
        },
    };
    let signature = match parse_hex64(signed.signature.as_str()) {
        Some(s) => s,
        None => {
            return Err(String::from_str("signature: expected 64 bytes of hex"));
        },
    };
    let bound = match decode_account_strkey(signed.attestation.attester.as_str()) {
        Ok(k) => {
            proof {
                crate::types::lemma_bytes32_view_injective(k, public_key);
            }
            crate::types::bytes32_eq(&k, &public_key)
        },
        Err(_) => false,
    };
    if !bound {
        return Err(String::from_str("public key does not belong to the attester"));
    }
    let h = compute_payload_hash(
        &signed.attestation,
        signed.nonce,
        signed.network_passphrase.as_str(),
        signed.contract_id.as_str(),
    )?;
    if !ed25519_verify(&public_key, &h, &signature) {
        proof {
            if offchain_signature_valid(*signed) {
                let h2 = choose|h2: Seq<u8>|
                    #![trigger ed25519_accepts(public_key@, h2, signature@)]
                    is_payload_hash(
                        h2,
                        signed.attestation,
                        signed.nonce,
                        signed.network_passphrase@,
                        signed.contract_id@,
                    ) && ed25519_accepts(public_key@, h2, signature@);
                lemma_payload_hash_unique(
                    h@,
                    h2,
                    signed.attestation,
                    signed.nonce,
                    signed.network_passphrase@,
                    signed.contract_id@,
                );
            }
        }
        return Err(String::from_str("invalid signature"));
    }
    assert(key_and_signature(*signed) == Some((public_key@, signature@)));
    assert(attested_by_key(signed.attestation, public_key@));
    assert(key_and_signature(*signed) matches Some((k, s)) && k == public_key@ && s == signature@);
    assert(is_payload_hash(
        h@,
        signed.attestation,
        signed.nonce,
        signed.network_passphrase@,
        signed.contract_id@,
    ) && ed25519_accepts(public_key@, h@, signature@));
    Ok(())
}

} // verus!
