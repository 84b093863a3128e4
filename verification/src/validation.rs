//! Input validation shared by the contracts.
use vstd::prelude::*;
use crate::errors::SASError;

verus! {

/// The longest schema definition, in bytes, that the registry accepts.
pub const MAX_SCHEMA_LENGTH: usize = 1024;

/// Bytes that can be part of a letter of a field or type name: an ASCII
/// letter, `_`, or any byte of the UTF-8 encoding of a non-ASCII character
/// (every such byte is at least `0x80`).
pub open spec fn is_name_byte(b: u8) -> bool {
    (65u8 <= b <= 90u8) || (97u8 <= b <= 122u8) || b == 95u8 || b >= 128u8
}

/// A schema definition the registry accepts: between 1 and
/// `MAX_SCHEMA_LENGTH` bytes, naming at least one field or type, so that it
/// holds at least one letter, in any script, or `_`. For example
/// `bool like_soroban` or `Bytes[32] document_id`; blank text, ASCII digits
/// alone or ASCII punctuation alone are refused.
pub open spec fn schema_well_formed(s: Seq<u8>) -> bool {
    &&& 1 <= s.len() <= MAX_SCHEMA_LENGTH
    &&& exists|i: int| 0 <= i < s.len() && is_name_byte(#[trigger] s[i])
}

fn byte_is_name(b: u8) -> (res: bool)
    ensures
        res == is_name_byte(b),
{
    (65u8 <= b && b <= 90u8) || (97u8 <= b && b <= 122u8) || b == 95u8 || b >= 128u8
}

/// Checks that `schema` is a well-formed schema definition.
pub fn validate_schema_syntax(schema: &[u8]) -> (res: Result<(), SASError>)
    ensures
        res is Ok <==> schema_well_formed(schema@),
        res is Err ==> res == Err::<(), SASError>(SASError::InvalidSchema),
{
    let n = schema.len();
    if n == 0 || n > MAX_SCHEMA_LENGTH {
        return Err(SASError::InvalidSchema);
    }
    let mut i: usize = 0;
    while i < n
        invariant
            n == schema@.len(),
            1 <= n <= MAX_SCHEMA_LENGTH,
            0 <= i <= n,
            forall|j: int| 0 <= j < i ==> !is_name_byte(#[trigger] schema@[j]),
        decreases n - i,
    {
        if byte_is_name(schema[i]) {
            assert(is_name_byte(schema@[i as int]));
            return Ok(());
        }
        i = i + 1;
    }
    Err(SASError::InvalidSchema)
}

/// An expiration time that has already passed at `current_time`; 0 means
/// "never expires".
pub open spec fn expired_at(current_time: u64, expiration_time: u64) -> bool {
    expiration_time > 0 && current_time >= expiration_time
}

/// Rejects an expiration time that is not in the future.
pub fn validate_ttl(current_time: u64, expiration_time: u64) -> (res: Result<(), SASError>)
    ensures
        res is Ok <==> !expired_at(current_time, expiration_time),
        res is Err ==> res == Err::<(), SASError>(SASError::InvalidTTL),
{
    if expiration_time > 0 && current_time >= expiration_time {
        return Err(SASError::InvalidTTL);
    }
    Ok(())
}

} // verus!
