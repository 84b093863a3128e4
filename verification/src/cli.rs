//! Parsing of command-line arguments.
use vstd::prelude::*;
use vstd::string::StringSliceAdditionalSpecFns;
use crate::text::starts_with;

verus! {

/// `s` with every leading `0x` removed.
pub open spec fn strip_hex_prefix(s: Seq<u8>) -> Seq<u8>
    decreases s.len(),
{
    if s.len() >= 2 && s[0] == 48u8 && s[1] == 120u8 {
        strip_hex_prefix(s.subrange(2, s.len() as int))
    } else {
        s
    }
}

/// The value of hexadecimal digit `b` (either case), if it is one.
pub open spec fn hex_digit_value(b: u8) -> Option<int> {
    if 48u8 <= b <= 57u8 {
        Some(b - 48)
    } else if 97u8 <= b <= 102u8 {
        Some(b - 87)
    } else if 65u8 <= b <= 70u8 {
        Some(b - 55)
    } else {
        None
    }
}

/// The bytes that the hexadecimal text `s` denotes: two digits per byte,
/// most significant first; `None` when the length is odd or a character is
/// not a hexadecimal digit.
pub open spec fn hex_decoded(s: Seq<u8>) -> Option<Seq<u8>> {
    if s.len() % 2 == 0 && forall|i: int| 0 <= i < s.len() ==> #[trigger] hex_digit_value(s[i]) is Some {
        Some(
            Seq::new(
                (s.len() / 2) as nat,
                |i: int|
                    (16 * hex_digit_value(s[2 * i]).unwrap() + hex_digit_value(
                        s[2 * i + 1],
                    ).unwrap()) as u8,
            ),
        )
    } else {
        None
    }
}

/// Decodes hexadecimal text with `hex::decode`. On failure the error's
/// display text is returned; that text is not stated.
#[verifier::external_body]
pub(crate) fn hex_decode(data: &[u8]) -> (res: Result<Vec<u8>, String>)
    ensures
        res matches Ok(v) ==> hex_decoded(data@) == Some(v@),
        res is Err ==> hex_decoded(data@) is None,
{
    match hex::decode(data) {
        Ok(v) => Ok(v),
        Err(e) => Err(format!("{e}")),
    }
}

/// What `parse_uid` accepts: hexadecimal text, after any leading `0x`,
/// that denotes exactly 32 bytes.
pub open spec fn uid_text(value: Seq<u8>) -> Option<Seq<u8>> {
    match hex_decoded(strip_hex_prefix(value)) {
        Some(b) => if b.len() == 32 {
            Some(b)
        } else {
            None
        },
        None => None,
    }
}

/// Parses a 32-byte UID written in hexadecimal, optionally prefixed with
/// `0x`. Errors: `invalid hex in uid: ...` when the text is not
/// hexadecimal, `uid must be exactly 32 bytes` when it denotes another
/// number of bytes.
pub fn parse_uid(value: &str) -> (res: Result<[u8; 32], String>)
    ensures
        res matches Ok(u) ==> uid_text(value.spec_bytes()) == Some(u@),
        res is Err ==> uid_text(value.spec_bytes()) is None,
        res matches Err(m) ==> (hex_decoded(strip_hex_prefix(value.spec_bytes())) is Some ==> m@
            == "uid must be exactly 32 bytes"@),
        res matches Err(m) ==> (hex_decoded(strip_hex_prefix(value.spec_bytes())) is None
            ==> starts_with(m@, "invalid hex in uid: "@)),
{
    let bytes = value.as_bytes();
    let mut start: usize = 0;
    assert(bytes@.subrange(0, bytes@.len() as int) =~= bytes@);
    while bytes.len() - start >= 2 && bytes[start] == 48u8 && bytes[start + 1] == 120u8
        invariant
            0 <= start <= bytes@.len(),
            strip_hex_prefix(bytes@) == strip_hex_prefix(bytes@.subrange(start as int, bytes@.len() as int)),
        decreases bytes@.len() - start,
    {
        assert(bytes@.subrange(start as int, bytes@.len() as int).subrange(2, bytes@.len() - start)
            =~= bytes@.subrange(start + 2, bytes@.len() as int));
        start = start + 2;
    }
    let mut rest: Vec<u8> = Vec::new();
    let mut i = start;
    while i < bytes.len()
        invariant
            start <= i <= bytes@.len(),
            rest@ =~= bytes@.subrange(start as int, i as int),
        decreases bytes@.len() - i,
    {
        rest.push(bytes[i]);
        i = i + 1;
    }
    assert(rest@ == strip_hex_prefix(bytes@));
    let decoded = match hex_decode(rest.as_slice()) {
        Ok(d) => d,
        Err(e) => {
            let mut msg = String::from_str("invalid hex in uid: ");
            msg.append(e.as_str());
            assert(msg@.subrange(0, "invalid hex in uid: "@.len() as int) =~= "invalid hex in uid: "@);
            return Err(msg);
        },
    };
    if decoded.len() != 32 {
        return Err(String::from_str("uid must be exactly 32 bytes"));
    }
    let mut out = [0u8; 32];
    let mut j: usize = 0;
    while j < 32
        invariant
            0 <= j <= 32,
            decoded@.len() == 32,
            out@.len() == 32,
            forall|k: int| 0 <= k < j ==> out@[k] == decoded@[k],
        decreases 32 - j,
    {
        out[j] = decoded[j];
        j = j + 1;
    }
    assert(out@ =~= decoded@);
    Ok(out)
}

} // verus!
