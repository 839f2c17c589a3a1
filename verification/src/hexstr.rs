//! Hexadecimal code ids. A verifier code id arrives in configuration as a
//! hexadecimal string and is carried in the envelopes as raw bytes.

use vstd::prelude::*;

verus! {

/// Is `c` one of `0-9`, `a-f`, `A-F`?
pub open spec fn is_hex_digit(c: char) -> bool {
    (48 <= c as u32 && c as u32 <= 57) || (97 <= c as u32 && c as u32 <= 102) || (65 <= c as u32
        && c as u32 <= 70)
}

/// The value of one hexadecimal digit.
pub open spec fn hex_digit_val(c: char) -> u8
    recommends
        is_hex_digit(c),
{
    if 48 <= c as u32 && c as u32 <= 57 {
        (c as u32 - 48) as u8
    } else if 97 <= c as u32 && c as u32 <= 102 {
        (c as u32 - 87) as u8
    } else if 65 <= c as u32 && c as u32 <= 70 {
        (c as u32 - 55) as u8
    } else {
        0
    }
}

/// The bytes a hexadecimal string stands for: one byte per digit pair,
/// high digit first.
pub open spec fn hex_bytes(s: Seq<char>) -> Seq<u8>
    recommends
        s.len() % 2 == 0,
{
    Seq::new(
        s.len() / 2,
        |i: int| (16 * (hex_digit_val(s[2 * i]) as int) + (hex_digit_val(s[2 * i + 1]) as int))
            as u8,
    )
}

/// Is `s` a well-formed hexadecimal string (even length, hex digits only)?
pub open spec fn is_hex_string(s: Seq<char>) -> bool {
    s.len() % 2 == 0 && (forall|i: int| 0 <= i < s.len() ==> is_hex_digit(#[trigger] s[i]))
}

/// Relies on `hex::decode`: a string of hexadecimal digit pairs decodes to
/// one byte per pair, high digit first; a string of odd length or with a
/// non-digit character is rejected.
#[verifier::external_body]
pub(crate) fn decode_hex(s: &str) -> (r: Option<Vec<u8>>)
    ensures
        r is Some <==> is_hex_string(s@),
        r is Some ==> r->0@ == hex_bytes(s@),
{
    hex::decode(s).ok()
}

} // verus!
