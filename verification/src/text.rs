//! Hexadecimal text for byte strings, as the `hex` crate writes it.

use vstd::prelude::*;

verus! {

/// The lower-case hexadecimal digit for a value below 16.
pub open spec fn hex_digit(nibble: u8) -> char {
    if nibble < 10 {
        (0x30 + nibble) as u8 as char
    } else {
        (0x57 + nibble) as u8 as char
    }
}

/// Two lower-case hexadecimal digits for each byte, the high half first.
pub open spec fn hex_of(bytes: Seq<u8>) -> Seq<char> {
    Seq::new(
        2 * bytes.len(),
        |i: int|
            if i % 2 == 0 {
                hex_digit(bytes[i / 2] / 16)
            } else {
                hex_digit(bytes[i / 2] % 16)
            },
    )
}

/// Calls `hex::encode`. As its documentation says, every byte is written as
/// two lower-case hexadecimal digits; the source shows that the digit for the
/// high four bits comes first.
#[verifier::external_body]
pub(crate) fn hex_encode(bytes: &[u8; 32]) -> (out: String)
    ensures
        out@ == hex_of(bytes@),
{
    hex::encode(bytes)
}

} // verus!
