//! Lower-case hexadecimal text, as the `hex` crate writes it.

use vstd::prelude::*;

verus! {

/// The lower-case hexadecimal digit of a value below sixteen.
pub open spec fn hex_digit(nibble: int) -> char {
    seq!['0', '1', '2', '3', '4', '5', '6', '7', '8', '9', 'a', 'b', 'c', 'd', 'e', 'f'][nibble]
}

/// Two lower-case digits for each byte, the high half first.
pub open spec fn hex_lower(data: Seq<u8>) -> Seq<char> {
    Seq::new(
        2 * data.len(),
        |i: int| if i % 2 == 0 {
            hex_digit(data[i / 2] as int / 16)
        } else {
            hex_digit(data[i / 2] as int % 16)
        },
    )
}

/// Calls `hex::encode`. Trusted: the text holds two lower-case digits for
/// every byte of `data`, in order, and nothing else.
#[verifier::external_body]
pub(crate) fn hex_encode(data: &[u8]) -> (text: String)
    ensures
        text@ == hex_lower(data@),
{
    hex::encode(data)
}

} // verus!
