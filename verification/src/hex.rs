//! Lower-case hexadecimal rendering of byte strings.
//!
//! Stored record identifiers are raw bytes; responses carry them as hex
//! text, two digits per byte, most significant nibble first.

use vstd::prelude::*;

verus! {

/// The sixteen lower-case hexadecimal digit characters, in value order.
pub const HEX_DIGITS: [char; 16] = ['0', '1', '2', '3', '4', '5', '6', '7', '8', '9', 'a', 'b', 'c', 'd', 'e', 'f'];

/// The digit character for a nibble value below sixteen.
pub open spec fn hex_digit(n: u8) -> char {
    HEX_DIGITS@[n as int]
}

/// The hex text of a byte string: for each byte, the digit of its high
/// nibble followed by the digit of its low nibble.
pub open spec fn hex_of(bytes: Seq<u8>) -> Seq<char> {
    Seq::new(
        bytes.len() * 2,
        |i: int|
            if i % 2 == 0 {
                hex_digit((bytes[i / 2] / 16) as u8)
            } else {
                hex_digit((bytes[i / 2] % 16) as u8)
            },
    )
}

/// Relies on std's `String::push`: appends the given character to the end
/// of the string.
#[verifier::external_body]
fn push_char(s: &mut String, c: char)
    ensures
        final(s)@ == old(s)@ + seq![c],
{
    s.push(c);
}

/// Renders `bytes` as lower-case hex text, two digits per byte.
pub fn to_hex(bytes: &Vec<u8>) -> (r: String)
    requires
        bytes@.len() * 2 <= usize::MAX,
    ensures
        r@ == hex_of(bytes@),
        r@.len() == bytes@.len() * 2,
{
    let mut out = String::new();
    let mut k: usize = 0;
    while k < bytes.len()
        invariant
            k <= bytes@.len(),
            bytes@.len() * 2 <= usize::MAX,
            out@ =~= hex_of(bytes@).take(k * 2),
        decreases bytes@.len() - k,
    {
        let b = bytes[k];
        let hi = b / 16;
        let lo = b % 16;
        push_char(&mut out, HEX_DIGITS[hi as usize]);
        push_char(&mut out, HEX_DIGITS[lo as usize]);
        proof {
            assert(out@ =~= hex_of(bytes@).take((k + 1) * 2));
        }
        k = k + 1;
    }
    proof {
        assert(hex_of(bytes@).take(bytes@.len() as int * 2) =~= hex_of(bytes@));
    }
    out
}

} // verus!
