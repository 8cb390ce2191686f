//! Hexadecimal text encoding of byte strings.
//!
//! Raw address bytes are not guaranteed to be valid text, so every address
//! that reaches a filename or a wire response goes through this canonical
//! encoding first.

use vstd::prelude::*;

verus! {

/// The ASCII code of the hexadecimal digit for a value below sixteen,
/// using lower-case letters.
pub open spec fn hex_digit(n: u8) -> u8
    recommends
        n < 16,
{
    if n < 10 {
        (0x30 + n) as u8
    } else {
        (0x57 + n) as u8
    }
}

/// The hexadecimal expansion of a byte string as ASCII codes: two digits per
/// byte, high nibble first.
pub open spec fn hex_bytes_of(s: Seq<u8>) -> Seq<u8> {
    Seq::new(
        s.len() * 2,
        |i: int|
            if i % 2 == 0 {
                hex_digit(s[i / 2] / 16)
            } else {
                hex_digit(s[i / 2] % 16)
            },
    )
}

/// The hexadecimal expansion of a byte string as characters.
pub open spec fn hex_chars_of(s: Seq<u8>) -> Seq<char> {
    hex_bytes_of(s).map_values(|b: u8| b as char)
}

/// Every ASCII code produced by the expansion is a printable digit or
/// lower-case letter, so in particular below 128.
proof fn lemma_hex_bytes_ascii(s: Seq<u8>)
    ensures
        forall|i: int| 0 <= i < hex_bytes_of(s).len() ==> #[trigger] hex_bytes_of(s)[i] < 128,
{
}

fn hex_digit_byte(n: u8) -> (r: u8)
    requires
        n < 16,
    ensures
        r == hex_digit(n),
{
    if n < 10 {
        0x30 + n
    } else {
        0x57 + n
    }
}

/// Relies on `String::from_utf8`: bytes below 128 are ASCII, hence valid
/// UTF-8, and decode to the characters with the same code points.
#[verifier::external_body]
fn ascii_string(v: Vec<u8>) -> (s: String)
    requires
        forall|i: int| 0 <= i < v@.len() ==> v@[i] < 128,
    ensures
        s@ == v@.map_values(|b: u8| b as char),
{
    String::from_utf8(v).unwrap_or_default()
}

/// The canonical textual form of a byte string: its lower-case hexadecimal
/// expansion, two characters per byte.
pub fn hex_encode(bytes: &[u8]) -> (s: String)
    ensures
        s@ == hex_chars_of(bytes@),
        s@.len() == 2 * bytes@.len(),
{
    let mut out: Vec<u8> = Vec::new();
    let mut i: usize = 0;
    while i < bytes.len()
        invariant
            i <= bytes@.len(),
            out@ == hex_bytes_of(bytes@.take(i as int)),
        decreases bytes@.len() - i,
    {
        let b = bytes[i];
        out.push(hex_digit_byte(b / 16));
        out.push(hex_digit_byte(b % 16));
        i = i + 1;
        proof {
            assert(out@ =~= hex_bytes_of(bytes@.take(i as int)));
        }
    }
    proof {
        assert(bytes@.take(bytes@.len() as int) =~= bytes@);
        lemma_hex_bytes_ascii(bytes@);
    }
    ascii_string(out)
}

} // verus!
