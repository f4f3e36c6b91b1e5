//! Strict hexadecimal decoding of instruction words, through the
//! hex-conservative byte-iterator collaborator: two digits per byte, no
//! prefixes, failing on odd length or any non-hex character.
use vstd::prelude::*;

verus! {

/// Whether `c` is a hexadecimal digit (`0-9`, `a-f` or `A-F`).
pub open spec fn is_hex_digit(c: char) -> bool {
    (48 <= c as u32 && c as u32 <= 57) || (97 <= c as u32 && c as u32 <= 102) || (65 <= c as u32
        && c as u32 <= 70)
}

/// The value of a hexadecimal digit.
pub open spec fn hex_val(c: char) -> int {
    if 48 <= c as u32 && c as u32 <= 57 {
        c as u32 - 48
    } else if 97 <= c as u32 && c as u32 <= 102 {
        c as u32 - 97 + 10
    } else {
        c as u32 - 65 + 10
    }
}

/// What strict hex decoding yields: the bytes of the digit pairs when the
/// text has even length and holds hex digits only, and nothing otherwise.
pub open spec fn spec_hex_decode(s: Seq<char>) -> Option<Seq<u8>> {
    if s.len() % 2 == 0 && (forall|i: int| 0 <= i < s.len() ==> is_hex_digit(s[i])) {
        Some(
            Seq::new(
                (s.len() / 2) as nat,
                |i: int| (hex_val(s[2 * i]) * 16 + hex_val(s[2 * i + 1])) as u8,
            ),
        )
    } else {
        None
    }
}

/// Relies on hex_conservative::decode_to_vec: strict hex decoding of a
/// string, two digits (`0-9`, `a-f`, `A-F`) per byte, most significant digit
/// first, failing exactly on odd length or any other character.
#[verifier::external_body]
pub fn hex_decode_chars(w: &Vec<char>) -> (r: Option<Vec<u8>>)
    ensures
        r is Some <==> spec_hex_decode(w@) is Some,
        r is Some ==> r.unwrap()@ == spec_hex_decode(w@).unwrap(),
{
    let s: String = w.iter().collect();
    match hex_conservative::decode_to_vec(&s) {
        Ok(v) => Some(v),
        Err(_) => None,
    }
}

} // verus!
