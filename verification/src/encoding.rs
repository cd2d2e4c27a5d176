//! Text payload encoding for the clipboard: UTF-16 code units with a single
//! trailing null unit, laid out as little-endian byte pairs.

use vstd::prelude::*;

verus! {

/// The UTF-16 encoding of one character: a single code unit for scalar
/// values below 0x10000, and a high/low surrogate pair for the rest.
pub open spec fn utf16_code_units(c: char) -> Seq<u16> {
    if (c as u32) < 0x10000 {
        seq![(c as u32) as u16]
    } else {
        seq![
            (0xD800 + ((c as u32) - 0x10000) / 0x400) as u16,
            (0xDC00 + ((c as u32) - 0x10000) % 0x400) as u16,
        ]
    }
}

/// The UTF-16 encoding of a character sequence.
pub open spec fn utf16_units(s: Seq<char>) -> Seq<u16>
    decreases s.len(),
{
    if s.len() == 0 {
        Seq::empty()
    } else {
        utf16_code_units(s[0]) + utf16_units(s.skip(1))
    }
}

/// Each character contributes one or two code units, so the encoding of a
/// sequence is empty exactly when the sequence is.
pub proof fn lemma_utf16_units_len(s: Seq<char>)
    ensures
        s.len() <= utf16_units(s).len() <= 2 * s.len(),
    decreases s.len(),
{
    if s.len() > 0 {
        lemma_utf16_units_len(s.skip(1));
    }
}

/// Relies on `str::encode_utf16`: it yields exactly the UTF-16 code units of
/// the string's characters, one unit per scalar value below 0x10000 and a
/// surrogate pair for the rest, and depends on the characters alone.
#[verifier::external_body]
pub(crate) fn encode_utf16_units(s: &str) -> (r: Vec<u16>)
    ensures
        r@ == utf16_units(s@),
{
    s.encode_utf16().collect()
}

/// Bytes `2 * i` and `2 * i + 1` hold code unit `i` in little-endian order.
pub open spec fn unit_le_encoded(units: Seq<u16>, bytes: Seq<u8>, i: int) -> bool {
    &&& bytes[2 * i] == (units[i] & 0xff) as u8
    &&& bytes[2 * i + 1] == (units[i] >> 8) as u8
}

/// `bytes` is the little-endian byte layout of `units`, two bytes per unit.
pub open spec fn is_le_bytes_of(bytes: Seq<u8>, units: Seq<u16>) -> bool {
    &&& bytes.len() == 2 * units.len()
    &&& forall|i: int| 0 <= i < units.len() ==> #[trigger] unit_le_encoded(units, bytes, i)
}

/// The clipboard text payload for a string: its UTF-16 code units followed
/// by one null unit, each unit as two little-endian bytes.
pub open spec fn is_clipboard_text_payload(bytes: Seq<u8>, s: Seq<char>) -> bool {
    is_le_bytes_of(bytes, utf16_units(s).push(0u16))
}

/// Lays code units out as bytes, two per unit, little-endian.
pub fn le_bytes_from_units(units: &Vec<u16>) -> (bytes: Vec<u8>)
    ensures
        is_le_bytes_of(bytes@, units@),
{
    let mut bytes: Vec<u8> = Vec::new();
    let mut i: usize = 0;
    while i < units.len()
        invariant
            i <= units@.len(),
            bytes@.len() == 2 * i,
            forall|j: int| 0 <= j < i ==> #[trigger] unit_le_encoded(units@, bytes@, j),
        decreases units@.len() - i,
    {
        let u: u16 = units[i];
        let ghost prior = bytes@;
        bytes.push((u & 0xff) as u8);
        bytes.push((u >> 8) as u8);
        proof {
            assert forall|j: int| 0 <= j < i + 1 implies #[trigger] unit_le_encoded(
                units@,
                bytes@,
                j,
            ) by {
                if j < i {
                    assert(unit_le_encoded(units@, prior, j));
                }
            }
        }
        i = i + 1;
    }
    bytes
}

} // verus!
