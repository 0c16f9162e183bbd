//! The text form of an InfiniBand LID: "0x" and four lower-case hex digits
//! (e.g. "0xdead"). Plain decimal LIDs are read as well.

use vstd::prelude::*;
use vstd::string::StringSliceAdditionalSpecFns;
use vstd::utf8::{encode_utf8, is_ascii_chars, is_ascii_chars_encode_utf8};
use crate::text::{
    digit_value, unsigned_digits, parse_radix, hex_digits, ascii_bytes, pow16, string_push,
    parse_radix_exec, lemma_hex_digits,
};
use crate::guid::push_hex4;

verus! {

/// The text of a LID: `"0x{:04x}"`.
pub open spec fn lid_text(lid: u16) -> Seq<char> {
    seq!['0', 'x'] + hex_digits(lid as nat, 4)
}

/// The LID that a text denotes: after a "0x" prefix, what
/// `u16::from_str_radix(_, 16)` reads; otherwise what `u16::from_str` reads.
pub open spec fn lid_value(s: Seq<u8>) -> Option<u16> {
    let parsed = if s.len() >= 2 && s[0] == 48 && s[1] == 120 {
        parse_radix(s.skip(2), 16, u16::MAX as nat)
    } else {
        parse_radix(s, 10, u16::MAX as nat)
    };
    match parsed {
        Some(v) => Some(v as u16),
        None => None,
    }
}

/// Parses the text of a LID; `None` where the text does not denote one.
pub fn parse_lid_string(repr: &str) -> (r: Option<u16>)
    ensures
        r == lid_value(repr.spec_bytes()),
{
    let bytes = repr.as_bytes();
    let parsed = if bytes.len() >= 2 && bytes[0] == 48 && bytes[1] == 120 {
        let (_, digits) = bytes.split_at(2);
        assert(digits@ =~= bytes@.skip(2));
        parse_radix_exec(digits, 16, 65535)
    } else {
        parse_radix_exec(bytes, 10, 65535)
    };
    match parsed {
        Some(v) => Some(v as u16),
        None => None,
    }
}

/// Parses a LID string to the number used internally.
pub fn lid_string_to_u16(repr: &str) -> (r: u16)
    requires
        lid_value(repr.spec_bytes()) is Some,
    ensures
        Some(r) == lid_value(repr.spec_bytes()),
{
    parse_lid_string(repr).unwrap()
}

/// Converts a LID to its string representation: "0x" and four hex digits.
pub fn lid_u16_to_string(lid: u16) -> (r: String)
    ensures
        r@ == lid_text(lid),
{
    let mut s = String::new();
    string_push(&mut s, '0');
    string_push(&mut s, 'x');
    push_hex4(&mut s, lid as u64);
    assert(s@ =~= lid_text(lid));
    s
}

/// Reading the text of a LID gives the LID back.
pub proof fn law_lid_text_round_trip(lid: u16)
    ensures
        lid_value(encode_utf8(lid_text(lid))) == Some(lid),
{
    let v = lid as nat;
    assert(pow16(4) == 65536) by {
        reveal_with_fuel(pow16, 5);
    }
    lemma_hex_digits(v, 4);
    let h = hex_digits(v, 4);
    let t = lid_text(lid);
    assert(is_ascii_chars(t)) by {
        assert forall|i: int| 0 <= i < t.len() implies '\0' <= #[trigger] t[i] <= '\u{7f}' by {
            if i >= 2 {
                assert(t[i] == h[i - 2]);
            }
        }
    }
    is_ascii_chars_encode_utf8(t);
    let b = encode_utf8(t);
    assert(b =~= ascii_bytes(t));
    assert(b.skip(2) =~= ascii_bytes(h));
    assert(b[0] == 48 && b[1] == 120);
    assert(digit_value(ascii_bytes(h)[0], 16) is Some);
    assert(unsigned_digits(ascii_bytes(h)) == ascii_bytes(h));
}

} // verus!
