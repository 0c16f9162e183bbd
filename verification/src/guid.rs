//! The text form of a GUID, as libibverbs prints it: sixteen hexadecimal
//! digits in four groups of four, joined by ':' (e.g. "abc0:afaf:34b5:0015").

use vstd::prelude::*;
use vstd::string::StringSliceAdditionalSpecFns;
use vstd::utf8::{encode_utf8, is_ascii_chars, is_ascii_chars_encode_utf8};
use crate::text::{
    COLON, digit_value, all_digits, digits_value, unsigned_digits, parse_radix, remove_colons,
    hex_char, hex_digits, ascii_bytes, pow16, string_push, parse_radix_exec, lemma_hex_digits,
    lemma_digits_value_concat, lemma_all_digits_concat, lemma_remove_colons_concat,
    lemma_remove_colons_digits, PLUS,
};
use crate::endianness::{Endianness, swap_bytes64};
use vstd::arithmetic::div_mod::lemma_fundamental_div_mod_converse;

verus! {

/// Pattern of the string representation of a GUID: four groups of four hex
/// digits joined by ':'.
pub const GUID_STRING_PATTERN: &'static str = "^[AaBbCcDdEeFf0-9]{4}(:[AaBbCcDdEeFf0-9]{4}){3}$";

/// The 16-bit group `k` of `g`, counted from the least significant (0) to the
/// most significant (3).
pub open spec fn guid_group(g: u64, k: nat) -> u64 {
    if k == 0 {
        g & 0xffff
    } else if k == 1 {
        (g >> 16) & 0xffff
    } else if k == 2 {
        (g >> 32) & 0xffff
    } else {
        (g >> 48) & 0xffff
    }
}

/// The text of a GUID: `"{:04x}:{:04x}:{:04x}:{:04x}"` of its four 16-bit
/// groups, most significant first.
pub open spec fn guid_text(g: u64) -> Seq<char> {
    hex_digits(guid_group(g, 3) as nat, 4) + seq![':'] + hex_digits(guid_group(g, 2) as nat, 4)
        + seq![':'] + hex_digits(guid_group(g, 1) as nat, 4) + seq![':'] + hex_digits(
        guid_group(g, 0) as nat,
        4,
    )
}

/// The GUID that a text denotes: its bytes without ':' read as a hexadecimal
/// number the way `u64::from_str_radix(_, 16)` reads it; `None` where that
/// call fails.
pub open spec fn guid_value(s: Seq<u8>) -> Option<u64> {
    match parse_radix(remove_colons(s), 16, u64::MAX as nat) {
        Some(v) => Some(v as u64),
        None => None,
    }
}

/// The lower-case hex digit for `d < 16`.
pub fn hex_char_exec(d: u64) -> (c: char)
    requires
        d < 16,
    ensures
        c == hex_char(d as nat),
{
    if d < 10 {
        ((48 + d) as u8) as char
    } else {
        ((87 + d) as u8) as char
    }
}

/// Appends `{:04x}` of `v` to `s`.
pub fn push_hex4(s: &mut String, v: u64)
    requires
        v < 65536,
    ensures
        final(s)@ == old(s)@ + hex_digits(v as nat, 4),
{
    let d0 = v % 16;
    let q1 = v / 16;
    let d1 = q1 % 16;
    let q2 = q1 / 16;
    let d2 = q2 % 16;
    let q3 = q2 / 16;
    let d3 = q3 % 16;
    string_push(s, hex_char_exec(d3));
    string_push(s, hex_char_exec(d2));
    string_push(s, hex_char_exec(d1));
    string_push(s, hex_char_exec(d0));
    assert(hex_digits(v as nat, 4) =~= seq![
        hex_char(d3 as nat),
        hex_char(d2 as nat),
        hex_char(d1 as nat),
        hex_char(d0 as nat),
    ]) by {
        reveal_with_fuel(hex_digits, 5);
    }
}

/// Removes the ':' bytes of `bytes`.
pub fn remove_colons_exec(bytes: &[u8]) -> (r: Vec<u8>)
    ensures
        r@ == remove_colons(bytes@),
{
    let mut r: Vec<u8> = Vec::new();
    let mut i: usize = 0;
    while i < bytes.len()
        invariant
            i <= bytes@.len(),
            r@ == remove_colons(bytes@.subrange(0, i as int)),
        decreases bytes@.len() - i,
    {
        let ghost prefix = bytes@.subrange(0, i as int + 1);
        assert(prefix.drop_last() =~= bytes@.subrange(0, i as int));
        if bytes[i] != COLON {
            r.push(bytes[i]);
        }
        i = i + 1;
    }
    assert(bytes@.subrange(0, bytes@.len() as int) =~= bytes@);
    r
}

/// Parses the text of a GUID; `None` where the text does not denote one.
pub fn parse_guid_string(repr: &str) -> (r: Option<u64>)
    ensures
        r == guid_value(repr.spec_bytes()),
{
    let bytes = repr.as_bytes();
    let hex = remove_colons_exec(bytes);
    match parse_radix_exec(hex.as_slice(), 16, u64::MAX) {
        Some(v) => Some(v),
        None => None,
    }
}

/// Transforms the GUID string representation into a u64: the delimiters (':')
/// are removed and the rest is read as a hexadecimal number.
///
/// See `GUID_STRING_PATTERN`.
pub fn guid_string_to_u64(repr: &str) -> (r: u64)
    requires
        guid_value(repr.spec_bytes()) is Some,
    ensures
        Some(r) == guid_value(repr.spec_bytes()),
{
    parse_guid_string(repr).unwrap()
}

/// Converts a GUID to its string representation (like it is done in
/// libibverbs): groups of four hex digits joined by ':'.
pub fn guid_u64_to_string(guid: u64) -> (r: String)
    ensures
        r@ == guid_text(guid),
{
    let p0 = guid & 0xffff;
    let p1 = (guid >> 16) & 0xffff;
    let p2 = (guid >> 32) & 0xffff;
    let p3 = (guid >> 48) & 0xffff;
    assert(p0 < 65536 && p1 < 65536 && p2 < 65536 && p3 < 65536) by (bit_vector)
        requires
            p0 == guid & 0xffff,
            p1 == (guid >> 16) & 0xffff,
            p2 == (guid >> 32) & 0xffff,
            p3 == (guid >> 48) & 0xffff,
    ;
    let mut s = String::new();
    push_hex4(&mut s, p3);
    string_push(&mut s, ':');
    push_hex4(&mut s, p2);
    string_push(&mut s, ':');
    push_hex4(&mut s, p1);
    string_push(&mut s, ':');
    push_hex4(&mut s, p0);
    assert(s@ =~= guid_text(guid));
    s
}

/// Returns the u64 that a "big endian" GUID hex string denotes (the string
/// is read as a plain hexadecimal number). See `GUID_STRING_PATTERN`.
pub fn guid_string_to_ube64(repr: &str) -> (r: u64)
    requires
        guid_value(repr.spec_bytes()) is Some,
    ensures
        Some(r) == guid_value(repr.spec_bytes()),
{
    guid_string_to_u64(repr)
}

/// Converts a GUID in big endian format to its string representation.
pub fn guid_be_to_string(guid_be: u64) -> (r: String)
    ensures
        r@ == guid_text(guid_be),
{
    guid_u64_to_string(guid_be)
}

/// Converts a GUID in host endianness to big endian and renders that.
pub fn guid_he_to_string(guid_he: u64) -> (r: String)
    ensures
        r@ == guid_text(guid_he) || r@ == guid_text(swap_bytes64(guid_he)),
{
    guid_be_to_string(Endianness::u64he_to_u64be(guid_he))
}

/// The four groups of a GUID put back together give the GUID.
proof fn lemma_guid_groups(g: u64)
    ensures
        guid_group(g, 0) < 65536,
        guid_group(g, 1) < 65536,
        guid_group(g, 2) < 65536,
        guid_group(g, 3) < 65536,
        g == ((guid_group(g, 3) * 65536 + guid_group(g, 2)) * 65536 + guid_group(g, 1)) * 65536
            + guid_group(g, 0),
{
    assert(((g >> 48) & 0xffff) < 65536 && ((g >> 32) & 0xffff) < 65536 && ((g >> 16) & 0xffff)
        < 65536 && (g & 0xffff) < 65536 && g == (((((g >> 48) & 0xffff) * 65536 + ((g >> 32)
        & 0xffff)) * 65536 + ((g >> 16) & 0xffff)) * 65536 + (g & 0xffff))) by (bit_vector);
}

/// Reading the text of a GUID gives the GUID back.
pub proof fn law_guid_text_round_trip(g: u64)
    ensures
        guid_value(encode_utf8(guid_text(g))) == Some(g),
{
    lemma_guid_groups(g);
    let v3 = guid_group(g, 3) as nat;
    let v2 = guid_group(g, 2) as nat;
    let v1 = guid_group(g, 1) as nat;
    let v0 = guid_group(g, 0) as nat;
    assert(pow16(4) == 65536) by {
        reveal_with_fuel(pow16, 5);
    }
    lemma_hex_digits(v3, 4);
    lemma_hex_digits(v2, 4);
    lemma_hex_digits(v1, 4);
    lemma_hex_digits(v0, 4);
    let h3 = hex_digits(v3, 4);
    let h2 = hex_digits(v2, 4);
    let h1 = hex_digits(v1, 4);
    let h0 = hex_digits(v0, 4);
    let c = seq![':'];
    let t = guid_text(g);
    assert(t == h3 + c + h2 + c + h1 + c + h0);
    assert(is_ascii_chars(t)) by {
        assert forall|i: int| 0 <= i < t.len() implies '\0' <= #[trigger] t[i] <= '\u{7f}' by {
            if i < 4 {
                assert(t[i] == h3[i]);
            } else if i == 4 || i == 9 || i == 14 {
                assert(t[i] == ':');
            } else if i < 9 {
                assert(t[i] == h2[i - 5]);
            } else if i < 14 {
                assert(t[i] == h1[i - 10]);
            } else {
                assert(t[i] == h0[i - 15]);
            }
        }
    }
    is_ascii_chars_encode_utf8(t);
    assert(encode_utf8(t) =~= ascii_bytes(t));
    let b3 = ascii_bytes(h3);
    let b2 = ascii_bytes(h2);
    let b1 = ascii_bytes(h1);
    let b0 = ascii_bytes(h0);
    let bc = ascii_bytes(c);
    assert(bc =~= seq![COLON]);
    assert(ascii_bytes(t) =~= b3 + bc + b2 + bc + b1 + bc + b0);
    lemma_remove_colons_digits(b3, 16);
    lemma_remove_colons_digits(b2, 16);
    lemma_remove_colons_digits(b1, 16);
    lemma_remove_colons_digits(b0, 16);
    assert(remove_colons(bc) =~= Seq::<u8>::empty()) by {
        assert(bc.drop_last() =~= Seq::<u8>::empty());
        assert(bc.last() == COLON);
        reveal_with_fuel(remove_colons, 2);
    }
    lemma_remove_colons_concat(b3, bc);
    lemma_remove_colons_concat(b3 + bc, b2);
    lemma_remove_colons_concat(b3 + bc + b2, bc);
    lemma_remove_colons_concat(b3 + bc + b2 + bc, b1);
    lemma_remove_colons_concat(b3 + bc + b2 + bc + b1, bc);
    lemma_remove_colons_concat(b3 + bc + b2 + bc + b1 + bc, b0);
    let d = b3 + b2 + b1 + b0;
    assert(remove_colons(ascii_bytes(t)) =~= d);
    lemma_all_digits_concat(b3, b2, 16);
    lemma_all_digits_concat(b3 + b2, b1, 16);
    lemma_all_digits_concat(b3 + b2 + b1, b0, 16);
    lemma_digits_value_concat(b3, b2);
    lemma_digits_value_concat(b3 + b2, b1);
    lemma_digits_value_concat(b3 + b2 + b1, b0);
    assert(digit_value(d[0], 16) is Some);
    assert(unsigned_digits(d) == d);
    assert(digits_value(d, 16) == g);
}

/// A lower-case hexadecimal digit.
pub open spec fn is_lower_hex(c: char) -> bool {
    ('0' <= c && c <= '9') || ('a' <= c && c <= 'f')
}

/// A GUID text in the form `guid_u64_to_string` writes: four groups of four
/// lower-case hexadecimal digits joined by ':'.
pub open spec fn is_guid_text(s: Seq<char>) -> bool {
    &&& s.len() == 19
    &&& forall|i: int|
        0 <= i < 19 ==> if i == 4 || i == 9 || i == 14 {
            s[i] == ':'
        } else {
            is_lower_hex(#[trigger] s[i])
        }
}

/// Lower-case hexadecimal digits are written back as they were read.
proof fn lemma_lower_hex_digits(c: Seq<char>)
    requires
        forall|i: int| 0 <= i < c.len() ==> is_lower_hex(#[trigger] c[i]),
    ensures
        digits_value(ascii_bytes(c), 16) < pow16(c.len()),
        hex_digits(digits_value(ascii_bytes(c), 16), c.len()) == c,
    decreases c.len(),
{
    if c.len() > 0 {
        let p = c.drop_last();
        assert forall|i: int| 0 <= i < p.len() implies is_lower_hex(#[trigger] p[i]) by {
            assert(p[i] == c[i]);
        }
        lemma_lower_hex_digits(p);
        let b = ascii_bytes(c);
        assert(b.drop_last() =~= ascii_bytes(p));
        let last = c.last();
        assert(is_lower_hex(last));
        let d = digit_value(last as u8, 16)->0;
        assert(digit_value(last as u8, 16) is Some);
        assert(d < 16);
        assert(hex_char(d) == last);
        let vp = digits_value(ascii_bytes(p), 16);
        let v = digits_value(b, 16);
        assert(v == vp * 16 + d);
        lemma_fundamental_div_mod_converse(v as int, 16, vp as int, d as int);
        assert(pow16(c.len()) == 16 * pow16(p.len()));
        assert(vp * 16 + d < 16 * pow16(p.len())) by (nonlinear_arith)
            requires
                vp < pow16(p.len()),
                d < 16,
        ;
        assert(hex_digits(v, c.len()) == hex_digits(vp, p.len()).push(hex_char(d)));
        assert(p.push(last) =~= c);
    }
}

/// A GUID text in the form `guid_u64_to_string` writes, read and written again,
/// is the same text: the text denotes a GUID whose text it is.
pub proof fn law_guid_text_written_back(s: Seq<char>)
    requires
        is_guid_text(s),
    ensures
        guid_value(encode_utf8(s)) is Some,
        guid_text(guid_value(encode_utf8(s))->0) == s,
{
    let c3 = s.subrange(0, 4);
    let c2 = s.subrange(5, 9);
    let c1 = s.subrange(10, 14);
    let c0 = s.subrange(15, 19);
    assert forall|i: int| 0 <= i < 4 implies is_lower_hex(#[trigger] c3[i]) && is_lower_hex(
        c2[i],
    ) && is_lower_hex(c1[i]) && is_lower_hex(c0[i]) by {
        assert(c3[i] == s[i] && c2[i] == s[i + 5] && c1[i] == s[i + 10] && c0[i] == s[i + 15]);
        assert(is_lower_hex(s[i]) && is_lower_hex(s[i + 5]) && is_lower_hex(s[i + 10])
            && is_lower_hex(s[i + 15]));
    }
    assert forall|i: int| 0 <= i < c2.len() implies is_lower_hex(#[trigger] c2[i]) by {}
    assert forall|i: int| 0 <= i < c1.len() implies is_lower_hex(#[trigger] c1[i]) by {}
    assert forall|i: int| 0 <= i < c0.len() implies is_lower_hex(#[trigger] c0[i]) by {}
    lemma_lower_hex_digits(c3);
    lemma_lower_hex_digits(c2);
    lemma_lower_hex_digits(c1);
    lemma_lower_hex_digits(c0);
    assert(pow16(4) == 65536) by {
        reveal_with_fuel(pow16, 5);
    }
    let v3 = digits_value(ascii_bytes(c3), 16) as u64;
    let v2 = digits_value(ascii_bytes(c2), 16) as u64;
    let v1 = digits_value(ascii_bytes(c1), 16) as u64;
    let v0 = digits_value(ascii_bytes(c0), 16) as u64;
    let gi = ((v3 * 65536 + v2) * 65536 + v1) * 65536 + v0;
    assert(gi < 0x1_0000_0000_0000_0000) by (nonlinear_arith)
        requires
            v3 < 65536,
            v2 < 65536,
            v1 < 65536,
            v0 < 65536,
            gi == ((v3 * 65536 + v2) * 65536 + v1) * 65536 + v0,
    ;
    let g = gi as u64;
    assert(guid_group(g, 3) == v3 && guid_group(g, 2) == v2 && guid_group(g, 1) == v1
        && guid_group(g, 0) == v0) by (bit_vector)
        requires
            v3 < 65536,
            v2 < 65536,
            v1 < 65536,
            v0 < 65536,
            g == ((v3 * 65536 + v2) * 65536 + v1) * 65536 + v0,
    ;
    assert(guid_text(g) =~= s) by {
        assert(s =~= c3 + seq![':'] + c2 + seq![':'] + c1 + seq![':'] + c0);
    }
    law_guid_text_round_trip(g);
}

/// A hexadecimal digit, in either case.
pub open spec fn is_hex_char(c: char) -> bool {
    is_lower_hex(c) || ('A' <= c && c <= 'F')
}

/// A text that `GUID_STRING_PATTERN` matches: four groups of four hexadecimal
/// digits (in either case) joined by ':'.
pub open spec fn matches_guid_pattern(s: Seq<char>) -> bool {
    &&& s.len() == 19
    &&& forall|i: int|
        0 <= i < 19 ==> if i == 4 || i == 9 || i == 14 {
            s[i] == ':'
        } else {
            is_hex_char(#[trigger] s[i])
        }
}

/// `c` in lower case, where it is one of the letters 'A' to 'F'.
pub open spec fn lower_hex_char(c: char) -> char {
    if 'A' <= c && c <= 'F' {
        ((c as u32) + 32) as char
    } else {
        c
    }
}

/// `b` in lower case, where it is one of the bytes of 'A' to 'F'.
pub open spec fn lower_hex_byte(b: u8) -> u8 {
    if 65 <= b && b <= 70 {
        (b + 32) as u8
    } else {
        b
    }
}

/// The text with its letters 'A' to 'F' in lower case.
pub open spec fn lower_hex_text(s: Seq<char>) -> Seq<char> {
    s.map_values(|c: char| lower_hex_char(c))
}

/// Lowering the hex letters keeps the ':' bytes where they are.
proof fn lemma_remove_colons_lower(x: Seq<u8>)
    ensures
        remove_colons(x.map_values(|b: u8| lower_hex_byte(b))) == remove_colons(x).map_values(
            |b: u8| lower_hex_byte(b),
        ),
    decreases x.len(),
{
    let f = |b: u8| lower_hex_byte(b);
    let y = x.map_values(f);
    if x.len() > 0 {
        assert(y.drop_last() =~= x.drop_last().map_values(f));
        lemma_remove_colons_lower(x.drop_last());
        assert(y.last() == lower_hex_byte(x.last()));
        if x.last() == COLON {
            assert(y.last() == COLON);
        } else {
            assert(y.last() != COLON);
            assert(remove_colons(x.drop_last()).push(x.last()).map_values(f) =~= remove_colons(
                x.drop_last(),
            ).map_values(f).push(f(x.last())));
        }
    } else {
        assert(y =~= x);
        assert(x.map_values(f) =~= x);
    }
}

/// Lowering the hex letters changes neither which bytes are digits nor their
/// value.
proof fn lemma_digits_lower(x: Seq<u8>)
    ensures
        all_digits(x.map_values(|b: u8| lower_hex_byte(b)), 16) == all_digits(x, 16),
        digits_value(x.map_values(|b: u8| lower_hex_byte(b)), 16) == digits_value(x, 16),
    decreases x.len(),
{
    let f = |b: u8| lower_hex_byte(b);
    let y = x.map_values(f);
    assert forall|i: int| 0 <= i < x.len() implies digit_value(#[trigger] y[i], 16) == digit_value(
        x[i],
        16,
    ) by {
        assert(y[i] == lower_hex_byte(x[i]));
    }
    if x.len() > 0 {
        assert(y.drop_last() =~= x.drop_last().map_values(f));
        lemma_digits_lower(x.drop_last());
        assert(digit_value(y.last(), 16) == digit_value(x.last(), 16));
    }
    if all_digits(y, 16) {
        assert forall|i: int| 0 <= i < x.len() implies (#[trigger] digit_value(x[i], 16)) is Some by {
            assert(digit_value(y[i], 16) is Some);
        }
    }
    if all_digits(x, 16) {
        assert forall|i: int| 0 <= i < y.len() implies (#[trigger] digit_value(y[i], 16)) is Some by {
            assert(digit_value(x[i], 16) is Some);
        }
    }
}

/// Reading a GUID text does not depend on the case of its hex letters.
proof fn lemma_guid_value_lower(s: Seq<char>)
    requires
        is_ascii_chars(s),
    ensures
        guid_value(encode_utf8(lower_hex_text(s))) == guid_value(encode_utf8(s)),
{
    let f = |b: u8| lower_hex_byte(b);
    let l = lower_hex_text(s);
    assert(is_ascii_chars(l)) by {
        assert forall|i: int| 0 <= i < l.len() implies '\0' <= #[trigger] l[i] <= '\u{7f}' by {
            assert(l[i] == lower_hex_char(s[i]));
        }
    }
    is_ascii_chars_encode_utf8(s);
    is_ascii_chars_encode_utf8(l);
    let x = encode_utf8(s);
    let y = encode_utf8(l);
    assert(y =~= x.map_values(f)) by {
        assert forall|i: int| 0 <= i < y.len() implies y[i] == x.map_values(f)[i] by {
            assert(l[i] == lower_hex_char(s[i]));
            assert(l[i] as u8 == y[i]);
            assert(s[i] as u8 == x[i]);
        }
    }
    lemma_remove_colons_lower(x);
    let r = remove_colons(x);
    lemma_digits_lower(r);
    let ry = r.map_values(f);
    if r.len() > 0 && r[0] == PLUS {
        assert(ry[0] == PLUS);
        assert(ry.drop_first() =~= r.drop_first().map_values(f));
        lemma_digits_lower(r.drop_first());
    } else if r.len() > 0 {
        assert(ry[0] == lower_hex_byte(r[0]));
        assert(ry[0] != PLUS);
    }
}

/// A text that `GUID_STRING_PATTERN` matches, read and written again, is the
/// same text in lower case.
pub proof fn law_guid_text_written_back_lower(s: Seq<char>)
    requires
        matches_guid_pattern(s),
    ensures
        guid_value(encode_utf8(s)) is Some,
        guid_text(guid_value(encode_utf8(s))->0) == lower_hex_text(s),
{
    let l = lower_hex_text(s);
    assert(is_guid_text(l)) by {
        assert forall|i: int| 0 <= i < 19 implies if i == 4 || i == 9 || i == 14 {
            l[i] == ':'
        } else {
            is_lower_hex(#[trigger] l[i])
        } by {
            assert(l[i] == lower_hex_char(s[i]));
            if !(i == 4 || i == 9 || i == 14) {
                assert(is_hex_char(s[i]));
            } else {
                assert(s[i] == ':');
            }
        }
    }
    assert(is_ascii_chars(s)) by {
        assert forall|i: int| 0 <= i < s.len() implies '\0' <= #[trigger] s[i] <= '\u{7f}' by {
            if !(i == 4 || i == 9 || i == 14) {
                assert(is_hex_char(s[i]));
            }
        }
    }
    law_guid_text_written_back(l);
    lemma_guid_value_lower(s);
}

/// Hexadecimal digits as `hex_digits` writes them are lower case.
proof fn lemma_hex_digits_lower(v: nat, n: nat)
    ensures
        forall|i: int| 0 <= i < hex_digits(v, n).len() ==> is_lower_hex(#[trigger] hex_digits(v, n)[i]),
    decreases n,
{
    if n > 0 {
        lemma_hex_digits_lower(v / 16, (n - 1) as nat);
        let h = hex_digits(v, n);
        let d = v % 16;
        assert(is_lower_hex(hex_char(d)));
        assert forall|i: int| 0 <= i < h.len() implies is_lower_hex(#[trigger] h[i]) by {
            if i < h.len() - 1 {
                assert(h[i] == hex_digits(v / 16, (n - 1) as nat)[i]);
            }
        }
    }
}

/// Every GUID text `guid_u64_to_string` writes is 19 characters long, matches
/// `GUID_STRING_PATTERN` and has no upper-case letter.
pub proof fn law_guid_text_form(g: u64)
    ensures
        is_guid_text(guid_text(g)),
        matches_guid_pattern(guid_text(g)),
{
    lemma_guid_groups(g);
    assert(pow16(4) == 65536) by {
        reveal_with_fuel(pow16, 5);
    }
    let h3 = hex_digits(guid_group(g, 3) as nat, 4);
    let h2 = hex_digits(guid_group(g, 2) as nat, 4);
    let h1 = hex_digits(guid_group(g, 1) as nat, 4);
    let h0 = hex_digits(guid_group(g, 0) as nat, 4);
    lemma_hex_digits(guid_group(g, 3) as nat, 4);
    lemma_hex_digits(guid_group(g, 2) as nat, 4);
    lemma_hex_digits(guid_group(g, 1) as nat, 4);
    lemma_hex_digits(guid_group(g, 0) as nat, 4);
    lemma_hex_digits_lower(guid_group(g, 3) as nat, 4);
    lemma_hex_digits_lower(guid_group(g, 2) as nat, 4);
    lemma_hex_digits_lower(guid_group(g, 1) as nat, 4);
    lemma_hex_digits_lower(guid_group(g, 0) as nat, 4);
    let t = guid_text(g);
    assert(t == h3 + seq![':'] + h2 + seq![':'] + h1 + seq![':'] + h0);
    assert forall|i: int| 0 <= i < 19 implies if i == 4 || i == 9 || i == 14 {
        t[i] == ':'
    } else {
        is_lower_hex(#[trigger] t[i])
    } by {
        if i < 4 {
            assert(t[i] == h3[i]);
        } else if i == 4 || i == 9 || i == 14 {
        } else if i < 9 {
            assert(t[i] == h2[i - 5]);
        } else if i < 14 {
            assert(t[i] == h1[i - 10]);
        } else {
            assert(t[i] == h0[i - 15]);
        }
    }
}

} // verus!
