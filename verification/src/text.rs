//! Number/text conversions shared by the GUID and LID formats: the digit
//! grammar that `from_str_radix` accepts, and fixed-width lower-case
//! hexadecimal rendering.

use vstd::prelude::*;
use vstd::string::StringExecFns;

verus! {

/// The byte of ':'.
pub const COLON: u8 = 58;

/// The byte of '+'.
pub const PLUS: u8 = 43;

/// Value of the digit byte `b` in base `radix` (10 or 16); upper- and
/// lower-case letters are both accepted for base 16.
pub open spec fn digit_value(b: u8, radix: nat) -> Option<nat> {
    if 48 <= b <= 57 && (b - 48) < radix {
        Some((b - 48) as nat)
    } else if radix == 16 && 97 <= b <= 102 {
        Some((b - 87) as nat)
    } else if radix == 16 && 65 <= b <= 70 {
        Some((b - 55) as nat)
    } else {
        None
    }
}

/// Every byte of `s` is a digit of base `radix`.
pub open spec fn all_digits(s: Seq<u8>, radix: nat) -> bool {
    forall|i: int| 0 <= i < s.len() ==> (#[trigger] digit_value(s[i], radix)) is Some
}

/// The number that the digit string `s` denotes in base `radix`
/// (meaningful when `all_digits(s, radix)`).
pub open spec fn digits_value(s: Seq<u8>, radix: nat) -> nat
    decreases s.len(),
{
    if s.len() == 0 {
        0
    } else {
        digits_value(s.drop_last(), radix) * radix + match digit_value(s.last(), radix) {
            Some(d) => d,
            None => 0,
        }
    }
}

/// The digit part of a number text: `t` without an optional leading '+'.
pub open spec fn unsigned_digits(t: Seq<u8>) -> Seq<u8> {
    if t.len() > 0 && t[0] == PLUS {
        t.drop_first()
    } else {
        t
    }
}

/// What `from_str_radix(t, radix)` gives for an unsigned type whose largest
/// value is `max`: an optional leading '+', then at least one digit, and no
/// value above `max`.
pub open spec fn parse_radix(t: Seq<u8>, radix: nat, max: nat) -> Option<nat> {
    let digits = unsigned_digits(t);
    if digits.len() == 0 || !all_digits(digits, radix) || digits_value(digits, radix) > max {
        None
    } else {
        Some(digits_value(digits, radix))
    }
}

/// `s` without its ':' bytes.
pub open spec fn remove_colons(s: Seq<u8>) -> Seq<u8>
    decreases s.len(),
{
    if s.len() == 0 {
        s
    } else if s.last() == COLON {
        remove_colons(s.drop_last())
    } else {
        remove_colons(s.drop_last()).push(s.last())
    }
}

/// The lower-case hexadecimal digit for `d < 16`.
pub open spec fn hex_char(d: nat) -> char {
    if d < 10 {
        (48 + d) as char
    } else {
        (87 + d) as char
    }
}

/// The `n` lowest hexadecimal digits of `v`, most significant first, in
/// lower case (what `{:0nx}` prints for `v < 16^n`).
pub open spec fn hex_digits(v: nat, n: nat) -> Seq<char>
    decreases n,
{
    if n == 0 {
        Seq::empty()
    } else {
        hex_digits(v / 16, (n - 1) as nat).push(hex_char(v % 16))
    }
}

/// The bytes of an ASCII character sequence.
pub open spec fn ascii_bytes(s: Seq<char>) -> Seq<u8> {
    s.map_values(|c: char| c as u8)
}

/// 16 to the power `n`.
pub open spec fn pow16(n: nat) -> nat
    decreases n,
{
    if n == 0 {
        1
    } else {
        16 * pow16((n - 1) as nat)
    }
}

/// Calls `String::push`, which appends the character `c` to `s`.
#[verifier::external_body]
pub fn string_push(s: &mut String, c: char)
    ensures
        final(s)@ == old(s)@.push(c),
{
    s.push(c)
}

/// Value of one digit byte, as `digit_value` states.
pub fn digit_value_exec(b: u8, radix: u64) -> (r: Option<u64>)
    requires
        radix == 10 || radix == 16,
    ensures
        match digit_value(b, radix as nat) {
            Some(d) => r == Some(d as u64),
            None => r is None,
        },
{
    if 48 <= b && b <= 57 && ((b - 48) as u64) < radix {
        Some((b - 48) as u64)
    } else if radix == 16 && 97 <= b && b <= 102 {
        Some((b - 87) as u64)
    } else if radix == 16 && 65 <= b && b <= 70 {
        Some((b - 55) as u64)
    } else {
        None
    }
}

/// A digit string is worth at least as much as each of its prefixes.
pub proof fn lemma_digits_value_prefix(s: Seq<u8>, radix: nat, k: int)
    requires
        0 <= k <= s.len(),
        radix >= 1,
    ensures
        digits_value(s.subrange(0, k), radix) <= digits_value(s, radix),
    decreases s.len(),
{
    if k < s.len() {
        assert(s.drop_last().subrange(0, k) =~= s.subrange(0, k));
        lemma_digits_value_prefix(s.drop_last(), radix, k);
        let x = digits_value(s.drop_last(), radix);
        assert(x * radix >= x) by (nonlinear_arith)
            requires
                radix >= 1,
        ;
    } else {
        assert(s.subrange(0, k) =~= s);
    }
}

/// Parses the bytes `t` as `from_str_radix` does for an unsigned type whose
/// largest value is `max`.
pub fn parse_radix_exec(t: &[u8], radix: u64, max: u64) -> (r: Option<u64>)
    requires
        radix == 10 || radix == 16,
    ensures
        match parse_radix(t@, radix as nat, max as nat) {
            Some(v) => r == Some(v as u64),
            None => r is None,
        },
{
    let n = t.len();
    let mut start: usize = 0;
    if n > 0 && t[0] == PLUS {
        start = 1;
    }
    let ghost digits = unsigned_digits(t@);
    assert(digits =~= t@.subrange(start as int, n as int));
    if start == n {
        return None;
    }
    let mut acc: u64 = 0;
    let mut i: usize = start;
    while i < n
        invariant
            start <= i <= n,
            n == t@.len(),
            radix == 10 || radix == 16,
            digits =~= t@.subrange(start as int, n as int),
            digits == unsigned_digits(t@),
            all_digits(t@.subrange(start as int, i as int), radix as nat),
            acc as nat == digits_value(t@.subrange(start as int, i as int), radix as nat),
            acc <= max,
        decreases n - i,
    {
        let ghost prefix = t@.subrange(start as int, i as int);
        let ghost next = t@.subrange(start as int, i as int + 1);
        assert(next.drop_last() =~= prefix);
        assert(next.last() == t@[i as int]);
        assert(next =~= digits.subrange(0, i - start + 1));
        let d = digit_value_exec(t[i], radix);
        match d {
            None => {
                assert(digit_value(digits[i - start], radix as nat) is None);
                return None;
            },
            Some(d) => {
                let prod = acc.checked_mul(radix);
                let sum = match prod {
                    Some(p) => p.checked_add(d),
                    None => None,
                };
                match sum {
                    Some(v) if v <= max => {
                        assert(all_digits(next, radix as nat)) by {
                            assert forall|j: int| 0 <= j < next.len() implies (#[trigger] digit_value(
                                next[j],
                                radix as nat,
                            )) is Some by {
                                if j < prefix.len() {
                                    assert(next[j] == prefix[j]);
                                }
                            }
                        }
                        acc = v;
                        i = i + 1;
                    },
                    _ => {
                        assert(digits_value(next, radix as nat) > max);
                        proof {
                            if all_digits(digits, radix as nat) {
                                lemma_digits_value_prefix(digits, radix as nat, i - start + 1);
                            }
                        }
                        return None;
                    },
                }
            },
        }
    }
    assert(t@.subrange(start as int, n as int) =~= digits);
    Some(acc)
}

/// Hex characters are ASCII digits of base 16.
pub proof fn lemma_hex_char(d: nat)
    requires
        d < 16,
    ensures
        digit_value(hex_char(d) as u8, 16) == Some(d),
        '\0' <= hex_char(d) <= '\u{7f}',
{
}

/// `hex_digits(v, n)` has `n` ASCII characters whose bytes are base-16 digits
/// denoting `v`, when `v < 16^n`.
pub proof fn lemma_hex_digits(v: nat, n: nat)
    requires
        v < pow16(n),
    ensures
        hex_digits(v, n).len() == n,
        forall|i: int|
            0 <= i < n ==> '\0' <= #[trigger] hex_digits(v, n)[i] <= '\u{7f}',
        all_digits(ascii_bytes(hex_digits(v, n)), 16),
        digits_value(ascii_bytes(hex_digits(v, n)), 16) == v,
    decreases n,
{
    if n > 0 {
        let m = (n - 1) as nat;
        assert(v / 16 < pow16(m));
        lemma_hex_digits(v / 16, m);
        lemma_hex_char(v % 16);
        let h = hex_digits(v, n);
        let b = ascii_bytes(h);
        assert(b.drop_last() =~= ascii_bytes(hex_digits(v / 16, m)));
        assert(b.last() == hex_char(v % 16) as u8);
        assert forall|i: int| 0 <= i < b.len() implies (#[trigger] digit_value(b[i], 16)) is Some by {
            if i < m {
                assert(b[i] == ascii_bytes(hex_digits(v / 16, m))[i]);
            }
        }
    } else {
        assert(v == 0);
    }
}

/// The value of a concatenation of digit strings.
pub proof fn lemma_digits_value_concat(a: Seq<u8>, b: Seq<u8>)
    ensures
        digits_value(a + b, 16) == digits_value(a, 16) * pow16(b.len()) + digits_value(b, 16),
    decreases b.len(),
{
    if b.len() == 0 {
        assert(a + b =~= a);
        assert(pow16(0) == 1);
        assert(digits_value(b, 16) == 0);
        assert(digits_value(a, 16) * 1 == digits_value(a, 16));
    } else {
        assert((a + b).drop_last() =~= a + b.drop_last());
        assert((a + b).last() == b.last());
        lemma_digits_value_concat(a, b.drop_last());
        let x = digits_value(a, 16);
        let p = pow16(b.drop_last().len());
        let y = digits_value(b.drop_last(), 16);
        let d = match digit_value(b.last(), 16) {
            Some(d) => d,
            None => 0,
        };
        assert(digits_value(a + b, 16) == digits_value(a + b.drop_last(), 16) * 16 + d);
        assert(digits_value(b, 16) == y * 16 + d);
        assert(pow16(b.len()) == 16 * p);
        assert((x * p + y) * 16 == x * (16 * p) + y * 16) by (nonlinear_arith);
    }
}

/// All bytes of a concatenation are digits iff those of both parts are.
pub proof fn lemma_all_digits_concat(a: Seq<u8>, b: Seq<u8>, radix: nat)
    requires
        all_digits(a, radix),
        all_digits(b, radix),
    ensures
        all_digits(a + b, radix),
{
    assert forall|i: int| 0 <= i < (a + b).len() implies (#[trigger] digit_value((a + b)[i], radix)) is Some by {
        if i < a.len() {
            assert((a + b)[i] == a[i]);
        } else {
            assert((a + b)[i] == b[i - a.len()]);
        }
    }
}

/// Removing ':' bytes distributes over concatenation.
pub proof fn lemma_remove_colons_concat(a: Seq<u8>, b: Seq<u8>)
    ensures
        remove_colons(a + b) == remove_colons(a) + remove_colons(b),
    decreases b.len(),
{
    if b.len() == 0 {
        assert(a + b =~= a);
        assert(remove_colons(a) + remove_colons(b) =~= remove_colons(a));
    } else {
        assert((a + b).drop_last() =~= a + b.drop_last());
        lemma_remove_colons_concat(a, b.drop_last());
        if b.last() == COLON {
        } else {
            assert(remove_colons(a + b) =~= remove_colons(a) + remove_colons(b));
        }
    }
}

/// A digit string has no ':' bytes to remove.
pub proof fn lemma_remove_colons_digits(s: Seq<u8>, radix: nat)
    requires
        all_digits(s, radix),
    ensures
        remove_colons(s) == s,
    decreases s.len(),
{
    if s.len() > 0 {
        assert(all_digits(s.drop_last(), radix)) by {
            assert forall|i: int| 0 <= i < s.drop_last().len() implies (#[trigger] digit_value(
                s.drop_last()[i],
                radix,
            )) is Some by {
                assert(s.drop_last()[i] == s[i]);
            }
        }
        lemma_remove_colons_digits(s.drop_last(), radix);
        assert(digit_value(s[s.len() - 1], radix) is Some);
        assert(s.drop_last().push(s.last()) =~= s);
    }
}

/// No character of `s` is `c`.
pub open spec fn lacks_char(s: Seq<char>, c: char) -> bool {
    forall|i: int| 0 <= i < s.len() ==> s[i] != c
}

/// A prefix that holds no character starting `from` is left as it is, and the
/// replacing goes on after it.
pub proof fn lemma_replace_all_concat(a: Seq<char>, b: Seq<char>, from: Seq<char>, to: Seq<char>)
    requires
        from.len() > 0,
        lacks_char(a, from[0]),
    ensures
        replace_all(a + b, from, to) == a + replace_all(b, from, to),
    decreases a.len(),
{
    let s = a + b;
    if a.len() == 0 {
        assert(s =~= b);
    } else {
        assert(s[0] == a[0]);
        if from.len() <= s.len() && s.subrange(0, from.len() as int) == from {
            assert(s.subrange(0, from.len() as int)[0] == s[0]);
        }
        assert(s.skip(1) =~= a.skip(1) + b);
        assert(lacks_char(a.skip(1), from[0])) by {
            assert forall|i: int| 0 <= i < a.skip(1).len() implies a.skip(1)[i] != from[0] by {
                assert(a.skip(1)[i] == a[i + 1]);
            }
        }
        lemma_replace_all_concat(a.skip(1), b, from, to);
        assert(seq![a[0]] + a.skip(1) =~= a);
        assert(seq![a[0]] + (a.skip(1) + replace_all(b, from, to)) =~= a + replace_all(b, from, to));
    }
}

/// An occurrence of `from` at the start is replaced, and the replacing goes on
/// after it.
pub proof fn lemma_replace_all_at_start(b: Seq<char>, from: Seq<char>, to: Seq<char>)
    requires
        from.len() > 0,
    ensures
        replace_all(from + b, from, to) == to + replace_all(b, from, to),
{
    let s = from + b;
    assert(s.subrange(0, from.len() as int) =~= from);
    assert(s.skip(from.len() as int) =~= b);
}

/// No lower-case hex digit is `'{'`.
pub proof fn lemma_hex_digits_lack_brace(v: nat, n: nat)
    ensures
        lacks_char(hex_digits(v, n), '{'),
    decreases n,
{
    if n > 0 {
        lemma_hex_digits_lack_brace(v / 16, (n - 1) as nat);
        let d = v % 16;
        assert(hex_char(d) != '{');
        let h = hex_digits(v, n);
        assert forall|i: int| 0 <= i < h.len() implies h[i] != '{' by {
            if i < h.len() - 1 {
                assert(h[i] == hex_digits(v / 16, (n - 1) as nat)[i]);
            }
        }
    }
}

/// `s` with every occurrence of `from` (taken left to right, without overlap)
/// replaced by `to`; what `str::replace` computes for a non-empty `from`.
pub open spec fn replace_all(s: Seq<char>, from: Seq<char>, to: Seq<char>) -> Seq<char>
    decreases s.len(),
{
    if s.len() == 0 {
        Seq::empty()
    } else if 0 < from.len() <= s.len() && s.subrange(0, from.len() as int) == from {
        to + replace_all(s.skip(from.len() as int), from, to)
    } else {
        seq![s[0]] + replace_all(s.skip(1), from, to)
    }
}

/// The characters of `s`.
pub fn str_chars(s: &str) -> (r: Vec<char>)
    ensures
        r@ == s@,
{
    broadcast use vstd::string::axiom_spec_iter;

    let mut v: Vec<char> = Vec::new();
    for c in it: s.chars()
        invariant
            v@ == it.seq().subrange(0, it.index() as int),
    {
        v.push(c);
    }
    v
}

/// Whether `from` (non-empty) occurs in `s` at position `i`.
fn occurs_at(s: &[char], i: usize, from: &[char]) -> (r: bool)
    requires
        i <= s@.len(),
    ensures
        r == (0 < from@.len() <= s@.len() - i && s@.skip(i as int).subrange(0, from@.len() as int)
            == from@),
{
    if from.len() == 0 || from.len() > s.len() - i {
        return false;
    }
    let n = s.len();
    let mut k: usize = 0;
    while k < from.len()
        invariant
            k <= from@.len(),
            n == s@.len(),
            i <= s@.len(),
            from@.len() <= s@.len() - i,
            forall|j: int| 0 <= j < k ==> s@[i + j] == from@[j],
        decreases from@.len() - k,
    {
        assert(i + k < s@.len());
        if s[i + k] != from[k] {
            assert(s@.skip(i as int).subrange(0, from@.len() as int)[k as int] != from@[k as int]);
            return false;
        }
        k = k + 1;
    }
    assert(s@.skip(i as int).subrange(0, from@.len() as int) =~= from@);
    true
}

/// Replaces every occurrence of `from` in `s` by `to`, left to right, as
/// `str::replace` does.
pub fn replace_str(s: &str, from: &str, to: &str) -> (r: String)
    requires
        from@.len() > 0,
    ensures
        r@ == replace_all(s@, from@, to@),
{
    let sc = str_chars(s);
    let fc = str_chars(from);
    let mut out = String::new();
    let mut i: usize = 0;
    assert(sc@.skip(0) =~= sc@);
    assert(out@ + replace_all(sc@, fc@, to@) =~= replace_all(sc@, fc@, to@));
    while i < sc.len()
        invariant
            i <= sc@.len(),
            sc@ == s@,
            fc@ == from@,
            from@.len() > 0,
            out@ + replace_all(sc@.skip(i as int), fc@, to@) == replace_all(sc@, fc@, to@),
        decreases sc@.len() - i,
    {
        let ghost rest = sc@.skip(i as int);
        if occurs_at(sc.as_slice(), i, fc.as_slice()) {
            assert(rest.skip(fc@.len() as int) =~= sc@.skip(i + fc@.len()));
            assert(out@ + to@ + replace_all(rest.skip(fc@.len() as int), fc@, to@) =~= out@ + (to@
                + replace_all(rest.skip(fc@.len() as int), fc@, to@)));
            out.append(to);
            i = i + fc.len();
        } else {
            assert(rest.skip(1) =~= sc@.skip(i + 1));
            assert(rest[0] == sc@[i as int]);
            assert(out@.push(sc@[i as int]) + replace_all(rest.skip(1), fc@, to@) =~= out@ + (seq![
                rest[0],
            ] + replace_all(rest.skip(1), fc@, to@)));
            string_push(&mut out, sc[i]);
            i = i + 1;
        }
    }
    assert(sc@.skip(i as int) =~= Seq::<char>::empty());
    assert(out@ + Seq::<char>::empty() =~= out@);
    out
}

} // verus!
