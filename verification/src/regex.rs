//! Matching texts against the patterns the tools accept.

use vstd::prelude::*;
use crate::text::{str_chars, string_push};

verus! {

#[verifier::external_type_specification]
#[verifier::external_body]
pub struct ExRegex(regex::Regex);

/// Whether the regex crate accepts `pattern` (with its default size limits).
pub uninterp spec fn regex_compiles(pattern: Seq<char>) -> bool;

/// Whether `pattern` matches somewhere in `text`.
pub uninterp spec fn regex_finds(pattern: Seq<char>, text: Seq<char>) -> bool;

/// Calls `regex::Regex::new`, which accepts the pattern or refuses it with an
/// error; the error is mapped to `None`.
#[verifier::external_body]
fn regex_new(pattern: &str) -> (r: Option<regex::Regex>)
    ensures
        r is Some <==> regex_compiles(pattern@),
{
    regex::Regex::new(pattern).ok()
}

/// A compiled regular expression together with its pattern.
pub struct OveyRegex {
    pattern: String,
    re: regex::Regex,
}

impl View for OveyRegex {
    type V = Seq<char>;

    closed spec fn view(&self) -> Seq<char> {
        self.pattern@
    }
}

/// Calls `regex::Regex::is_match` on the compiled form of `regex`.
#[verifier::external_body]
fn is_match(regex: &OveyRegex, text: &str) -> (r: bool)
    ensures
        r == regex_finds(regex@, text@),
{
    regex.re.is_match(text)
}

impl OveyRegex {
    /// Compiles `pattern`; `None` where the regex crate refuses it.
    pub fn new(pattern: &str) -> (r: Option<OveyRegex>)
        ensures
            r is Some <==> regex_compiles(pattern@),
            r matches Some(x) ==> x@ == pattern@,
    {
        match regex_new(pattern) {
            Some(re) => Some(OveyRegex { pattern: pattern.to_string(), re: re }),
            None => None,
        }
    }

    /// The pattern this regex was compiled from.
    pub fn as_str(&self) -> (r: &str)
        ensures
            r@ == self@,
    {
        self.pattern.as_str()
    }

    /// Whether the pattern matches somewhere in `text`.
    pub fn is_match(&self, text: &str) -> (r: bool)
        ensures
            r == regex_finds(self@, text@),
    {
        is_match(self, text)
    }
}

/// The pattern that matches exactly the texts `pattern` matches as a whole: it
/// is wrapped in a group anchored at the start and at the end of the text.
pub open spec fn anchored(pattern: Seq<char>) -> Seq<char> {
    seq!['^', '(', '?', ':'] + pattern + seq![')', '$']
}

/// The pattern `anchored` makes of `pattern`.
fn anchored_pattern(pattern: &str) -> (r: String)
    ensures
        r@ == anchored(pattern@),
{
    let chars = str_chars(pattern);
    let mut out = String::new();
    string_push(&mut out, '^');
    string_push(&mut out, '(');
    string_push(&mut out, '?');
    string_push(&mut out, ':');
    let mut i: usize = 0;
    while i < chars.len()
        invariant
            i <= chars@.len(),
            chars@ == pattern@,
            out@ == seq!['^', '(', '?', ':'] + chars@.subrange(0, i as int),
        decreases chars@.len() - i,
    {
        string_push(&mut out, chars[i]);
        assert(out@ =~= seq!['^', '(', '?', ':'] + chars@.subrange(0, i as int + 1));
        i = i + 1;
    }
    string_push(&mut out, ')');
    string_push(&mut out, '$');
    assert(chars@.subrange(0, chars@.len() as int) =~= chars@);
    assert(out@ =~= anchored(pattern@));
    out
}

/// Whether `text` as a whole matches `pattern`: the anchored form of the
/// pattern compiles and matches the text.
pub open spec fn full_match(pattern: Seq<char>, text: Seq<char>) -> bool {
    regex_compiles(anchored(pattern)) && regex_finds(anchored(pattern), text)
}

/// Tests whether a text matches the regex entirely. Otherwise
/// "ovey01515afaf" would be a valid input for "ovey[0-9]+" because
/// the Regex matches a substring of the input.
pub fn regex_is_full_match(regex: &OveyRegex, text: &str) -> (r: bool)
    ensures
        r == full_match(regex@, text@),
{
    let whole = anchored_pattern(regex.as_str());
    match OveyRegex::new(whole.as_str()) {
        Some(a) => a.is_match(text),
        None => false,
    }
}

/// The names among `names` in which `regex` matches, in their order.
pub fn select_matching(regex: &OveyRegex, names: &[String]) -> (r: Vec<String>)
    ensures
        r@.map_values(|s: String| s@) == names@.map_values(|s: String| s@).filter(
            |t: Seq<char>| regex_finds(regex@, t),
        ),
{
    let ghost f = |t: Seq<char>| regex_finds(regex@, t);
    let ghost nv = names@.map_values(|s: String| s@);
    let mut out: Vec<String> = Vec::new();
    let mut i: usize = 0;
    while i < names.len()
        invariant
            i <= names@.len(),
            nv == names@.map_values(|s: String| s@),
            f == (|t: Seq<char>| regex_finds(regex@, t)),
            out@.map_values(|s: String| s@) == nv.subrange(0, i as int).filter(f),
        decreases names@.len() - i,
    {
        let ghost before = out@;
        proof {
            reveal(Seq::filter);
            assert(nv.subrange(0, i as int + 1).drop_last() =~= nv.subrange(0, i as int));
            assert(nv.subrange(0, i as int + 1).last() == nv[i as int]);
            assert(nv[i as int] == names@[i as int]@);
        }
        if regex.is_match(names[i].as_str()) {
            let name = names[i].clone();
            out.push(name);
            proof {
                assert(out@.map_values(|s: String| s@) =~= before.map_values(|s: String| s@).push(
                    nv[i as int],
                ));
            }
        }
        i = i + 1;
    }
    assert(nv.subrange(0, nv.len() as int) =~= nv);
    out
}

} // verus!
