//! Text helpers: views of string lists, and the standard-library string
//! operations whose behaviour is taken on trust.

use vstd::prelude::*;
use vstd::string::*;

verus! {

/// The contents of a list of strings, as sequences of characters.
pub open spec fn texts(v: Seq<String>) -> Seq<Seq<char>> {
    v.map_values(|s: String| s@)
}

/// `s` without its leading and trailing Unicode whitespace.
pub uninterp spec fn trimmed(s: Seq<char>) -> Seq<char>;

/// The Unicode lowercase form of `s`.
pub uninterp spec fn lowercased(s: Seq<char>) -> Seq<char>;

/// The lines of `s`, without their line endings.
pub uninterp spec fn line_seq(s: Seq<char>) -> Seq<Seq<char>>;

/// The text that `bytes` decode to as UTF-8, with each invalid stretch
/// replaced by U+FFFD.
pub uninterp spec fn lossy_text(bytes: Seq<u8>) -> Seq<char>;

/// Trusted: `str::trim`. The result is a function of the characters of `s`
/// alone, named `trimmed`.
#[verifier::external_body]
pub(crate) fn trim(s: &str) -> (r: String)
    ensures
        r@ == trimmed(s@),
{
    s.trim().to_string()
}

/// Trusted: `str::to_lowercase`. The result is a function of the characters
/// of `s` alone, named `lowercased`.
#[verifier::external_body]
pub(crate) fn to_lowercase(s: &str) -> (r: String)
    ensures
        r@ == lowercased(s@),
{
    s.to_lowercase()
}

/// Trusted: `str::lines`. The lines it yields, in order, are a function of
/// the characters of `s` alone, named `line_seq`.
#[verifier::external_body]
pub(crate) fn lines(s: &str) -> (r: Vec<String>)
    ensures
        texts(r@) == line_seq(s@),
{
    s.lines().map(|l| l.to_string()).collect()
}

/// Trusted: `String::from_utf8_lossy`. The decoded text is a function of the
/// bytes alone, named `lossy_text`.
#[verifier::external_body]
pub(crate) fn from_utf8_lossy(bytes: &[u8]) -> (r: String)
    ensures
        r@ == lossy_text(bytes@),
{
    String::from_utf8_lossy(bytes).into_owned()
}

/// Trusted: `str::starts_with` with a string pattern. It answers whether the
/// characters of `prefix` are the first characters of `s`.
#[verifier::external_body]
pub(crate) fn starts_with(s: &str, prefix: &str) -> (r: bool)
    ensures
        r == prefix@.is_prefix_of(s@),
{
    s.starts_with(prefix)
}

/// Appends one string to a list of strings.
pub fn push_text(out: &mut Vec<String>, s: String)
    ensures
        texts(final(out)@) == texts(old(out)@).push(s@),
{
    out.push(s);
    assert(texts(out@) =~= texts(old(out)@).push(s@));
}

/// A copy of a list of strings.
pub fn clone_texts(v: &Vec<String>) -> (r: Vec<String>)
    ensures
        texts(r@) == texts(v@),
{
    let mut r: Vec<String> = Vec::new();
    let mut i: usize = 0;
    while i < v.len()
        invariant
            i <= v.len(),
            texts(r@) == texts(v@.take(i as int)),
        decreases v.len() - i,
    {
        let s = v[i].clone();
        push_text(&mut r, s);
        assert(texts(v@.take(i as int)).push(v[i as int]@) =~= texts(v@.take(i + 1)));
        i += 1;
    }
    assert(v@.take(v.len() as int) =~= v@);
    r
}

/// Whether `needle` occurs in `v`.
pub fn contains_text(v: &Vec<String>, needle: &String) -> (r: bool)
    ensures
        r == texts(v@).contains(needle@),
{
    let mut i: usize = 0;
    while i < v.len()
        invariant
            i <= v.len(),
            forall|j: int| 0 <= j < i ==> texts(v@)[j] != needle@,
        decreases v.len() - i,
    {
        if v[i] == *needle {
            assert(texts(v@)[i as int] == needle@);
            return true;
        }
        i += 1;
    }
    false
}

} // verus!
