//! Character and string helpers shared by the tokenizer, the completion
//! engine and the help renderer.

use vstd::prelude::*;
use vstd::string::*;

verus! {

/// The whitespace characters that separate tokens on an input line.
pub open spec fn is_ws(c: char) -> bool {
    c == ' ' || c == '\t' || c == '\n' || c == '\r'
}

/// Executable counterpart of [`is_ws`].
pub fn is_whitespace_char(c: char) -> (r: bool)
    ensures
        r == is_ws(c),
{
    c == ' ' || c == '\t' || c == '\n' || c == '\r'
}

/// The view of an optional string.
pub open spec fn opt_view(o: Option<String>) -> Option<Seq<char>> {
    match o {
        Some(s) => Some(s@),
        None => None,
    }
}

/// Relies on `String::push`: appends one character at the end of the string.
#[verifier::external_body]
pub(crate) fn push_char(s: &mut String, c: char)
    ensures
        final(s)@ == old(s)@.push(c),
{
    s.push(c);
}

/// Whether `p` is a prefix of `s`, comparing character by character.
pub fn str_starts_with(s: &str, p: &str) -> (r: bool)
    ensures
        r == p@.is_prefix_of(s@),
{
    let sn = s.unicode_len();
    let pn = p.unicode_len();
    if pn > sn {
        proof {
            assert(!p@.is_prefix_of(s@));
        }
        return false;
    }
    for i in 0..pn
        invariant
            pn == p@.len(),
            sn == s@.len(),
            pn <= sn,
            forall|k: int| 0 <= k < i ==> s@[k] == p@[k],
    {
        if s.get_char(i) != p.get_char(i) {
            proof {
                assert(s@.subrange(0, pn as int)[i as int] != p@[i as int]);
                assert(!p@.is_prefix_of(s@));
            }
            return false;
        }
    }
    proof {
        assert(p@ =~= s@.subrange(0, pn as int));
    }
    true
}

/// Whether the two strings hold the same characters.
pub fn str_eq(s: &str, t: &str) -> (r: bool)
    ensures
        r == (s@ == t@),
{
    let sn = s.unicode_len();
    let tn = t.unicode_len();
    if sn != tn {
        return false;
    }
    for i in 0..sn
        invariant
            sn == s@.len(),
            sn == tn,
            tn == t@.len(),
            forall|k: int| 0 <= k < i ==> s@[k] == t@[k],
    {
        if s.get_char(i) != t.get_char(i) {
            return false;
        }
    }
    proof {
        assert(s@ =~= t@);
    }
    true
}

/// Whether any character of `s` is whitespace.
pub fn contains_whitespace(s: &str) -> (r: bool)
    ensures
        r == exists|k: int| 0 <= k < s@.len() && is_ws(s@[k]),
{
    let n = s.unicode_len();
    for i in 0..n
        invariant
            n == s@.len(),
            forall|k: int| 0 <= k < i ==> !is_ws(s@[k]),
    {
        if is_whitespace_char(s.get_char(i)) {
            return true;
        }
    }
    false
}

} // verus!
