//! Small verified utilities on character sequences: equality and prefix
//! tests for string slices, and the position of the first character that
//! satisfies a predicate, which the image-reference and inventory parsers
//! are specified with.

use vstd::prelude::*;

verus! {

/// The index of the first character of `s` satisfying `p`, or `s.len()`
/// when no character does.
pub open spec fn spec_first_where(s: Seq<char>, p: spec_fn(char) -> bool) -> int
    decreases s.len(),
{
    if s.len() == 0 {
        0
    } else if p(s[0]) {
        0
    } else {
        1 + spec_first_where(s.skip(1), p)
    }
}

/// `spec_first_where` is pinned down by its characteristic properties:
/// nothing before index `i` satisfies `p`, and `i` is either a position
/// satisfying `p` or the end of the sequence.
pub proof fn lemma_first_where_is(s: Seq<char>, p: spec_fn(char) -> bool, i: int)
    requires
        0 <= i <= s.len(),
        forall|k: int| 0 <= k < i ==> !p(s[k]),
        i < s.len() ==> p(s[i]),
    ensures
        spec_first_where(s, p) == i,
    decreases s.len(),
{
    if s.len() == 0 {
    } else if p(s[0]) {
        assert(i == 0);
    } else {
        assert(i >= 1);
        lemma_first_where_is(s.skip(1), p, i - 1);
    }
}

/// The position `spec_first_where` names has the characteristic
/// properties: it is in bounds, nothing before it satisfies `p`, and it
/// satisfies `p` unless it is the end.
pub proof fn lemma_first_where_bounds(s: Seq<char>, p: spec_fn(char) -> bool)
    ensures
        0 <= spec_first_where(s, p) <= s.len(),
        forall|k: int| 0 <= k < spec_first_where(s, p) ==> !p(s[k]),
        spec_first_where(s, p) < s.len() ==> p(s[spec_first_where(s, p)]),
    decreases s.len(),
{
    if s.len() == 0 {
    } else if p(s[0]) {
    } else {
        lemma_first_where_bounds(s.skip(1), p);
        assert forall|k: int| 0 <= k < spec_first_where(s, p) implies !p(s[k]) by {
            if k >= 1 {
                assert(s.skip(1)[k - 1] == s[k]);
            }
        }
    }
}

/// Character-by-character equality of two string slices.
pub fn str_eq(a: &str, b: &str) -> (r: bool)
    ensures
        r == (a@ == b@),
{
    let na = a.unicode_len();
    let nb = b.unicode_len();
    if na != nb {
        return false;
    }
    let mut i: usize = 0;
    while i < na
        invariant
            na == a@.len(),
            na == b@.len(),
            i <= na,
            forall|k: int| 0 <= k < i ==> a@[k] == b@[k],
        decreases na - i,
    {
        if a.get_char(i) != b.get_char(i) {
            return false;
        }
        i = i + 1;
    }
    proof {
        assert(a@ =~= b@);
    }
    true
}

/// Whether `prefix` is a prefix of `s`, character by character.
pub fn str_starts_with(s: &str, prefix: &str) -> (r: bool)
    ensures
        r == prefix@.is_prefix_of(s@),
{
    let np = prefix.unicode_len();
    let ns = s.unicode_len();
    if ns < np {
        return false;
    }
    let mut i: usize = 0;
    while i < np
        invariant
            np == prefix@.len(),
            ns == s@.len(),
            np <= ns,
            i <= np,
            forall|k: int| 0 <= k < i ==> s@[k] == prefix@[k],
        decreases np - i,
    {
        if s.get_char(i) != prefix.get_char(i) {
            assert(!prefix@.is_prefix_of(s@)) by {
                assert(s@.take(np as int)[i as int] == s@[i as int]);
            }
            return false;
        }
        i = i + 1;
    }
    proof {
        assert(s@.take(np as int) =~= prefix@);
    }
    true
}

} // verus!
