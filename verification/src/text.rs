//! Character-level string utilities used by the rest of the library.

use vstd::prelude::*;
use vstd::string::StrSliceExecFns;

verus! {

/// String equality by a character scan: the result is exactly the equality
/// of the two character sequences.
pub fn str_eq(a: &str, b: &str) -> (r: bool)
    ensures
        r == (a@ == b@),
{
    let a_len = a.unicode_len();
    let b_len = b.unicode_len();
    if a_len != b_len {
        return false;
    }
    let mut i: usize = 0;
    while i < a_len
        invariant
            a_len == a@.len(),
            b_len == b@.len(),
            a_len == b_len,
            i <= a_len,
            forall|k: int| 0 <= k < i ==> a@[k] == b@[k],
        decreases a_len - i,
    {
        if a.get_char(i) != b.get_char(i) {
            return false;
        }
        i += 1;
    }
    proof {
        assert(a@ =~= b@);
    }
    true
}

/// Whitespace as the standard library decides it: the Unicode
/// `White_Space` property of a character, a fixed function of the
/// character alone.
pub uninterp spec fn is_unicode_whitespace(c: char) -> bool;

/// Relies on char::is_whitespace: true exactly for characters with the
/// Unicode `White_Space` property, depending on the character alone.
#[verifier::external_body]
fn char_is_whitespace(c: char) -> (r: bool)
    ensures
        r == is_unicode_whitespace(c),
{
    c.is_whitespace()
}

/// `r` is `s` stripped of leading and trailing whitespace: a contiguous
/// slice of `s` whose removed borders are all whitespace and which itself
/// neither starts nor ends with a whitespace character. Exactly one `r`
/// satisfies this for a given `s` (`lemma_trimmed_unique`).
pub open spec fn is_trimmed_of(r: Seq<char>, s: Seq<char>) -> bool {
    exists|i: int, j: int|
        {
            &&& 0 <= i <= j <= s.len()
            &&& r == s.subrange(i, j)
            &&& (forall|k: int| 0 <= k < i ==> is_unicode_whitespace(s[k]))
            &&& (forall|k: int| j <= k < s.len() ==> is_unicode_whitespace(s[k]))
            &&& (i == j || (!is_unicode_whitespace(s[i]) && !is_unicode_whitespace(s[j - 1])))
        }
}

/// Trimming is a function: for any `s` at most one sequence is the trimmed
/// form of `s`.
pub proof fn lemma_trimmed_unique(r1: Seq<char>, r2: Seq<char>, s: Seq<char>)
    requires
        is_trimmed_of(r1, s),
        is_trimmed_of(r2, s),
    ensures
        r1 == r2,
{
    let (i1, j1): (int, int) = choose|i: int, j: int|
        {
            &&& 0 <= i <= j <= s.len()
            &&& r1 == s.subrange(i, j)
            &&& (forall|k: int| 0 <= k < i ==> is_unicode_whitespace(s[k]))
            &&& (forall|k: int| j <= k < s.len() ==> is_unicode_whitespace(s[k]))
            &&& (i == j || (!is_unicode_whitespace(s[i]) && !is_unicode_whitespace(s[j - 1])))
        };
    let (i2, j2): (int, int) = choose|i: int, j: int|
        {
            &&& 0 <= i <= j <= s.len()
            &&& r2 == s.subrange(i, j)
            &&& (forall|k: int| 0 <= k < i ==> is_unicode_whitespace(s[k]))
            &&& (forall|k: int| j <= k < s.len() ==> is_unicode_whitespace(s[k]))
            &&& (i == j || (!is_unicode_whitespace(s[i]) && !is_unicode_whitespace(s[j - 1])))
        };
    if i1 == j1 && i2 == j2 {
        assert(r1 =~= r2);
    } else if i1 == j1 {
        // r2 claims a non-whitespace character at i2, yet every position
        // outside the empty window [i1, i1) is whitespace.
        assert(is_unicode_whitespace(s[i2]));
        assert(false);
    } else if i2 == j2 {
        assert(is_unicode_whitespace(s[i1]));
        assert(false);
    } else {
        assert(i1 == i2) by {
            if i1 < i2 {
                assert(is_unicode_whitespace(s[i1]));
            }
            if i2 < i1 {
                assert(is_unicode_whitespace(s[i2]));
            }
        }
        assert(j1 == j2) by {
            if j1 < j2 {
                assert(is_unicode_whitespace(s[j2 - 1]));
            }
            if j2 < j1 {
                assert(is_unicode_whitespace(s[j1 - 1]));
            }
        }
        assert(r1 =~= r2);
    }
}

/// Removes leading and trailing whitespace, as the resolver does to the
/// raw response body before treating it as the current public IP.
pub fn trim_whitespace(s: &str) -> (r: String)
    ensures
        is_trimmed_of(r@, s@),
{
    let len = s.unicode_len();
    let mut start: usize = 0;
    while start < len && char_is_whitespace(s.get_char(start))
        invariant
            len == s@.len(),
            start <= len,
            forall|k: int| 0 <= k < start ==> is_unicode_whitespace(s@[k]),
        decreases len - start,
    {
        start += 1;
    }
    if start == len {
        let r = String::new();
        proof {
            assert(r@ =~= s@.subrange(len as int, len as int));
        }
        return r;
    }
    let mut end: usize = len;
    while end > start && char_is_whitespace(s.get_char(end - 1))
        invariant
            len == s@.len(),
            start < len,
            !is_unicode_whitespace(s@[start as int]),
            start <= end <= len,
            forall|k: int| end <= k < len ==> is_unicode_whitespace(s@[k]),
        decreases end,
    {
        end -= 1;
    }
    proof {
        // The window cannot close completely: s[start] is not whitespace,
        // so the scan from the right stops at or after start + 1.
        if end == start {
            assert(is_unicode_whitespace(s@[start as int]));
        }
    }
    let piece = s.substring_char(start, end);
    let r = piece.to_owned();
    proof {
        assert(r@ == s@.subrange(start as int, end as int));
    }
    r
}

} // verus!
