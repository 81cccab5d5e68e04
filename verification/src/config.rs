//! Parsing the configured subdomain list: a comma-separated string becomes
//! the ordered subdomains of every cycle, each piece trimmed. A string
//! without commas is a single piece, so the empty string yields one empty
//! subdomain, which stands for the bare domain.

use vstd::prelude::*;
use vstd::string::StrSliceExecFns;

use crate::text::{is_trimmed_of, trim_whitespace};

verus! {

/// The position of the first comma in `s`, or `s.len()` when `s` has none.
pub open spec fn first_comma(s: Seq<char>) -> nat
    decreases s.len(),
{
    if s.len() == 0 {
        0
    } else if s[0] == ',' {
        0
    } else {
        1 + first_comma(s.skip(1))
    }
}

/// `first_comma` is exactly the position of the first comma: the position
/// `c` with no comma before it and a comma at it (or the length, when no
/// comma exists).
pub proof fn lemma_first_comma_at(s: Seq<char>, c: int)
    requires
        0 <= c <= s.len(),
        forall|k: int| 0 <= k < c ==> s[k] != ',',
        c < s.len() ==> s[c] == ',',
    ensures
        first_comma(s) == c,
    decreases s.len(),
{
    if s.len() == 0 {
    } else if s[0] == ',' {
        if c > 0 {
            assert(s[0] != ',');
        }
    } else {
        assert(c > 0) by {
            if c == 0 {
                assert(s[c] == ',');
            }
        }
        let t = s.skip(1);
        assert(forall|k: int| 0 <= k < c - 1 ==> t[k] != ',') by {
            assert(forall|k: int| 0 <= k < c - 1 ==> t[k] == s[k + 1]);
        }
        assert(c - 1 < t.len() ==> t[c - 1] == ',');
        lemma_first_comma_at(t, c - 1);
    }
}

/// The comma-separated pieces of `s`, in order, commas removed. There is
/// always at least one piece; two adjacent commas enclose an empty piece.
pub open spec fn split_commas(s: Seq<char>) -> Seq<Seq<char>>
    decreases s.len(),
{
    let c = first_comma(s);
    if c >= s.len() {
        seq![s]
    } else {
        seq![s.subrange(0, c as int)] + split_commas(s.subrange(c as int + 1, s.len() as int))
    }
}

/// There is always at least one piece, whatever `s` holds.
pub proof fn lemma_split_commas_nonempty(s: Seq<char>)
    ensures
        split_commas(s).len() >= 1,
{
    let c = first_comma(s);
    if c >= s.len() {
        assert(split_commas(s) =~= seq![s]);
    }
}

/// Splits the configured subdomain string on commas and trims each piece:
/// the result has one entry per comma-separated piece, in order, and each
/// entry is the trimmed form of its piece.
pub fn parse_subdomains(s: &str) -> (r: Vec<String>)
    ensures
        r@.len() == split_commas(s@).len(),
        forall|k: int| 0 <= k < r@.len() ==> is_trimmed_of(#[trigger] r@[k]@, split_commas(s@)[k]),
{
    let len = s.unicode_len();
    let mut out: Vec<String> = Vec::new();
    let mut start: usize = 0;
    let mut i: usize = 0;
    proof {
        assert(s@.skip(0) =~= s@);
    }
    while i < len
        invariant
            len == s@.len(),
            start <= i <= len,
            forall|k: int| start <= k < i ==> s@[k] != ',',
            split_commas(s@).skip(out@.len() as int) =~= split_commas(s@.skip(start as int)),
            out@.len() <= split_commas(s@).len(),
            forall|k: int| 0 <= k < out@.len() ==> is_trimmed_of(
                #[trigger] out@[k]@,
                split_commas(s@)[k],
            ),
        decreases len - i,
    {
        if s.get_char(i) == ',' {
            let piece = s.substring_char(start, i);
            let trimmed = trim_whitespace(piece);
            proof {
                let t = s@.skip(start as int);
                let c = i - start;
                assert(forall|k: int| 0 <= k < c ==> t[k] == s@[k + start] && t[k] != ',');
                assert(t[c] == s@[i as int]);
                lemma_first_comma_at(t, c);
                assert(t.subrange(0, c) =~= s@.subrange(start as int, i as int));
                assert(t.subrange(c + 1, t.len() as int) =~= s@.skip(i as int + 1));
                let n = out@.len() as int;
                lemma_split_commas_nonempty(t);
                assert(n < split_commas(s@).len());
                assert(split_commas(t) =~= seq![t.subrange(0, c)] + split_commas(
                    t.subrange(c + 1, t.len() as int),
                ));
                assert(split_commas(s@)[n] == split_commas(s@).skip(n)[0]);
                assert(split_commas(s@)[n] == s@.subrange(start as int, i as int));
                assert(split_commas(s@).skip(n + 1) =~= split_commas(s@).skip(n).skip(1));
                assert(split_commas(s@).skip(n + 1) =~= split_commas(s@.skip(i as int + 1)));
            }
            out.push(trimmed);
            start = i + 1;
        }
        i += 1;
    }
    let last = s.substring_char(start, len);
    let trimmed = trim_whitespace(last);
    proof {
        let t = s@.skip(start as int);
        let c = len - start;
        assert(forall|k: int| 0 <= k < c ==> t[k] == s@[k + start] && t[k] != ',');
        lemma_first_comma_at(t, c);
        let n = out@.len() as int;
        lemma_split_commas_nonempty(t);
        assert(n < split_commas(s@).len());
        assert(t =~= s@.subrange(start as int, len as int));
        assert(split_commas(t) =~= seq![t]);
        assert(split_commas(s@)[n] == split_commas(s@).skip(n)[0]);
        assert(split_commas(s@)[n] == t);
        assert(split_commas(s@).len() == n + 1);
    }
    out.push(trimmed);
    out
}

} // verus!
