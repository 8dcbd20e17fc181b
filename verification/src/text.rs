//! Substring search over character sequences, the one string primitive the
//! log parser is built on.

use vstd::prelude::*;
use vstd::string::StrSliceExecFns;

verus! {

/// Holds when `pat` occurs in `s` starting at character position `i`.
pub open spec fn match_at(s: Seq<char>, pat: Seq<char>, i: int) -> bool {
    &&& 0 <= i
    &&& i + pat.len() <= s.len()
    &&& s.subrange(i, i + pat.len() as int) == pat
}

/// Character position of the first occurrence of `pat` in `s` at or after
/// position `from`, if any.
pub open spec fn find_from_spec(s: Seq<char>, pat: Seq<char>, from: int) -> Option<int>
    decreases s.len() + 1 - from,
{
    if from < 0 || from + pat.len() > s.len() {
        None
    } else if match_at(s, pat, from) {
        Some(from)
    } else {
        find_from_spec(s, pat, from + 1)
    }
}

/// Character position of the first occurrence of `pat` in `s`, if any.
pub open spec fn find_spec(s: Seq<char>, pat: Seq<char>) -> Option<int> {
    find_from_spec(s, pat, 0)
}

/// Whether `pat` occurs anywhere in `s`.
pub open spec fn contains_seq(s: Seq<char>, pat: Seq<char>) -> bool {
    find_spec(s, pat) is Some
}

/// `find_from_spec` returns exactly the first match position at or after
/// `from`: a returned position matches and nothing before it does, and `None`
/// means nothing matches anywhere at or after `from`.
pub proof fn lemma_find_from_spec(s: Seq<char>, pat: Seq<char>, from: int)
    requires
        0 <= from,
    ensures
        match find_from_spec(s, pat, from) {
            Some(i) => {
                &&& from <= i
                &&& match_at(s, pat, i)
                &&& forall|j: int| from <= j < i ==> !match_at(s, pat, j)
            },
            None => forall|j: int| from <= j ==> !match_at(s, pat, j),
        },
    decreases s.len() + 1 - from,
{
    if from + pat.len() > s.len() {
    } else if match_at(s, pat, from) {
    } else {
        lemma_find_from_spec(s, pat, from + 1);
    }
}

/// Find the first occurrence of `pat` in `s` at or after character position
/// `from`, by character-wise comparison.
pub fn find_str_from(s: &str, pat: &str, from: usize) -> (r: Option<usize>)
    ensures
        match r {
            Some(i) => find_from_spec(s@, pat@, from as int) == Some(i as int),
            None => find_from_spec(s@, pat@, from as int) is None,
        },
{
    let n = s.unicode_len();
    let m = pat.unicode_len();
    if m > n || from > n - m {
        return None;
    }
    let mut i = from;
    while i <= n - m
        invariant
            m <= n,
            n == s@.len(),
            m == pat@.len(),
            from <= i,
            i <= n - m + 1,
            find_from_spec(s@, pat@, from as int) == find_from_spec(s@, pat@, i as int),
        decreases n - i,
    {
        let mut j: usize = 0;
        let mut matched = true;
        while matched && j < m
            invariant
                j <= m,
                i + m <= n,
                n == s@.len(),
                m == pat@.len(),
                matched ==> forall|k: int| 0 <= k < j ==> s@[i + k] == pat@[k],
                !matched ==> exists|k: int| 0 <= k < m && s@[i + k] != pat@[k],
            decreases m - j + (if matched { 1int } else { 0int }),
        {
            if s.get_char(i + j) != pat.get_char(j) {
                matched = false;
            } else {
                j += 1;
            }
        }
        if matched {
            proof {
                assert(s@.subrange(i as int, i as int + pat@.len() as int) =~= pat@);
            }
            return Some(i);
        }
        proof {
            assert(!match_at(s@, pat@, i as int)) by {
                if match_at(s@, pat@, i as int) {
                    let k = choose|k: int| 0 <= k < m && s@[i + k] != pat@[k];
                    assert(s@.subrange(i as int, i as int + pat@.len() as int)[k] == pat@[k]);
                }
            }
        }
        i += 1;
    }
    None
}

/// Whether `pat` occurs anywhere in `s`.
pub fn contains_str(s: &str, pat: &str) -> (r: bool)
    ensures
        r == contains_seq(s@, pat@),
{
    match find_str_from(s, pat, 0) {
        Some(_) => true,
        None => false,
    }
}

} // verus!
