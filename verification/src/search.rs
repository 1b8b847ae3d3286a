//! Verified first-occurrence search of a pattern inside a sequence, over
//! bytes and over characters.

use vstd::prelude::*;

verus! {

/// `pat` occurs in `s` at position `i`.
pub open spec fn spec_match_at<T>(s: Seq<T>, pat: Seq<T>, i: int) -> bool {
    0 <= i && i + pat.len() <= s.len() && s.subrange(i, i + pat.len()) == pat
}

/// The first position at or after `from` where `pat` occurs in `s`.
pub open spec fn spec_find<T>(s: Seq<T>, pat: Seq<T>, from: int) -> Option<int>
    decreases s.len() + 1 - from,
    when 0 <= from
{
    if from + pat.len() > s.len() {
        None
    } else if spec_match_at(s, pat, from) {
        Some(from)
    } else {
        spec_find(s, pat, from + 1)
    }
}

/// Compare `pat` against `s` at position `i`.
fn match_at_u8(s: &Vec<u8>, pat: &Vec<u8>, i: usize) -> (r: bool)
    requires
        i + pat@.len() <= s@.len(),
    ensures
        r == spec_match_at(s@, pat@, i as int),
{
    let slen = s.len();
    let m = pat.len();
    let mut j: usize = 0;
    while j < m
        invariant
            slen == s@.len(),
            m == pat@.len(),
            i + m <= slen,
            j <= m,
            forall|k: int| 0 <= k < j ==> s@[i + k] == pat@[k],
        decreases m - j,
    {
        if s[i + j] != pat[j] {
            assert(s@.subrange(i as int, i + m) != pat@) by {
                assert(s@.subrange(i as int, i + m)[j as int] == s@[i + j]);
            }
            return false;
        }
        j = j + 1;
    }
    proof {
        assert(s@.subrange(i as int, i + m) =~= pat@);
    }
    true
}

/// Find the first occurrence of `pat` in `s` at or after `from`.
pub fn find_u8_from(s: &Vec<u8>, pat: &Vec<u8>, from: usize) -> (r: Option<usize>)
    ensures
        match r {
            Some(j) => spec_find(s@, pat@, from as int) == Some(j as int) && from <= j && j
                + pat@.len() <= s@.len(),
            None => spec_find(s@, pat@, from as int) is None,
        },
{
    let n = s.len();
    let m = pat.len();
    if m > n || from > n - m {
        return None;
    }
    let bound = n - m;
    let mut i: usize = from;
    while i < bound
        invariant
            n == s@.len(),
            m == pat@.len(),
            m <= n,
            bound == n - m,
            from <= i <= bound,
            spec_find(s@, pat@, from as int) == spec_find(s@, pat@, i as int),
        decreases bound - i,
    {
        if match_at_u8(s, pat, i) {
            return Some(i);
        }
        i = i + 1;
    }
    if match_at_u8(s, pat, bound) {
        proof {
            assert(spec_find(s@, pat@, bound as int) == Some(bound as int));
        }
        return Some(bound);
    }
    proof {
        assert(spec_find(s@, pat@, bound as int) == spec_find(s@, pat@, bound + 1));
        assert(spec_find(s@, pat@, bound + 1) is None);
    }
    None
}

/// Compare `pat` against `s` at position `i`.
pub(crate) fn match_at_chars(s: &Vec<char>, pat: &Vec<char>, i: usize) -> (r: bool)
    requires
        i + pat@.len() <= s@.len(),
    ensures
        r == spec_match_at(s@, pat@, i as int),
{
    let slen = s.len();
    let m = pat.len();
    let mut j: usize = 0;
    while j < m
        invariant
            slen == s@.len(),
            m == pat@.len(),
            i + m <= slen,
            j <= m,
            forall|k: int| 0 <= k < j ==> s@[i + k] == pat@[k],
        decreases m - j,
    {
        if s[i + j] != pat[j] {
            assert(s@.subrange(i as int, i + m) != pat@) by {
                assert(s@.subrange(i as int, i + m)[j as int] == s@[i + j]);
            }
            return false;
        }
        j = j + 1;
    }
    proof {
        assert(s@.subrange(i as int, i + m) =~= pat@);
    }
    true
}

/// Find the first occurrence of `pat` in `s` at or after `from`.
pub fn find_chars_from(s: &Vec<char>, pat: &Vec<char>, from: usize) -> (r: Option<usize>)
    ensures
        match r {
            Some(j) => spec_find(s@, pat@, from as int) == Some(j as int) && from <= j && j
                + pat@.len() <= s@.len(),
            None => spec_find(s@, pat@, from as int) is None,
        },
{
    let n = s.len();
    let m = pat.len();
    if m > n || from > n - m {
        return None;
    }
    let bound = n - m;
    let mut i: usize = from;
    while i < bound
        invariant
            n == s@.len(),
            m == pat@.len(),
            m <= n,
            bound == n - m,
            from <= i <= bound,
            spec_find(s@, pat@, from as int) == spec_find(s@, pat@, i as int),
        decreases bound - i,
    {
        if match_at_chars(s, pat, i) {
            return Some(i);
        }
        i = i + 1;
    }
    if match_at_chars(s, pat, bound) {
        proof {
            assert(spec_find(s@, pat@, bound as int) == Some(bound as int));
        }
        return Some(bound);
    }
    proof {
        assert(spec_find(s@, pat@, bound as int) == spec_find(s@, pat@, bound + 1));
        assert(spec_find(s@, pat@, bound + 1) is None);
    }
    None
}

/// A found position is itself a match, and the first one at or after `from`.
pub proof fn lemma_find_is_match<T>(s: Seq<T>, pat: Seq<T>, from: int, j: int)
    requires
        0 <= from,
        spec_find(s, pat, from) == Some(j),
    ensures
        spec_match_at(s, pat, j),
        from <= j,
        forall|k: int| from <= k < j ==> !spec_match_at(s, pat, k),
    decreases s.len() - from,
{
    if from + pat.len() <= s.len() && !spec_match_at(s, pat, from) {
        assert(pat.len() > 0) by {
            if pat.len() == 0 {
                assert(s.subrange(from, from + pat.len()) =~= pat);
            }
        }
        lemma_find_is_match(s, pat, from + 1, j);
    }
}

} // verus!
