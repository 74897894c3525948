//! Verified string helpers: equality, first-occurrence search and
//! replacement, all specified over character sequences.

use vstd::prelude::*;

verus! {

/// Character-wise string equality.
pub fn str_eq(a: &str, b: &str) -> (r: bool)
    ensures
        r == (a@ == b@),
{
    let a_len = a.unicode_len();
    let b_len = b.unicode_len();
    if a_len != b_len {
        return false;
    }
    let mut i: usize = 0;
    while i < a_len
        invariant
            i <= a_len,
            a_len == a@.len(),
            b_len == b@.len(),
            a_len == b_len,
            forall|k: int| 0 <= k < i ==> a@[k] == b@[k],
        decreases a_len - i,
    {
        if a.get_char(i) != b.get_char(i) {
            return false;
        }
        i += 1;
    }
    proof {
        assert(a@ =~= b@);
    }
    true
}

/// First index of the character `c` in `s`, if it occurs at all.
pub open spec fn spec_index_of(s: Seq<char>, c: char) -> Option<int>
    decreases s.len(),
{
    if s.len() == 0 {
        None
    } else if s[0] == c {
        Some(0int)
    } else {
        match spec_index_of(s.skip(1), c) {
            None => None,
            Some(i) => Some(i + 1),
        }
    }
}

proof fn lemma_index_of_none(s: Seq<char>, c: char)
    requires
        forall|k: int| 0 <= k < s.len() ==> s[k] != c,
    ensures
        spec_index_of(s, c) is None,
    decreases s.len(),
{
    if s.len() > 0 {
        lemma_index_of_none(s.skip(1), c);
    }
}

proof fn lemma_index_of_at(s: Seq<char>, c: char, i: int)
    requires
        0 <= i < s.len(),
        s[i] == c,
        forall|k: int| 0 <= k < i ==> s[k] != c,
    ensures
        spec_index_of(s, c) == Some(i),
    decreases i,
{
    if i > 0 {
        lemma_index_of_at(s.skip(1), c, i - 1);
    }
}

/// First index at which the character `c` occurs in `s`.
pub fn find_char(s: &str, c: char) -> (r: Option<usize>)
    ensures
        match r {
            Some(i) => i < s@.len() && s@[i as int] == c && (forall|k: int|
                0 <= k < i ==> s@[k] != c) && spec_index_of(s@, c) == Some(i as int),
            None => (forall|k: int| 0 <= k < s@.len() ==> s@[k] != c) && spec_index_of(s@, c)
                is None,
        },
{
    let s_len = s.unicode_len();
    let mut k: usize = 0;
    while k < s_len
        invariant
            s_len == s@.len(),
            k <= s_len,
            forall|j: int| 0 <= j < k ==> s@[j] != c,
        decreases s_len - k,
    {
        if s.get_char(k) == c {
            proof {
                lemma_index_of_at(s@, c, k as int);
            }
            return Some(k);
        }
        k += 1;
    }
    proof {
        lemma_index_of_none(s@, c);
    }
    None
}

/// First index of `pat` in `s`, if `pat` occurs in `s` at all.
pub open spec fn spec_find_pat(s: Seq<char>, pat: Seq<char>) -> Option<int>
    decreases s.len(),
{
    if pat.len() > s.len() {
        None
    } else if s.take(pat.len() as int) == pat {
        Some(0int)
    } else if s.len() == 0 {
        None
    } else {
        match spec_find_pat(s.skip(1), pat) {
            None => None,
            Some(i) => Some(i + 1),
        }
    }
}

/// `s` with the first occurrence of `pat` (if any) replaced by `rep`.
pub open spec fn spec_replace_first(s: Seq<char>, pat: Seq<char>, rep: Seq<char>) -> Seq<char> {
    match spec_find_pat(s, pat) {
        None => s,
        Some(i) => s.take(i) + rep + s.skip(i + pat.len()),
    }
}

proof fn lemma_find_pat_none(s: Seq<char>, pat: Seq<char>)
    requires
        forall|k: int| 0 <= k && k + pat.len() <= s.len() ==> #[trigger] s.subrange(k, k + pat.len()) != pat,
    ensures
        spec_find_pat(s, pat) is None,
    decreases s.len(),
{
    if pat.len() <= s.len() {
        assert(s.subrange(0int, 0int + pat.len() as int) != pat);
        assert(s.take(pat.len() as int) =~= s.subrange(0, pat.len() as int));
        if s.len() > 0 {
            assert forall|k: int| 0 <= k && k + pat.len() <= s.skip(1).len() implies #[trigger] s.skip(
                1,
            ).subrange(k, k + pat.len()) != pat by {
                assert(s.skip(1).subrange(k, k + pat.len()) =~= s.subrange(
                    k + 1,
                    k + 1 + pat.len(),
                ));
            }
            lemma_find_pat_none(s.skip(1), pat);
        }
    }
}

proof fn lemma_find_pat_at(s: Seq<char>, pat: Seq<char>, i: int)
    requires
        0 <= i,
        i + pat.len() <= s.len(),
        s.subrange(i, i + pat.len()) == pat,
        forall|k: int| 0 <= k < i ==> #[trigger] s.subrange(k, k + pat.len()) != pat,
    ensures
        spec_find_pat(s, pat) == Some(i),
    decreases i,
{
    assert(s.take(pat.len() as int) =~= s.subrange(0, pat.len() as int));
    if i == 0 {
        assert(s.take(pat.len() as int) == pat);
    } else {
        assert(s.subrange(0int, 0int + pat.len() as int) != pat);
        assert(s.subrange(0, pat.len() as int) != pat);
        assert forall|k: int| 0 <= k < i - 1 implies #[trigger] s.skip(1).subrange(k, k + pat.len())
            != pat by {
            assert(s.skip(1).subrange(k, k + pat.len()) =~= s.subrange(k + 1, k + 1 + pat.len()));
        }
        assert(s.skip(1).subrange(i - 1, i - 1 + pat.len()) =~= s.subrange(i, i + pat.len()));
        lemma_find_pat_at(s.skip(1), pat, i - 1);
    }
}

/// First index at which `pat` occurs in `s`, scanning left to right.
pub fn find_pat(s: &str, pat: &str) -> (r: Option<usize>)
    ensures
        match r {
            Some(i) => i + pat@.len() <= s@.len() && spec_find_pat(s@, pat@) == Some(i as int),
            None => spec_find_pat(s@, pat@) is None,
        },
{
    let s_len = s.unicode_len();
    let pat_len = pat.unicode_len();
    if pat_len > s_len {
        proof {
            lemma_find_pat_none(s@, pat@);
        }
        return None;
    }
    if pat_len == 0 {
        proof {
            assert(s@.take(0) =~= pat@);
        }
        return Some(0);
    }
    let mut k: usize = 0;
    while k <= s_len - pat_len
        invariant
            s_len == s@.len(),
            pat_len == pat@.len(),
            1 <= pat_len <= s_len,
            k <= s_len,
            forall|j: int| 0 <= j < k ==> #[trigger] s@.subrange(j, j + pat@.len()) != pat@,
        decreases s_len - k,
    {
        let piece = s.substring_char(k, k + pat_len);
        if str_eq(piece, pat) {
            proof {
                lemma_find_pat_at(s@, pat@, k as int);
            }
            return Some(k);
        }
        k += 1;
    }
    proof {
        lemma_find_pat_none(s@, pat@);
    }
    None
}

/// `s` with its first occurrence of `pat` (if any) replaced by `rep`.
pub fn replace_first(s: &str, pat: &str, rep: &str) -> (r: String)
    ensures
        r@ == spec_replace_first(s@, pat@, rep@),
{
    match find_pat(s, pat) {
        None => s.to_owned(),
        Some(i) => {
            let s_len = s.unicode_len();
            let pat_len = pat.unicode_len();
            let mut out = s.substring_char(0, i).to_owned();
            out.append(rep);
            out.append(s.substring_char(i + pat_len, s_len));
            proof {
                assert(s@.subrange(0, i as int) =~= s@.take(i as int));
                assert(s@.subrange(i + pat@.len(), s@.len() as int) =~= s@.skip(i + pat@.len()));
            }
            out
        },
    }
}

} // verus!
