//! Character-level text helpers: searching, prefixes and slicing of `&str`
//! values, all specified over the `Seq<char>` view of a string.

use vstd::prelude::*;

verus! {

/// `pat` occurs in `s` starting at character index `i`.
pub open spec fn occurs_at(s: Seq<char>, pat: Seq<char>, i: int) -> bool {
    &&& 0 <= i
    &&& i + pat.len() <= s.len()
    &&& s.subrange(i, i + pat.len()) == pat
}

/// The first index `i >= from` at which `pat` occurs in `s`.
pub open spec fn first_occ(s: Seq<char>, pat: Seq<char>, from: int) -> Option<int>
    decreases s.len() + 1 - from,
{
    if from < 0 || from + pat.len() > s.len() {
        None
    } else if occurs_at(s, pat, from) {
        Some(from)
    } else {
        first_occ(s, pat, from + 1)
    }
}

/// The text of an optional string.
pub open spec fn opt_str_view(o: Option<&str>) -> Option<Seq<char>> {
    match o {
        Some(s) => Some(s@),
        None => None,
    }
}

/// `s` contains no line feed.
pub open spec fn newline_free(s: Seq<char>) -> bool {
    forall|k: int| 0 <= k < s.len() ==> s[k] != '\n'
}

/// `pat` is a prefix of `s`.
pub open spec fn has_prefix(s: Seq<char>, pat: Seq<char>) -> bool {
    occurs_at(s, pat, 0)
}

/// What `first_occ` returns: the least occurrence at or after `from`.
pub proof fn lemma_first_occ(s: Seq<char>, pat: Seq<char>, from: int)
    requires
        0 <= from,
    ensures
        first_occ(s, pat, from) matches Some(i) ==> {
            &&& from <= i
            &&& occurs_at(s, pat, i)
            &&& forall|j: int| from <= j < i ==> !occurs_at(s, pat, j)
        },
        first_occ(s, pat, from) is None ==> forall|j: int| from <= j ==> !occurs_at(s, pat, j),
    decreases s.len() + 1 - from,
{
    if from + pat.len() > s.len() {
    } else if occurs_at(s, pat, from) {
    } else {
        lemma_first_occ(s, pat, from + 1);
    }
}

/// The last index `i` with `0 <= i <= hi` at which `pat` occurs in `s`.
pub open spec fn last_occ(s: Seq<char>, pat: Seq<char>, hi: int) -> Option<int>
    decreases hi + 1,
{
    if hi < 0 {
        None
    } else if occurs_at(s, pat, hi) {
        Some(hi)
    } else {
        last_occ(s, pat, hi - 1)
    }
}

/// What `last_occ` returns: the greatest occurrence at or below `hi`.
pub proof fn lemma_last_occ(s: Seq<char>, pat: Seq<char>, hi: int)
    ensures
        last_occ(s, pat, hi) matches Some(i) ==> {
            &&& 0 <= i <= hi
            &&& occurs_at(s, pat, i)
            &&& forall|j: int| i < j <= hi ==> !occurs_at(s, pat, j)
        },
        last_occ(s, pat, hi) is None ==> forall|j: int| j <= hi ==> !occurs_at(s, pat, j),
    decreases hi + 1,
{
    if hi >= 0 && !occurs_at(s, pat, hi) {
        lemma_last_occ(s, pat, hi - 1);
    }
}

/// Whether `pat` occurs in `s` at index `i`.
pub fn matches_at(s: &Vec<char>, pat: &Vec<char>, i: usize) -> (r: bool)
    ensures
        r == occurs_at(s@, pat@, i as int),
{
    if pat.len() > s.len() || i > s.len() - pat.len() {
        return false;
    }
    let mut k: usize = 0;
    while k < pat.len()
        invariant
            i + pat.len() <= s.len(),
            k <= pat.len(),
            forall|m: int| 0 <= m < k ==> s@[i + m] == pat@[m],
        decreases pat.len() - k,
    {
        if s[i + k] != pat[k] {
            proof {
                assert(s@.subrange(i as int, i + pat.len())[k as int] != pat@[k as int]);
            }
            return false;
        }
        k = k + 1;
    }
    assert(s@.subrange(i as int, i + pat.len()) =~= pat@);
    true
}

/// The first occurrence of `pat` in `s` at or after `from`.
pub fn find(s: &Vec<char>, pat: &Vec<char>, from: usize) -> (r: Option<usize>)
    ensures
        r matches Some(i) ==> first_occ(s@, pat@, from as int) == Some(i as int),
        r is None ==> first_occ(s@, pat@, from as int) is None,
{
    if pat.len() > s.len() {
        proof { lemma_first_occ(s@, pat@, from as int); }
        return None;
    }
    let last = s.len() - pat.len();
    let mut i = from;
    while i <= last
        invariant
            last + pat.len() == s.len(),
            from <= i,
            first_occ(s@, pat@, from as int) == first_occ(s@, pat@, i as int),
        decreases last + 1 - i,
    {
        if matches_at(s, pat, i) {
            return Some(i);
        }
        if i == last {
            proof {
                assert(first_occ(s@, pat@, i + 1) is None);
            }
            return None;
        }
        i = i + 1;
    }
    None
}

/// The last occurrence of `pat` in `s`.
pub fn rfind(s: &Vec<char>, pat: &Vec<char>) -> (r: Option<usize>)
    ensures
        r matches Some(i) ==> last_occ(s@, pat@, s@.len() as int) == Some(i as int),
        r is None ==> last_occ(s@, pat@, s@.len() as int) is None,
{
    let mut i = s.len();
    loop
        invariant
            i <= s.len(),
            last_occ(s@, pat@, s@.len() as int) == last_occ(s@, pat@, i as int),
        decreases i,
    {
        if matches_at(s, pat, i) {
            return Some(i);
        }
        if i == 0 {
            assert(last_occ(s@, pat@, -1) is None);
            return None;
        }
        i = i - 1;
    }
}

/// Whether `s` holds a line feed.
pub fn has_newline(s: &Vec<char>) -> (r: bool)
    ensures
        r == !newline_free(s@),
{
    let mut k: usize = 0;
    while k < s.len()
        invariant
            k <= s.len(),
            newline_free(s@.subrange(0, k as int)),
        decreases s.len() - k,
    {
        if s[k] == '\n' {
            return true;
        }
        proof {
            assert forall|m: int| 0 <= m < k + 1 implies #[trigger] s@.subrange(0, k + 1)[m] != '\n' by {
                if m < k {
                    assert(s@.subrange(0, k + 1)[m] == s@.subrange(0, k as int)[m]);
                }
            }
        }
        k = k + 1;
    }
    assert(s@.subrange(0, k as int) =~= s@);
    false
}

/// Whether `s` holds a line feed between index `from` and index `to`.
pub fn has_newline_in(s: &Vec<char>, from: usize, to: usize) -> (r: bool)
    requires
        from <= to <= s@.len(),
    ensures
        r == !newline_free(s@.subrange(from as int, to as int)),
{
    let mut k: usize = from;
    while k < to
        invariant
            from <= k <= to <= s@.len(),
            newline_free(s@.subrange(from as int, k as int)),
        decreases to - k,
    {
        if s[k] == '\n' {
            assert(s@.subrange(from as int, to as int)[k - from] == '\n');
            return true;
        }
        proof {
            assert forall|m: int| 0 <= m < k + 1 - from implies #[trigger] s@.subrange(
                from as int,
                k + 1,
            )[m] != '\n' by {
                if m < k - from {
                    assert(s@.subrange(from as int, k + 1)[m] == s@.subrange(
                        from as int,
                        k as int,
                    )[m]);
                }
            }
        }
        k = k + 1;
    }
    false
}

/// A line-feed-free sequence stays so in every part of it.
pub proof fn lemma_newline_free_subrange(s: Seq<char>, a: int, b: int, c: int, d: int)
    requires
        0 <= a <= c <= d <= b <= s.len(),
        newline_free(s.subrange(a, b)),
    ensures
        newline_free(s.subrange(c, d)),
{
    assert forall|k: int| 0 <= k < d - c implies #[trigger] s.subrange(c, d)[k] != '\n' by {
        assert(s.subrange(c, d)[k] == s.subrange(a, b)[k + c - a]);
    }
}

/// Whether the two strings hold the same characters.
pub fn str_eq(a: &str, b: &str) -> (r: bool)
    ensures
        r == (a@ == b@),
{
    let va = chars_of(a);
    let vb = chars_of(b);
    if va.len() != vb.len() {
        return false;
    }
    let r = matches_at(&va, &vb, 0);
    proof {
        assert(va@.subrange(0, vb@.len() as int) =~= va@);
    }
    r
}

/// Whether `p` is a prefix of `s`.
pub fn starts_with(s: &str, p: &str) -> (r: bool)
    ensures
        r == has_prefix(s@, p@),
{
    let vs = chars_of(s);
    let vp = chars_of(p);
    matches_at(&vs, &vp, 0)
}

/// A fresh string holding the characters of `s` from index `from` up to `to`.
pub fn substring(s: &str, from: usize, to: usize) -> (r: String)
    requires
        from <= to <= s@.len(),
    ensures
        r@ == s@.subrange(from as int, to as int),
{
    String::from_str(s.substring_char(from, to))
}

/// The characters of `s`, in order.
pub fn chars_of(s: &str) -> (v: Vec<char>)
    ensures
        v@ == s@,
{
    let n = s.unicode_len();
    let mut v: Vec<char> = Vec::new();
    let mut i: usize = 0;
    while i < n
        invariant
            n == s@.len(),
            i <= n,
            v@ == s@.subrange(0, i as int),
        decreases n - i,
    {
        v.push(s.get_char(i));
        i = i + 1;
    }
    v
}

} // verus!
