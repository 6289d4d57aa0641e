//! Character-level utilities on strings: first occurrence of a character or
//! of a pattern, prefix tests, and trimming of surrounding whitespace.
//!
//! Each executable function is specified against a recursive spec function,
//! so that higher-level specs (request framing, status-line parsing, agent
//! output parsing) can be written constructively over the same definitions.

use vstd::prelude::*;

verus! {

use vstd::string::StrSliceExecFns;

/// Index of the first occurrence of `c` in `s`, or `s.len()` if `c` does not occur.
pub open spec fn index_of_char(s: Seq<char>, c: char) -> int
    decreases s.len(),
{
    if s.len() == 0 {
        0
    } else if s[0] == c {
        0
    } else {
        1 + index_of_char(s.drop_first(), c)
    }
}

pub proof fn lemma_index_of_char(s: Seq<char>, c: char)
    ensures
        0 <= index_of_char(s, c) <= s.len(),
        index_of_char(s, c) < s.len() ==> s[index_of_char(s, c)] == c,
        forall|j: int| 0 <= j < index_of_char(s, c) ==> s[j] != c,
    decreases s.len(),
{
    if s.len() > 0 && s[0] != c {
        lemma_index_of_char(s.drop_first(), c);
        assert forall|j: int| 0 <= j < index_of_char(s, c) implies s[j] != c by {
            if j > 0 {
                assert(s.drop_first()[j - 1] == s[j]);
            }
        }
    }
}

/// First index at which `c` occurs in `s`, or `s@.len()` if it does not.
#[verifier::loop_isolation(false)]
pub fn find_char(s: &str, c: char) -> (r: usize)
    ensures
        r == index_of_char(s@, c),
{
    proof {
        lemma_index_of_char(s@, c);
    }
    let n = s.unicode_len();
    let mut i: usize = 0;
    while i < n
        invariant
            0 <= i <= n,
            n == s@.len(),
            forall|j: int| 0 <= j < i ==> s@[j] != c,
        decreases n - i,
    {
        if s.get_char(i) == c {
            return i;
        }
        i = i + 1;
    }
    i
}

/// Whether `pat` occurs in `s` starting at index `i`.
pub open spec fn matches_at(s: Seq<char>, pat: Seq<char>, i: int) -> bool {
    0 <= i && i + pat.len() <= s.len() && s.subrange(i, i + pat.len() as int) == pat
}

/// Index of the first occurrence of `pat` in `s`, or `s.len()` if `pat` does
/// not occur.
pub open spec fn index_of_match(s: Seq<char>, pat: Seq<char>) -> int
    decreases s.len(),
{
    if pat.len() == 0 {
        0
    } else if s.len() < pat.len() {
        s.len() as int
    } else if s.subrange(0, pat.len() as int) == pat {
        0
    } else {
        1 + index_of_match(s.drop_first(), pat)
    }
}

pub proof fn lemma_index_of_match(s: Seq<char>, pat: Seq<char>)
    requires
        pat.len() > 0,
    ensures
        0 <= index_of_match(s, pat) <= s.len(),
        index_of_match(s, pat) < s.len() ==> matches_at(s, pat, index_of_match(s, pat)),
        forall|j: int| 0 <= j < index_of_match(s, pat) ==> !matches_at(s, pat, j),
    decreases s.len(),
{
    if s.len() < pat.len() {
        assert forall|j: int| 0 <= j < index_of_match(s, pat) implies !matches_at(s, pat, j) by {}
    } else if s.subrange(0, pat.len() as int) == pat {
    } else {
        lemma_index_of_match(s.drop_first(), pat);
        let r = index_of_match(s, pat);
        assert(r == 1 + index_of_match(s.drop_first(), pat));
        if r < s.len() {
            let r0 = r - 1;
            assert(matches_at(s.drop_first(), pat, r0));
            assert(s.drop_first().subrange(r0, r0 + pat.len() as int)
                =~= s.subrange(r, r + pat.len() as int));
        }
        assert forall|j: int| 0 <= j < index_of_match(s, pat) implies !matches_at(s, pat, j) by {
            if j == 0 {
                assert(!matches_at(s, pat, 0));
            } else {
                assert(!matches_at(s.drop_first(), pat, j - 1));
                if matches_at(s, pat, j) {
                    assert(s.drop_first().subrange(j - 1, j - 1 + pat.len() as int)
                        =~= s.subrange(j, j + pat.len() as int));
                    assert(matches_at(s.drop_first(), pat, j - 1));
                }
            }
        }
    }
}

/// First index at which `pat` occurs in `s`, or `s@.len()` if it does not.
#[verifier::loop_isolation(false)]
pub fn find_match(s: &str, pat: &str) -> (r: usize)
    requires
        pat@.len() > 0,
    ensures
        r == index_of_match(s@, pat@),
{
    proof {
        lemma_index_of_match(s@, pat@);
    }
    let n = s.unicode_len();
    let m = pat.unicode_len();
    let mut i: usize = 0;
    while i < n
        invariant
            0 <= i <= n,
            n == s@.len(),
            m == pat@.len(),
            m > 0,
            forall|j: int| 0 <= j < i ==> !matches_at(s@, pat@, j),
        decreases n - i,
    {
        if m <= n - i {
            let mut k: usize = 0;
            let mut all: bool = true;
            while k < m
                invariant
                    0 <= k <= m,
                    m <= n - i,
                    i < n,
                    n == s@.len(),
                    m == pat@.len(),
                    all == (s@.subrange(i as int, i + k as int) =~= pat@.subrange(0, k as int)),
                decreases m - k,
            {
                let sc = s.get_char(i + k);
                let pc = pat.get_char(k);
                proof {
                    let ghost prev = all;
                    if prev && sc == pc {
                        assert(s@.subrange(i as int, i + k + 1 as int)
                            =~= s@.subrange(i as int, i + k as int).push(sc));
                        assert(pat@.subrange(0, k + 1 as int)
                            =~= pat@.subrange(0, k as int).push(pc));
                    } else {
                        if s@.subrange(i as int, i + k + 1 as int) =~= pat@.subrange(0, k + 1 as int) {
                            assert(s@.subrange(i as int, i + k as int)
                                =~= s@.subrange(i as int, i + k + 1 as int).drop_last());
                            assert(pat@.subrange(0, k as int)
                                =~= pat@.subrange(0, k + 1 as int).drop_last());
                            assert(sc == s@.subrange(i as int, i + k + 1 as int).last());
                            assert(pc == pat@.subrange(0, k + 1 as int).last());
                        }
                    }
                }
                all = all && sc == pc;
                k = k + 1;
            }
            if all {
                proof {
                    assert(pat@.subrange(0, m as int) =~= pat@);
                    assert(matches_at(s@, pat@, i as int));
                }
                return i;
            }
            proof {
                assert(pat@.subrange(0, m as int) =~= pat@);
                assert(!matches_at(s@, pat@, i as int));
            }
        } else {
            proof {
                assert(!matches_at(s@, pat@, i as int));
            }
        }
        i = i + 1;
    }
    i
}

/// The whitespace characters recognized when trimming: the ASCII ones.
pub open spec fn is_space_char(c: char) -> bool {
    c == ' ' || c == '\t' || c == '\r' || c == '\n'
}

/// Executable mirror of `is_space_char`.
pub fn is_space(c: char) -> (r: bool)
    ensures
        r == is_space_char(c),
{
    c == ' ' || c == '\t' || c == '\r' || c == '\n'
}

/// `s` with its leading whitespace removed.
pub open spec fn drop_leading_spaces(s: Seq<char>) -> Seq<char>
    decreases s.len(),
{
    if s.len() > 0 && is_space_char(s[0]) {
        drop_leading_spaces(s.drop_first())
    } else {
        s
    }
}

/// `s` with its trailing whitespace removed.
pub open spec fn drop_trailing_spaces(s: Seq<char>) -> Seq<char>
    decreases s.len(),
{
    if s.len() > 0 && is_space_char(s.last()) {
        drop_trailing_spaces(s.drop_last())
    } else {
        s
    }
}

/// `s` with whitespace removed from both ends.
pub open spec fn trimmed(s: Seq<char>) -> Seq<char> {
    drop_trailing_spaces(drop_leading_spaces(s))
}

proof fn lemma_drop_leading_spaces_subrange(s: Seq<char>, i: int)
    requires
        0 <= i <= s.len(),
        forall|j: int| 0 <= j < i ==> is_space_char(s[j]),
        i < s.len() ==> !is_space_char(s[i]),
    ensures
        drop_leading_spaces(s) == s.subrange(i, s.len() as int),
    decreases i,
{
    if i == 0 {
        assert(s.subrange(0, s.len() as int) =~= s);
    } else {
        lemma_drop_leading_spaces_subrange(s.drop_first(), i - 1);
        assert(s.drop_first().subrange(i - 1, s.drop_first().len() as int)
            =~= s.subrange(i, s.len() as int));
    }
}

proof fn lemma_drop_trailing_spaces_subrange(s: Seq<char>, i: int)
    requires
        0 <= i <= s.len(),
        forall|j: int| i <= j < s.len() ==> is_space_char(s[j]),
        i > 0 ==> !is_space_char(s[i - 1]),
    ensures
        drop_trailing_spaces(s) == s.subrange(0, i),
    decreases s.len() - i,
{
    if i == s.len() {
        assert(s.subrange(0, s.len() as int) =~= s);
    } else {
        lemma_drop_trailing_spaces_subrange(s.drop_last(), i);
        assert(s.drop_last().subrange(0, i) =~= s.subrange(0, i));
    }
}

/// Copy of `s` with whitespace removed from both ends.
#[verifier::loop_isolation(false)]
pub fn trim(s: &str) -> (r: String)
    ensures
        r@ == trimmed(s@),
{
    let n = s.unicode_len();
    let mut a: usize = 0;
    while a < n && is_space(s.get_char(a))
        invariant
            0 <= a <= n,
            n == s@.len(),
            forall|j: int| 0 <= j < a ==> is_space_char(s@[j]),
        decreases n - a,
    {
        a = a + 1;
    }
    proof {
        lemma_drop_leading_spaces_subrange(s@, a as int);
    }
    let mut b: usize = n;
    while b > a && is_space(s.get_char(b - 1))
        invariant
            a <= b <= n,
            n == s@.len(),
            forall|j: int| b <= j < n ==> is_space_char(s@[j]),
        decreases b,
    {
        b = b - 1;
    }
    proof {
        let mid = s@.subrange(a as int, n as int);
        assert forall|j: int| (b - a) <= j < mid.len() implies is_space_char(mid[j]) by {
            assert(mid[j] == s@[j + a]);
        }
        if b > a {
            assert(mid[b - a - 1] == s@[b as int - 1]);
        }
        lemma_drop_trailing_spaces_subrange(mid, b - a);
        assert(mid.subrange(0, b - a) =~= s@.subrange(a as int, b as int));
    }
    let piece = s.substring_char(a, b);
    piece.to_owned()
}

/// Whether `pre` is a prefix of `s`.
pub open spec fn has_prefix(s: Seq<char>, pre: Seq<char>) -> bool {
    pre.len() <= s.len() && s.subrange(0, pre.len() as int) == pre
}

/// Executable prefix test.
#[verifier::loop_isolation(false)]
pub fn starts_with(s: &str, pre: &str) -> (r: bool)
    ensures
        r == has_prefix(s@, pre@),
{
    let n = s.unicode_len();
    let m = pre.unicode_len();
    if m > n {
        return false;
    }
    let mut k: usize = 0;
    while k < m
        invariant
            0 <= k <= m,
            m <= n,
            n == s@.len(),
            m == pre@.len(),
            s@.subrange(0, k as int) =~= pre@.subrange(0, k as int),
        decreases m - k,
    {
        let sc = s.get_char(k);
        let pc = pre.get_char(k);
        if sc != pc {
            proof {
                if has_prefix(s@, pre@) {
                    assert(s@.subrange(0, m as int)[k as int] == pre@[k as int]);
                }
            }
            return false;
        }
        proof {
            assert(s@.subrange(0, k + 1 as int) =~= s@.subrange(0, k as int).push(sc));
            assert(pre@.subrange(0, k + 1 as int) =~= pre@.subrange(0, k as int).push(pc));
        }
        k = k + 1;
    }
    proof {
        assert(pre@.subrange(0, m as int) =~= pre@);
    }
    true
}

/// Copy of the substring of `s` from `from` (inclusive) to `to` (exclusive),
/// counted in characters.
pub fn substring(s: &str, from: usize, to: usize) -> (r: String)
    requires
        from <= to <= s@.len(),
    ensures
        r@ == s@.subrange(from as int, to as int),
{
    s.substring_char(from, to).to_owned()
}

} // verus!
