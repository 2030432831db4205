//! Verified text primitives: character classes, substring matching and
//! non-overlapping occurrence counting over sequences of characters.

use vstd::prelude::*;
use vstd::arithmetic::mul::lemma_mul_inequality;
use vstd::string::StrSliceExecFns;

verus! {

/// Whitespace characters, by code point (the set `char::is_whitespace`
/// accepts: ASCII whitespace plus the Unicode `White_Space` code points).
pub open spec fn is_ws(c: char) -> bool {
    let u = c as u32;
    ||| u == 0x20
    ||| (0x09 <= u && u <= 0x0D)
    ||| u == 0x85
    ||| u == 0xA0
    ||| u == 0x1680
    ||| (0x2000 <= u && u <= 0x200A)
    ||| u == 0x2028
    ||| u == 0x2029
    ||| u == 0x202F
    ||| u == 0x205F
    ||| u == 0x3000
}

/// Exec test for [`is_ws`].
pub fn is_ws_char(c: char) -> (b: bool)
    ensures
        b == is_ws(c),
{
    let u = c as u32;
    u == 0x20 || (0x09 <= u && u <= 0x0D) || u == 0x85 || u == 0xA0 || u == 0x1680 || (0x2000 <= u
        && u <= 0x200A) || u == 0x2028 || u == 0x2029 || u == 0x202F || u == 0x205F || u == 0x3000
}

/// Identifier characters: ASCII letters, ASCII digits and underscore.
pub open spec fn is_ident_char(c: char) -> bool {
    let u = c as u32;
    ||| (0x30 <= u && u <= 0x39)
    ||| (0x41 <= u && u <= 0x5A)
    ||| (0x61 <= u && u <= 0x7A)
    ||| u == 0x5F
}

/// Exec test for [`is_ident_char`].
pub fn is_ident_char_exec(c: char) -> (b: bool)
    ensures
        b == is_ident_char(c),
{
    let u = c as u32;
    (0x30 <= u && u <= 0x39) || (0x41 <= u && u <= 0x5A) || (0x61 <= u && u <= 0x7A) || u == 0x5F
}

/// Copies the characters of a string slice into a vector.
pub fn str_to_chars(s: &str) -> (v: Vec<char>)
    ensures
        v@ == s@,
{
    let n: usize = s.unicode_len();
    let mut v: Vec<char> = Vec::new();
    let mut i: usize = 0;
    while i < n
        invariant
            i <= n,
            n == s@.len(),
            v@ == s@.take(i as int),
        decreases n - i,
    {
        v.push(s.get_char(i));
        assert(s@.take(i + 1 as int) =~= s@.take(i as int).push(s@[i as int]));
        i = i + 1;
    }
    assert(v@ =~= s@);
    v
}

/// The pattern `p` occurs in `t` at position `i`.
pub open spec fn match_at(t: Seq<char>, p: Seq<char>, i: int) -> bool {
    &&& 0 <= i
    &&& i + p.len() <= t.len()
    &&& t.subrange(i, i + p.len()) == p
}

/// Exec test for [`match_at`].
fn is_match_at(t: &Vec<char>, p: &Vec<char>, i: usize) -> (b: bool)
    requires
        i + p@.len() <= t@.len(),
    ensures
        b == match_at(t@, p@, i as int),
{
    let m = p.len();
    let tlen = t.len();
    let mut j: usize = 0;
    while j < m
        invariant
            j <= m,
            m == p@.len(),
            tlen == t@.len(),
            i + m <= tlen,
            forall|k: int| 0 <= k < j ==> t@[i + k] == p@[k],
        decreases m - j,
    {
        if t[i + j] != p[j] {
            assert(t@.subrange(i as int, i + p@.len())[j as int] == t@[i + j]);
            return false;
        }
        j = j + 1;
    }
    assert(t@.subrange(i as int, i + p@.len()) =~= p@);
    true
}

/// The number of non-overlapping occurrences of `p` in `t`, scanning left to
/// right and skipping past each match, as substring search counts them.
/// An empty pattern never matches: it counts zero occurrences, so an empty
/// delimiter contributes nothing anywhere it is used.
pub open spec fn count_occurrences(t: Seq<char>, p: Seq<char>) -> nat
    decreases t.len(),
{
    if p.len() == 0 || t.len() < p.len() {
        0
    } else if t.take(p.len() as int) == p {
        1 + count_occurrences(t.skip(p.len() as int), p)
    } else {
        count_occurrences(t.skip(1), p)
    }
}

/// A text holds at most as many occurrences of a pattern as it has characters.
pub proof fn lemma_count_le_len(t: Seq<char>, p: Seq<char>)
    ensures
        count_occurrences(t, p) <= t.len(),
    decreases t.len(),
{
    if p.len() == 0 || t.len() < p.len() {
    } else if t.take(p.len() as int) == p {
        lemma_count_le_len(t.skip(p.len() as int), p);
    } else {
        lemma_count_le_len(t.skip(1), p);
    }
}

/// Exec count of non-overlapping occurrences; see [`count_occurrences`].
pub fn count_occurrences_exec(t: &Vec<char>, p: &Vec<char>) -> (r: usize)
    ensures
        r == count_occurrences(t@, p@),
{
    let n = t.len();
    let m = p.len();
    if m == 0 || n < m {
        return 0;
    }
    let mut i: usize = 0;
    let mut c: usize = 0;
    assert(t@.skip(0) =~= t@);
    while i < n
        invariant
            n == t@.len(),
            m == p@.len(),
            1 <= m,
            i <= n,
            c <= i,
            c + count_occurrences(t@.skip(i as int), p@) == count_occurrences(t@, p@),
        decreases n - i,
    {
        let ghost s = t@.skip(i as int);
        if m <= n - i && is_match_at(t, p, i) {
            proof {
                assert(s.take(m as int) =~= t@.subrange(i as int, i + m));
                assert(s.skip(m as int) =~= t@.skip(i + m));
            }
            c = c + 1;
            i = i + m;
        } else {
            proof {
                if m <= n - i {
                    assert(s.take(m as int) =~= t@.subrange(i as int, i + m));
                    assert(s.take(m as int) != p@);
                }
                assert(s.skip(1) =~= t@.skip(i + 1));
            }
            i = i + 1;
        }
    }
    assert(t@.skip(n as int) =~= Seq::<char>::empty());
    c
}

/// The pattern `p` occurs somewhere in `t`.  An empty pattern is contained
/// in every text.
pub open spec fn contains_sub(t: Seq<char>, p: Seq<char>) -> bool {
    exists|i: int| match_at(t, p, i)
}

/// Exec test for [`contains_sub`].
pub fn contains_sub_exec(t: &Vec<char>, p: &Vec<char>) -> (b: bool)
    ensures
        b == contains_sub(t@, p@),
{
    let n = t.len();
    let m = p.len();
    if m == 0 {
        proof {
            assert(t@.subrange(0, 0) =~= p@);
            assert(match_at(t@, p@, 0));
        }
        return true;
    }
    if n < m {
        return false;
    }
    let mut i: usize = 0;
    while i <= n - m
        invariant
            n == t@.len(),
            m == p@.len(),
            1 <= m <= n,
            i <= n - m + 1,
            forall|k: int| 0 <= k < i ==> !match_at(t@, p@, k),
        decreases n - m - i + 1,
    {
        if is_match_at(t, p, i) {
            return true;
        }
        i = i + 1;
    }
    false
}

/// The text `s` begins with the pattern `p`.  Every text begins with the
/// empty pattern.
pub open spec fn starts_with(s: Seq<char>, p: Seq<char>) -> bool {
    &&& p.len() <= s.len()
    &&& s.take(p.len() as int) == p
}

/// Exec test for [`starts_with`].
pub fn starts_with_exec(s: &Vec<char>, p: &Vec<char>) -> (b: bool)
    ensures
        b == starts_with(s@, p@),
{
    if p.len() <= s.len() {
        let b = is_match_at(s, p, 0);
        proof {
            assert(s@.subrange(0, p@.len() as int) =~= s@.take(p@.len() as int));
        }
        b
    } else {
        false
    }
}

/// The total occurrence count of every pattern in the list, summed per
/// pattern over the whole text.
pub open spec fn count_patterns_seq(t: Seq<char>, pats: Seq<Seq<char>>) -> nat
    decreases pats.len(),
{
    if pats.len() == 0 {
        0
    } else {
        count_occurrences(t, pats[0]) + count_patterns_seq(t, pats.skip(1))
    }
}

/// The summed count is bounded by one full text length per pattern.
pub proof fn lemma_count_patterns_le(t: Seq<char>, pats: Seq<Seq<char>>)
    ensures
        count_patterns_seq(t, pats) <= pats.len() * t.len(),
    decreases pats.len(),
{
    if pats.len() == 0 {
    } else {
        lemma_count_le_len(t, pats[0]);
        lemma_count_patterns_le(t, pats.skip(1));
        assert((pats.len() - 1) * t.len() + t.len() == pats.len() * t.len()) by (nonlinear_arith);
    }
}

/// Exec sum of occurrence counts over a pattern list given as char vectors.
pub fn count_patterns_vecs(t: &Vec<char>, pats: &Vec<Vec<char>>) -> (r: usize)
    requires
        pats@.len() * t@.len() <= usize::MAX,
    ensures
        r == count_patterns_seq(t@, pats.deep_view()),
{
    let n = pats.len();
    let mut total: usize = 0;
    let mut k: usize = 0;
    assert(pats.deep_view().skip(0) =~= pats.deep_view());
    while k < n
        invariant
            n == pats@.len(),
            pats@.len() * t@.len() <= usize::MAX,
            k <= n,
            total <= k * t@.len(),
            total + count_patterns_seq(t@, pats.deep_view().skip(k as int)) == count_patterns_seq(
                t@,
                pats.deep_view(),
            ),
        decreases n - k,
    {
        let c = count_occurrences_exec(t, &pats[k]);
        proof {
            let dv = pats.deep_view();
            assert(dv[k as int] == pats@[k as int]@);
            assert(dv.skip(k as int)[0] == dv[k as int]);
            assert(dv.skip(k as int).skip(1) =~= dv.skip(k + 1));
            lemma_count_le_len(t@, dv[k as int]);
            assert(c <= t@.len());
            lemma_mul_inequality(k + 1 as int, n as int, t@.len() as int);
            assert(k * t@.len() + t@.len() == (k + 1) * t@.len()) by (nonlinear_arith);
            assert(total + c <= (k + 1) * t@.len());
        }
        total = total + c;
        k = k + 1;
    }
    total
}

} // verus!
