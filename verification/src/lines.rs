//! Verified line handling: splitting a text into lines, trimming
//! whitespace, counting non-empty and comment lines, and the per-line
//! nesting-depth scan.

use vstd::prelude::*;
use crate::text::{
    count_patterns_seq, is_ws, is_ws_char, lemma_count_patterns_le, starts_with, starts_with_exec,
    count_patterns_vecs,
};

verus! {

/// Drops one trailing carriage return, as line splitting does at a line
/// ending written as carriage return plus line feed.
pub open spec fn strip_cr(s: Seq<char>) -> Seq<char> {
    if s.len() > 0 && s.last() == '\r' {
        s.drop_last()
    } else {
        s
    }
}

/// The lines of `t` with `cur` as the line begun so far: lines are cut at
/// every line feed, a carriage return directly before the cut is dropped,
/// and a final cut at the very end of the text opens no further line.
pub open spec fn lines_acc(t: Seq<char>, cur: Seq<char>) -> Seq<Seq<char>>
    decreases t.len(),
{
    if t.len() == 0 {
        if cur.len() == 0 {
            Seq::empty()
        } else {
            seq![cur]
        }
    } else if t[0] == '\n' {
        seq![strip_cr(cur)] + lines_acc(t.skip(1), Seq::empty())
    } else {
        lines_acc(t.skip(1), cur.push(t[0]))
    }
}

/// The lines of a text, as line-based splitting yields them: the empty text
/// has no lines, and a trailing line feed opens no further line.
pub open spec fn spec_lines(t: Seq<char>) -> Seq<Seq<char>> {
    lines_acc(t, Seq::empty())
}

/// The summed length of a sequence of lines.
pub open spec fn sum_lens(ls: Seq<Seq<char>>) -> nat
    decreases ls.len(),
{
    if ls.len() == 0 {
        0
    } else {
        ls[0].len() + sum_lens(ls.skip(1))
    }
}

/// Splitting never yields more lines, nor more line characters in total,
/// than the text itself has characters.
pub proof fn lemma_lines_bounds(t: Seq<char>, cur: Seq<char>)
    ensures
        sum_lens(lines_acc(t, cur)) <= t.len() + cur.len(),
        lines_acc(t, cur).len() <= t.len() + 1,
    decreases t.len(),
{
    assert(sum_lens(Seq::<Seq<char>>::empty()) == 0);
    if t.len() == 0 {
        if cur.len() == 0 {
        } else {
            assert(seq![cur][0] == cur);
            assert(seq![cur].skip(1) =~= Seq::<Seq<char>>::empty());
            assert(sum_lens(seq![cur]) == cur.len() + sum_lens(seq![cur].skip(1)));
        }
    } else if t[0] == '\n' {
        lemma_lines_bounds(t.skip(1), Seq::empty());
        let rest = lines_acc(t.skip(1), Seq::empty());
        let ls = seq![strip_cr(cur)] + rest;
        assert(ls[0] == strip_cr(cur));
        assert(ls.skip(1) =~= rest);
        assert(sum_lens(ls) == strip_cr(cur).len() + sum_lens(rest));
        assert(strip_cr(cur).len() <= cur.len());
    } else {
        lemma_lines_bounds(t.skip(1), cur.push(t[0]));
    }
}

/// Leading whitespace removed.
pub open spec fn trim_front(s: Seq<char>) -> Seq<char>
    decreases s.len(),
{
    if s.len() > 0 && is_ws(s[0]) {
        trim_front(s.skip(1))
    } else {
        s
    }
}

/// Trailing whitespace removed.
pub open spec fn trim_back(s: Seq<char>) -> Seq<char>
    decreases s.len(),
{
    if s.len() > 0 && is_ws(s.last()) {
        trim_back(s.drop_last())
    } else {
        s
    }
}

/// Leading and trailing whitespace removed.
pub open spec fn trim(s: Seq<char>) -> Seq<char> {
    trim_back(trim_front(s))
}

/// Trimming never lengthens a text.
pub proof fn lemma_trim_front_le(s: Seq<char>)
    ensures
        trim_front(s).len() <= s.len(),
    decreases s.len(),
{
    if s.len() > 0 && is_ws(s[0]) {
        lemma_trim_front_le(s.skip(1));
    }
}

/// Trailing trimming never lengthens a text.
pub proof fn lemma_trim_back_le(s: Seq<char>)
    ensures
        trim_back(s).len() <= s.len(),
    decreases s.len(),
{
    if s.len() > 0 && is_ws(s.last()) {
        lemma_trim_back_le(s.drop_last());
    }
}

/// Trimming never lengthens a text.
pub proof fn lemma_trim_le(s: Seq<char>)
    ensures
        trim(s).len() <= s.len(),
{
    lemma_trim_front_le(s);
    lemma_trim_back_le(trim_front(s));
}

/// Exec trimming; see [`trim`].
pub fn trim_exec(s: &Vec<char>) -> (r: Vec<char>)
    ensures
        r@ == trim(s@),
{
    let n = s.len();
    let mut lo: usize = 0;
    assert(s@.skip(0) =~= s@);
    while lo < n && is_ws_char(s[lo])
        invariant
            lo <= n,
            n == s@.len(),
            trim_front(s@) == trim_front(s@.skip(lo as int)),
        decreases n - lo,
    {
        proof {
            assert(s@.skip(lo as int)[0] == s@[lo as int]);
            assert(s@.skip(lo as int).skip(1) =~= s@.skip(lo + 1));
        }
        lo = lo + 1;
    }
    let ghost x = s@.skip(lo as int);
    assert(trim_front(s@) == x);
    let mut hi: usize = n;
    assert(x.take((n - lo) as int) =~= x);
    while hi > lo && is_ws_char(s[hi - 1])
        invariant
            lo <= hi <= n,
            n == s@.len(),
            x == s@.skip(lo as int),
            trim_back(x) == trim_back(x.take((hi - lo) as int)),
        decreases hi,
    {
        proof {
            let y = x.take((hi - lo) as int);
            assert(y.last() == s@[hi - 1]);
            assert(y.drop_last() =~= x.take((hi - 1 - lo) as int));
        }
        hi = hi - 1;
    }
    assert(trim_back(x) == x.take((hi - lo) as int));
    let mut r: Vec<char> = Vec::new();
    let mut j: usize = lo;
    while j < hi
        invariant
            lo <= j <= hi <= n,
            n == s@.len(),
            r@ == s@.subrange(lo as int, j as int),
        decreases hi - j,
    {
        r.push(s[j]);
        assert(s@.subrange(lo as int, j + 1 as int) =~= s@.subrange(lo as int, j as int).push(
            s@[j as int],
        ));
        j = j + 1;
    }
    assert(r@ =~= x.take((hi - lo) as int));
    r
}

/// Exec line splitting; see [`spec_lines`].
pub fn split_lines(t: &Vec<char>) -> (r: Vec<Vec<char>>)
    ensures
        r.deep_view() == spec_lines(t@),
{
    let n = t.len();
    let mut r: Vec<Vec<char>> = Vec::new();
    let mut cur: Vec<char> = Vec::new();
    let mut i: usize = 0;
    assert(t@.skip(0) =~= t@);
    assert(r.deep_view() =~= Seq::<Seq<char>>::empty());
    while i < n
        invariant
            i <= n,
            n == t@.len(),
            spec_lines(t@) == r.deep_view() + lines_acc(t@.skip(i as int), cur@),
        decreases n - i,
    {
        let ghost s = t@.skip(i as int);
        let ghost old_r_dv = r.deep_view();
        let ghost old_cur = cur@;
        proof {
            assert(s[0] == t@[i as int]);
            assert(s.skip(1) =~= t@.skip(i + 1));
        }
        let c = t[i];
        if c == '\n' {
            let mut done = cur;
            cur = Vec::new();
            if done.len() > 0 && done[done.len() - 1] == '\r' {
                let _dropped = done.pop();
                assert(done@ =~= old_cur.drop_last());
            }
            assert(done@ == strip_cr(old_cur));
            proof {
                assert(done.deep_view() =~= done@);
            }
            r.push(done);
            proof {
                assert(r.deep_view() =~= old_r_dv.push(strip_cr(old_cur)));
                assert(old_r_dv.push(strip_cr(old_cur)) + lines_acc(s.skip(1), Seq::empty())
                    =~= old_r_dv + (seq![strip_cr(old_cur)] + lines_acc(s.skip(1), Seq::empty())));
            }
        } else {
            cur.push(c);
        }
        i = i + 1;
    }
    proof {
        assert(t@.skip(n as int) =~= Seq::<char>::empty());
    }
    let ghost old_r_dv = r.deep_view();
    let ghost last = cur@;
    if cur.len() > 0 {
        proof {
            assert(cur.deep_view() =~= last);
        }
        r.push(cur);
        proof {
            assert(r.deep_view() =~= old_r_dv.push(last));
            assert(old_r_dv.push(last) =~= old_r_dv + seq![last]);
        }
    } else {
        assert(old_r_dv + lines_acc(Seq::empty(), last) =~= old_r_dv);
    }
    r
}

/// How many of the lines are non-empty once trimmed.
pub open spec fn nonempty_count(ls: Seq<Seq<char>>) -> nat
    decreases ls.len(),
{
    if ls.len() == 0 {
        0
    } else {
        (if trim(ls[0]).len() > 0 {
            1nat
        } else {
            0nat
        }) + nonempty_count(ls.skip(1))
    }
}

/// Exec count of trimmed-non-empty lines; see [`nonempty_count`].
pub fn nonempty_count_exec(lines: &Vec<Vec<char>>) -> (r: usize)
    ensures
        r == nonempty_count(lines.deep_view()),
{
    let n = lines.len();
    let ghost dv = lines.deep_view();
    let mut c: usize = 0;
    let mut i: usize = 0;
    assert(dv.skip(0) =~= dv);
    while i < n
        invariant
            i <= n,
            c <= i,
            n == dv.len(),
            dv == lines.deep_view(),
            c + nonempty_count(dv.skip(i as int)) == nonempty_count(dv),
        decreases n - i,
    {
        proof {
            assert(dv.skip(i as int)[0] == dv[i as int]);
            assert(dv.skip(i as int).skip(1) =~= dv.skip(i + 1));
            assert(dv[i as int] == lines@[i as int]@);
        }
        let trimmed = trim_exec(&lines[i]);
        if trimmed.len() > 0 {
            c = c + 1;
        }
        i = i + 1;
    }
    c
}

/// A line counts as a comment line when its trimmed text begins with one of
/// the comment prefixes.
pub open spec fn is_comment_line(line: Seq<char>, pats: Seq<Seq<char>>) -> bool {
    exists|k: int| 0 <= k < pats.len() && starts_with(trim(line), pats[k])
}

/// How many of the lines are comment lines.
pub open spec fn comment_count(ls: Seq<Seq<char>>, pats: Seq<Seq<char>>) -> nat
    decreases ls.len(),
{
    if ls.len() == 0 {
        0
    } else {
        (if is_comment_line(ls[0], pats) {
            1nat
        } else {
            0nat
        }) + comment_count(ls.skip(1), pats)
    }
}

/// No more lines are comment lines than there are lines.
pub proof fn lemma_comment_le(ls: Seq<Seq<char>>, pats: Seq<Seq<char>>)
    ensures
        comment_count(ls, pats) <= ls.len(),
    decreases ls.len(),
{
    if ls.len() > 0 {
        lemma_comment_le(ls.skip(1), pats);
    }
}

/// Exec test whether a trimmed line begins with any of the given prefixes.
fn any_prefix(trimmed: &Vec<char>, pats: &Vec<Vec<char>>) -> (b: bool)
    ensures
        b == exists|k: int|
            0 <= k < pats.deep_view().len() && starts_with(trimmed@, pats.deep_view()[k]),
{
    let n = pats.len();
    let ghost dv = pats.deep_view();
    let mut k: usize = 0;
    while k < n
        invariant
            k <= n,
            n == dv.len(),
            dv == pats.deep_view(),
            forall|j: int| 0 <= j < k ==> !starts_with(trimmed@, dv[j]),
        decreases n - k,
    {
        proof {
            assert(dv[k as int] == pats@[k as int]@);
        }
        if starts_with_exec(trimmed, &pats[k]) {
            return true;
        }
        k = k + 1;
    }
    false
}

/// Exec count of comment lines; see [`comment_count`].
pub fn comment_count_exec(lines: &Vec<Vec<char>>, pats: &Vec<Vec<char>>) -> (r: usize)
    ensures
        r == comment_count(lines.deep_view(), pats.deep_view()),
{
    let n = lines.len();
    let ghost dv = lines.deep_view();
    let ghost pv = pats.deep_view();
    let mut c: usize = 0;
    let mut i: usize = 0;
    assert(dv.skip(0) =~= dv);
    while i < n
        invariant
            i <= n,
            c <= i,
            n == dv.len(),
            dv == lines.deep_view(),
            pv == pats.deep_view(),
            c + comment_count(dv.skip(i as int), pv) == comment_count(dv, pv),
        decreases n - i,
    {
        proof {
            assert(dv.skip(i as int)[0] == dv[i as int]);
            assert(dv.skip(i as int).skip(1) =~= dv.skip(i + 1));
            assert(dv[i as int] == lines@[i as int]@);
        }
        let trimmed = trim_exec(&lines[i]);
        if any_prefix(&trimmed, pats) {
            c = c + 1;
        }
        i = i + 1;
    }
    c
}

/// Subtraction on counters that stops at zero.
pub open spec fn sat_sub(a: nat, b: nat) -> nat {
    if a >= b {
        (a - b) as nat
    } else {
        0
    }
}

/// The depth after one line: the line's opening-delimiter occurrences are
/// added, then its closing-delimiter occurrences subtracted, never below
/// zero.  Both counts are taken on the trimmed line.
pub open spec fn nest_step(
    d: nat,
    line: Seq<char>,
    opens: Seq<Seq<char>>,
    closes: Seq<Seq<char>>,
) -> nat {
    sat_sub(d + count_patterns_seq(trim(line), opens), count_patterns_seq(trim(line), closes))
}

/// The greatest depth reached after any line, scanning the lines in order
/// from running depth `d`; zero when no line follows.
pub open spec fn nest_max(
    ls: Seq<Seq<char>>,
    opens: Seq<Seq<char>>,
    closes: Seq<Seq<char>>,
    d: nat,
) -> nat
    decreases ls.len(),
{
    if ls.len() == 0 {
        0
    } else {
        let d2 = nest_step(d, ls[0], opens, closes);
        let rest = nest_max(ls.skip(1), opens, closes, d2);
        if d2 >= rest {
            d2
        } else {
            rest
        }
    }
}

/// Exec saturating subtraction of the closing-delimiter counts, one
/// delimiter at a time, as the scan applies them.
fn sub_closings(d: usize, trimmed: &Vec<char>, closes: &Vec<Vec<char>>) -> (r: usize)
    ensures
        r == sat_sub(d as nat, count_patterns_seq(trimmed@, closes.deep_view())),
{
    let n = closes.len();
    let ghost cv = closes.deep_view();
    let mut cur: usize = d;
    let mut k: usize = 0;
    assert(cv.skip(0) =~= cv);
    while k < n
        invariant
            k <= n,
            n == cv.len(),
            cv == closes.deep_view(),
            sat_sub(cur as nat, count_patterns_seq(trimmed@, cv.skip(k as int))) == sat_sub(
                d as nat,
                count_patterns_seq(trimmed@, cv),
            ),
        decreases n - k,
    {
        proof {
            assert(cv[k as int] == closes@[k as int]@);
            assert(cv.skip(k as int)[0] == cv[k as int]);
            assert(cv.skip(k as int).skip(1) =~= cv.skip(k + 1));
        }
        let c = crate::text::count_occurrences_exec(trimmed, &closes[k]);
        cur = if cur >= c {
            cur - c
        } else {
            0
        };
        k = k + 1;
    }
    cur
}

/// Exec nesting-depth scan; see [`nest_max`].
pub fn nest_max_exec(lines: &Vec<Vec<char>>, opens: &Vec<Vec<char>>, closes: &Vec<Vec<char>>) -> (r:
    usize)
    requires
        opens@.len() * sum_lens(lines.deep_view()) <= usize::MAX,
    ensures
        r == nest_max(lines.deep_view(), opens.deep_view(), closes.deep_view(), 0),
{
    let n = lines.len();
    let ghost dv = lines.deep_view();
    let ghost ov = opens.deep_view();
    let ghost cv = closes.deep_view();
    let mut d: usize = 0;
    let mut m: usize = 0;
    let mut i: usize = 0;
    assert(dv.skip(0) =~= dv);
    while i < n
        invariant
            i <= n,
            n == dv.len(),
            dv == lines.deep_view(),
            ov == opens.deep_view(),
            cv == closes.deep_view(),
            ov.len() * sum_lens(dv) <= usize::MAX,
            d + ov.len() * sum_lens(dv.skip(i as int)) <= ov.len() * sum_lens(dv),
            nest_max(dv, ov, cv, 0) == ({
                let rest = nest_max(dv.skip(i as int), ov, cv, d as nat);
                if m as nat >= rest {
                    m as nat
                } else {
                    rest
                }
            }),
        decreases n - i,
    {
        proof {
            assert(dv.skip(i as int)[0] == dv[i as int]);
            assert(dv.skip(i as int).skip(1) =~= dv.skip(i + 1));
            assert(dv[i as int] == lines@[i as int]@);
            lemma_trim_le(dv[i as int]);
        }
        let ghost li = dv[i as int].len();
        let ghost s0 = sum_lens(dv.skip(i as int));
        let ghost s1 = sum_lens(dv.skip(i + 1));
        assert(s0 == li + s1);
        let trimmed = trim_exec(&lines[i]);
        proof {
            lemma_count_patterns_le(trimmed@, ov);
            assert(ov.len() * trimmed@.len() <= ov.len() * s0) by (nonlinear_arith)
                requires
                    trimmed@.len() <= s0,
            ;
            assert(ov.len() * s0 <= usize::MAX);
        }
        let ao = count_patterns_vecs(&trimmed, opens);
        proof {
            assert(ao <= ov.len() * li) by (nonlinear_arith)
                requires
                    ao <= ov.len() * trimmed@.len(),
                    trimmed@.len() <= li,
            ;
        }
        let d2 = sub_closings(d + ao, &trimmed, closes);
        proof {
            assert(d2 == nest_step(d as nat, dv[i as int], ov, cv));
            assert(d2 <= d + ao);
            assert(d2 + ov.len() * s1 <= ov.len() * sum_lens(dv)) by (nonlinear_arith)
                requires
                    d2 <= d + ao,
                    ao <= ov.len() * li,
                    s0 == li + s1,
                    d + ov.len() * s0 <= ov.len() * sum_lens(dv),
            ;
        }
        d = d2;
        if d > m {
            m = d;
        }
        i = i + 1;
    }
    assert(dv.skip(n as int) =~= Seq::<Seq<char>>::empty());
    m
}

} // verus!
