//! Verified identifier statistics: the text is split on whitespace and the
//! tokens made of identifier characters only are measured.

use vstd::prelude::*;
use crate::text::{is_ident_char, is_ident_char_exec, is_ws, is_ws_char};

verus! {

/// The whitespace-separated tokens of `t`, with `cur` as the token begun so
/// far.  Tokens are maximal runs of non-whitespace characters; no token is
/// empty.
pub open spec fn tok_acc(t: Seq<char>, cur: Seq<char>) -> Seq<Seq<char>>
    decreases t.len(),
{
    if t.len() == 0 {
        if cur.len() == 0 {
            Seq::empty()
        } else {
            seq![cur]
        }
    } else if is_ws(t[0]) {
        (if cur.len() == 0 {
            Seq::empty()
        } else {
            seq![cur]
        }) + tok_acc(t.skip(1), Seq::empty())
    } else {
        tok_acc(t.skip(1), cur.push(t[0]))
    }
}

/// The whitespace-separated tokens of a text.
pub open spec fn spec_tokens(t: Seq<char>) -> Seq<Seq<char>> {
    tok_acc(t, Seq::empty())
}

/// A token counts as an identifier when every character of it is an
/// identifier character.
pub open spec fn is_ident_token(tok: Seq<char>) -> bool {
    forall|j: int| 0 <= j < tok.len() ==> is_ident_char(tok[j])
}

/// The summed length of the identifier tokens.
pub open spec fn ident_len_sum(toks: Seq<Seq<char>>) -> nat
    decreases toks.len(),
{
    if toks.len() == 0 {
        0
    } else {
        (if is_ident_token(toks[0]) {
            toks[0].len()
        } else {
            0
        }) + ident_len_sum(toks.skip(1))
    }
}

/// The number of identifier tokens.
pub open spec fn ident_count(toks: Seq<Seq<char>>) -> nat
    decreases toks.len(),
{
    if toks.len() == 0 {
        0
    } else {
        (if is_ident_token(toks[0]) {
            1nat
        } else {
            0nat
        }) + ident_count(toks.skip(1))
    }
}

/// Appending a character keeps a token an identifier exactly when the
/// character is an identifier character.
proof fn lemma_ident_push(cur: Seq<char>, c: char)
    ensures
        is_ident_token(cur.push(c)) == (is_ident_token(cur) && is_ident_char(c)),
{
    if is_ident_token(cur) && is_ident_char(c) {
        assert forall|j: int| 0 <= j < cur.push(c).len() implies is_ident_char(
            cur.push(c)[j],
        ) by {
            if j < cur.len() {
                assert(cur.push(c)[j] == cur[j]);
            } else {
                assert(cur.push(c)[j] == c);
            }
        }
    }
    if is_ident_token(cur.push(c)) {
        assert forall|j: int| 0 <= j < cur.len() implies is_ident_char(cur[j]) by {
            assert(cur.push(c)[j] == cur[j]);
        }
        assert(cur.push(c)[cur.len() as int] == c);
    }
}

/// One pass over the text, yielding the summed length and the number of the
/// identifier tokens; see [`ident_len_sum`] and [`ident_count`].
pub fn ident_stats(t: &Vec<char>) -> (r: (usize, usize))
    ensures
        r.0 == ident_len_sum(spec_tokens(t@)),
        r.1 == ident_count(spec_tokens(t@)),
        r.0 <= t@.len(),
        r.1 <= t@.len(),
{
    let n = t.len();
    let mut total: usize = 0;
    let mut cnt: usize = 0;
    let mut cur_len: usize = 0;
    let mut cur_ok: bool = true;
    let ghost mut cur = Seq::<char>::empty();
    let mut i: usize = 0;
    assert(t@.skip(0) =~= t@);
    while i < n
        invariant
            i <= n,
            n == t@.len(),
            cur_len == cur.len(),
            cur_ok == is_ident_token(cur),
            total + cur_len <= i,
            cnt + cur_len <= i,
            ident_len_sum(spec_tokens(t@)) == total + ident_len_sum(tok_acc(t@.skip(i as int), cur)),
            ident_count(spec_tokens(t@)) == cnt + ident_count(tok_acc(t@.skip(i as int), cur)),
        decreases n - i,
    {
        let ghost s = t@.skip(i as int);
        proof {
            assert(s[0] == t@[i as int]);
            assert(s.skip(1) =~= t@.skip(i + 1));
        }
        let c = t[i];
        if is_ws_char(c) {
            proof {
                let pre = if cur.len() == 0 {
                    Seq::<Seq<char>>::empty()
                } else {
                    seq![cur]
                };
                let rest = tok_acc(s.skip(1), Seq::empty());
                if cur.len() == 0 {
                    assert(pre + rest =~= rest);
                } else {
                    assert((pre + rest)[0] == cur);
                    assert((pre + rest).skip(1) =~= rest);
                }
            }
            if cur_len > 0 && cur_ok {
                total = total + cur_len;
                cnt = cnt + 1;
            }
            cur_len = 0;
            cur_ok = true;
            proof {
                cur = Seq::<char>::empty();
            }
        } else {
            proof {
                lemma_ident_push(cur, c);
            }
            cur_len = cur_len + 1;
            cur_ok = cur_ok && is_ident_char_exec(c);
            proof {
                cur = cur.push(c);
            }
        }
        i = i + 1;
    }
    proof {
        assert(t@.skip(n as int) =~= Seq::<char>::empty());
        assert(ident_len_sum(Seq::<Seq<char>>::empty()) == 0);
        assert(ident_count(Seq::<Seq<char>>::empty()) == 0);
        if cur.len() > 0 {
            assert(seq![cur][0] == cur);
            assert(seq![cur].skip(1) =~= Seq::<Seq<char>>::empty());
            assert(ident_len_sum(seq![cur]) == (if is_ident_token(cur) {
                cur.len()
            } else {
                0
            }) + ident_len_sum(seq![cur].skip(1)));
            assert(ident_count(seq![cur]) == (if is_ident_token(cur) {
                1nat
            } else {
                0nat
            }) + ident_count(seq![cur].skip(1)));
        }
    }
    if cur_len > 0 && cur_ok {
        total = total + cur_len;
        cnt = cnt + 1;
    }
    (total, cnt)
}

} // verus!
