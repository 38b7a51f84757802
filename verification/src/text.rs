//! Verified text primitives for the argument template engine: single-pass
//! substring replacement, splitting on single spaces, and decimal rendering
//! of line numbers.

use vstd::prelude::*;

verus! {

/// `pat` occurs in `s` starting at character position `i`.
pub open spec fn occurs_at(s: Seq<char>, pat: Seq<char>, i: int) -> bool {
    &&& 0 <= i
    &&& i + pat.len() <= s.len()
    &&& s.subrange(i, i + pat.len() as int) == pat
}

/// `pat` occurs somewhere in `s`.
pub open spec fn occurs(s: Seq<char>, pat: Seq<char>) -> bool {
    exists|i: int| occurs_at(s, pat, i)
}

/// Left-to-right, non-overlapping replacement of every occurrence of `pat`
/// in `s` by `val`, in a single pass: inserted values are not re-scanned.
/// An empty pattern replaces nothing.
pub open spec fn replace_all(s: Seq<char>, pat: Seq<char>, val: Seq<char>) -> Seq<char>
    decreases s.len(),
{
    if pat.len() == 0 || s.len() < pat.len() {
        s
    } else if s.take(pat.len() as int) == pat {
        val + replace_all(s.skip(pat.len() as int), pat, val)
    } else {
        seq![s[0]] + replace_all(s.skip(1), pat, val)
    }
}

/// Whether the characters of `s` starting at `i` spell out `pat`.
fn matches_at(s: &str, i: usize, pat: &str, pat_len: usize) -> (r: bool)
    requires
        pat_len == pat@.len(),
        i + pat_len <= s@.len(),
        i + pat_len <= usize::MAX,
    ensures
        r == (s@.subrange(i as int, i + pat@.len()) == pat@),
{
    let mut j: usize = 0;
    while j < pat_len
        invariant
            j <= pat_len,
            pat_len == pat@.len(),
            i + pat_len <= s@.len(),
            i + pat_len <= usize::MAX,
            forall|k: int| 0 <= k < j ==> s@[i + k] == pat@[k],
        decreases pat_len - j,
    {
        if s.get_char(i + j) != pat.get_char(j) {
            assert(s@.subrange(i as int, i + pat@.len())[j as int] != pat@[j as int]);
            return false;
        }
        j = j + 1;
    }
    assert(s@.subrange(i as int, i + pat@.len()) =~= pat@);
    true
}

/// Replace every occurrence of `pat` in `s` by `val`, left to right, in a
/// single pass over `s`.
pub fn replace_all_str(s: &str, pat: &str, val: &str) -> (r: String)
    requires
        pat@.len() >= 1,
    ensures
        r@ == replace_all(s@, pat@, val@),
{
    let s_len = s.unicode_len();
    let pat_len = pat.unicode_len();
    let mut out = String::new();
    let mut i: usize = 0;
    proof {
        assert(s@.skip(0) =~= s@);
        assert(Seq::<char>::empty() + replace_all(s@, pat@, val@) =~= replace_all(
            s@,
            pat@,
            val@,
        ));
    }
    while i < s_len
        invariant
            i <= s_len,
            s_len == s@.len(),
            pat_len == pat@.len(),
            1 <= pat_len,
            out@ + replace_all(s@.skip(i as int), pat@, val@) == replace_all(s@, pat@, val@),
        decreases s_len - i,
    {
        let ghost rest = s@.skip(i as int);
        if pat_len <= s_len - i && matches_at(s, i, pat, pat_len) {
            proof {
                assert(rest.take(pat_len as int) =~= s@.subrange(i as int, i + pat@.len()));
                assert(rest.skip(pat_len as int) =~= s@.skip(i + pat_len));
                assert(replace_all(rest, pat@, val@) == val@ + replace_all(
                    s@.skip(i + pat_len),
                    pat@,
                    val@,
                ));
            }
            out.append(val);
            i = i + pat_len;
        } else {
            proof {
                if pat_len <= s_len - i {
                    assert(rest.take(pat_len as int) =~= s@.subrange(i as int, i + pat@.len()));
                    assert(rest.take(pat_len as int) != pat@);
                }
                assert(rest.skip(1) =~= s@.skip(i + 1));
                assert(seq![rest[0]] =~= s@.subrange(i as int, i + 1));
                assert(replace_all(rest, pat@, val@) == s@.subrange(i as int, i + 1)
                    + replace_all(s@.skip(i + 1), pat@, val@));
            }
            let piece = s.substring_char(i, i + 1);
            out.append(piece);
            i = i + 1;
        }
    }
    proof {
        assert(s@.skip(s_len as int) =~= Seq::<char>::empty());
        assert(out@ + Seq::<char>::empty() =~= out@);
    }
    out
}

/// If `pat` does not occur in `s`, replacement leaves `s` unchanged.
pub proof fn lemma_replace_all_absent(s: Seq<char>, pat: Seq<char>, val: Seq<char>)
    requires
        pat.len() >= 1,
        !occurs(s, pat),
    ensures
        replace_all(s, pat, val) == s,
    decreases s.len(),
{
    if s.len() < pat.len() {
    } else {
        assert(s.take(pat.len() as int) =~= s.subrange(0, pat.len() as int));
        assert(!occurs_at(s, pat, 0));
        assert(s.take(pat.len() as int) != pat);
        assert forall|i: int| !occurs_at(s.skip(1), pat, i) by {
            if occurs_at(s.skip(1), pat, i) {
                assert(s.skip(1).subrange(i, i + pat.len() as int) =~= s.subrange(
                    i + 1,
                    i + 1 + pat.len() as int,
                ));
                assert(occurs_at(s, pat, i + 1));
            }
        }
        lemma_replace_all_absent(s.skip(1), pat, val);
        assert(seq![s[0]] + s.skip(1) =~= s);
    }
}

/// The text before the first occurrence of `pat` is kept untouched, the
/// occurrence itself is replaced by `val`, and replacement then continues,
/// in the same way, on the text after it. Applied repeatedly, this pins
/// down that every occurrence is replaced, left to right.
pub proof fn lemma_replace_all_first(s: Seq<char>, pat: Seq<char>, val: Seq<char>, i: int)
    requires
        pat.len() >= 1,
        occurs_at(s, pat, i),
        forall|j: int| 0 <= j < i ==> !occurs_at(s, pat, j),
    ensures
        replace_all(s, pat, val) == s.take(i) + val + replace_all(
            s.skip(i + pat.len() as int),
            pat,
            val,
        ),
    decreases i,
{
    if i == 0 {
        assert(s.take(pat.len() as int) =~= s.subrange(0, pat.len() as int));
        assert(s.take(0) + val =~= val);
        assert(s.take(0) + val + replace_all(s.skip(pat.len() as int), pat, val) =~= val
            + replace_all(s.skip(pat.len() as int), pat, val));
    } else {
        assert(s.take(pat.len() as int) =~= s.subrange(0, pat.len() as int));
        assert(!occurs_at(s, pat, 0));
        assert(s.take(pat.len() as int) != pat);
        assert(s.skip(1).subrange(i - 1, i - 1 + pat.len() as int) =~= s.subrange(
            i,
            i + pat.len() as int,
        ));
        assert(occurs_at(s.skip(1), pat, i - 1));
        assert forall|j: int| 0 <= j < i - 1 implies !occurs_at(s.skip(1), pat, j) by {
            if occurs_at(s.skip(1), pat, j) {
                assert(s.skip(1).subrange(j, j + pat.len() as int) =~= s.subrange(
                    j + 1,
                    j + 1 + pat.len() as int,
                ));
                assert(occurs_at(s, pat, j + 1));
            }
        }
        lemma_replace_all_first(s.skip(1), pat, val, i - 1);
        assert(s.skip(1).take(i - 1) =~= s.subrange(1, i));
        assert(s.skip(1).skip(i - 1 + pat.len() as int) =~= s.skip(i + pat.len() as int));
        assert(seq![s[0]] + (s.subrange(1, i) + val + replace_all(
            s.skip(i + pat.len() as int),
            pat,
            val,
        )) =~= s.take(i) + val + replace_all(s.skip(i + pat.len() as int), pat, val));
    }
}

/// Splitting `rest` on single spaces, with `cur` the token read so far.
/// Empty tokens are kept, as they are when adjacent separators are split.
pub open spec fn split_rec(rest: Seq<char>, cur: Seq<char>) -> Seq<Seq<char>>
    decreases rest.len(),
{
    if rest.len() == 0 {
        seq![cur]
    } else if rest[0] == ' ' {
        seq![cur] + split_rec(rest.skip(1), Seq::empty())
    } else {
        split_rec(rest.skip(1), cur.push(rest[0]))
    }
}

/// The tokens of `s`, split on every single ASCII space. Values containing
/// spaces are split across tokens; no quoting is recognized.
pub open spec fn split_spaces(s: Seq<char>) -> Seq<Seq<char>> {
    split_rec(s, Seq::empty())
}

/// The views of a sequence of owned strings.
pub open spec fn str_views(v: Seq<String>) -> Seq<Seq<char>> {
    v.map_values(|t: String| t@)
}

/// Split `s` into its space-separated tokens.
pub fn split_spaces_str(s: &str) -> (r: Vec<String>)
    ensures
        str_views(r@) == split_spaces(s@),
{
    let s_len = s.unicode_len();
    let mut out: Vec<String> = Vec::new();
    let mut start: usize = 0;
    let mut i: usize = 0;
    proof {
        assert(s@.skip(0) =~= s@);
        assert(s@.subrange(0, 0) =~= Seq::<char>::empty());
        assert(str_views(Seq::empty()) =~= Seq::<Seq<char>>::empty());
        assert(Seq::<Seq<char>>::empty() + split_rec(s@, Seq::empty()) =~= split_rec(
            s@,
            Seq::empty(),
        ));
    }
    while i < s_len
        invariant
            start <= i <= s_len,
            s_len == s@.len(),
            split_spaces(s@) == str_views(out@) + split_rec(
                s@.skip(i as int),
                s@.subrange(start as int, i as int),
            ),
        decreases s_len - i,
    {
        let ghost rest = s@.skip(i as int);
        let ghost cur = s@.subrange(start as int, i as int);
        let c = s.get_char(i);
        if c == ' ' {
            let token = s.substring_char(start, i);
            proof {
                assert(rest.skip(1) =~= s@.skip(i + 1));
                assert(split_rec(rest, cur) == seq![cur] + split_rec(
                    s@.skip(i + 1),
                    Seq::empty(),
                ));
            }
            out.push(token.to_owned());
            proof {
                assert(s@.subrange(i + 1, i + 1) =~= Seq::<char>::empty());
                assert(str_views(out@) =~= str_views(out@.drop_last()) + seq![token@]);
                assert(str_views(out@.drop_last()) + split_rec(rest, cur) =~= (str_views(
                    out@.drop_last(),
                ) + seq![cur]) + split_rec(s@.skip(i + 1), Seq::empty()));
            }
            start = i + 1;
            i = i + 1;
        } else {
            proof {
                assert(rest.skip(1) =~= s@.skip(i + 1));
                assert(cur.push(rest[0]) =~= s@.subrange(start as int, i + 1));
            }
            i = i + 1;
        }
    }
    let token = s.substring_char(start, s_len);
    proof {
        assert(s@.skip(s_len as int) =~= Seq::<char>::empty());
        assert(split_rec(Seq::empty(), s@.subrange(start as int, s_len as int)) == seq![
            s@.subrange(start as int, s_len as int),
        ]);
    }
    out.push(token.to_owned());
    proof {
        assert(str_views(out@) =~= str_views(out@.drop_last()) + seq![token@]);
    }
    out
}

/// The decimal digit character for `d`.
pub open spec fn digit_char(d: int) -> char {
    if d == 0 {
        '0'
    } else if d == 1 {
        '1'
    } else if d == 2 {
        '2'
    } else if d == 3 {
        '3'
    } else if d == 4 {
        '4'
    } else if d == 5 {
        '5'
    } else if d == 6 {
        '6'
    } else if d == 7 {
        '7'
    } else if d == 8 {
        '8'
    } else {
        '9'
    }
}

/// The usual decimal rendering of `n`, most significant digit first and
/// without leading zeros (a single `'0'` for zero).
pub open spec fn dec_digits(n: int) -> Seq<char>
    decreases n,
{
    if n < 10 {
        seq![digit_char(n)]
    } else {
        dec_digits(n / 10).push(digit_char(n % 10))
    }
}

/// The decimal digit `d` as a one-character string.
fn digit_str(d: u32) -> (r: &'static str)
    requires
        d < 10,
    ensures
        r@ =~= seq![digit_char(d as int)],
{
    proof {
        reveal_strlit("0");
        reveal_strlit("1");
        reveal_strlit("2");
        reveal_strlit("3");
        reveal_strlit("4");
        reveal_strlit("5");
        reveal_strlit("6");
        reveal_strlit("7");
        reveal_strlit("8");
        reveal_strlit("9");
    }
    match d {
        0 => "0",
        1 => "1",
        2 => "2",
        3 => "3",
        4 => "4",
        5 => "5",
        6 => "6",
        7 => "7",
        8 => "8",
        _ => "9",
    }
}

/// Append the decimal rendering of `n` to `out`.
fn push_decimal(n: u32, out: &mut String)
    ensures
        final(out)@ == old(out)@ + dec_digits(n as int),
    decreases n,
{
    if n >= 10 {
        push_decimal(n / 10, out);
    }
    out.append(digit_str(n % 10));
    proof {
        if n < 10 {
            assert(old(out)@ + seq![digit_char(n as int)] =~= old(out)@ + dec_digits(n as int));
        } else {
            assert((old(out)@ + dec_digits(n as int / 10)) + seq![digit_char(n as int % 10)]
                =~= old(out)@ + dec_digits(n as int));
        }
    }
}

/// The decimal rendering of `n` as a string.
pub fn u32_to_decimal(n: u32) -> (r: String)
    ensures
        r@ == dec_digits(n as int),
{
    let mut out = String::new();
    push_decimal(n, &mut out);
    proof {
        assert(Seq::<char>::empty() + dec_digits(n as int) =~= dec_digits(n as int));
    }
    out
}

} // verus!
