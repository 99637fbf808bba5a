//! Verified text building blocks: joining with a separator, substring
//! replacement, trailing-character trimming, and decimal rendering.

use vstd::prelude::*;
use vstd::string::*;

verus! {

/// The views of a sequence of strings.
pub open spec fn str_views(v: Seq<String>) -> Seq<Seq<char>> {
    Seq::new(v.len(), |i: int| v[i]@)
}

/// The elements of `msgs` in order, with `sep` between adjacent elements
/// and nothing at the ends.
pub open spec fn joined(msgs: Seq<Seq<char>>, sep: Seq<char>) -> Seq<char>
    decreases msgs.len(),
{
    if msgs.len() == 0 {
        Seq::empty()
    } else if msgs.len() == 1 {
        msgs[0]
    } else {
        msgs[0] + sep + joined(msgs.drop_first(), sep)
    }
}

/// Law: a join preserves encounter order and places the separator exactly
/// between adjacent messages, never at the ends — appending one message to
/// an empty join yields that message alone, and appending to a non-empty
/// join adds exactly one separator followed by the new message.
pub proof fn lemma_joined_push(msgs: Seq<Seq<char>>, sep: Seq<char>, m: Seq<char>)
    ensures
        msgs.len() == 0 ==> joined(msgs.push(m), sep) == m,
        msgs.len() > 0 ==> joined(msgs.push(m), sep) == joined(msgs, sep) + sep + m,
    decreases msgs.len(),
{
    let p = msgs.push(m);
    if msgs.len() == 0 {
        assert(p.len() == 1);
        assert(joined(p, sep) == p[0]);
    } else if msgs.len() == 1 {
        assert(p.drop_first() =~= Seq::<Seq<char>>::empty().push(m));
        assert(joined(p.drop_first(), sep) == m);
        assert(joined(p, sep) == p[0] + sep + m);
    } else {
        lemma_joined_push(msgs.drop_first(), sep, m);
        assert(p.drop_first() =~= msgs.drop_first().push(m));
        assert(joined(p, sep) == p[0] + sep + joined(p.drop_first(), sep));
        assert(msgs[0] + sep + (joined(msgs.drop_first(), sep) + sep + m) =~= (msgs[0] + sep
            + joined(msgs.drop_first(), sep)) + sep + m);
    }
}

/// Join the strings of `v` in order, with `sep` between adjacent elements.
pub fn join_with(v: &Vec<String>, sep: &str) -> (r: String)
    ensures
        r@ == joined(str_views(v@), sep@),
{
    let mut out = String::new();
    let mut i: usize = 0;
    while i < v.len()
        invariant
            i <= v@.len(),
            out@ == joined(str_views(v@).take(i as int), sep@),
        decreases v@.len() - i,
    {
        if i > 0 {
            out.append(sep);
        }
        out.append(v[i].as_str());
        proof {
            let msgs = str_views(v@);
            lemma_joined_push(msgs.take(i as int), sep@, v@[i as int]@);
            assert(msgs.take(i as int + 1) =~= msgs.take(i as int).push(v@[i as int]@));
            if i == 0 {
                assert(out@ =~= v@[0]@);
            }
        }
        i = i + 1;
    }
    proof {
        assert(str_views(v@).take(v@.len() as int) =~= str_views(v@));
    }
    out
}

/// Whether `pat` occurs in `t` starting at index `i`.
pub open spec fn match_at(t: Seq<char>, pat: Seq<char>, i: int) -> bool {
    0 <= i && i + pat.len() <= t.len() && t.subrange(i, i + pat.len() as int) == pat
}

/// `t` with every non-overlapping occurrence of `pat`, scanned left to
/// right, replaced by `rep`.
pub open spec fn replaced(t: Seq<char>, pat: Seq<char>, rep: Seq<char>) -> Seq<char>
    decreases t.len(),
{
    if pat.len() == 0 || t.len() == 0 {
        t
    } else if match_at(t, pat, 0) {
        rep + replaced(t.skip(pat.len() as int), pat, rep)
    } else {
        seq![t[0]] + replaced(t.skip(1), pat, rep)
    }
}

/// Whether `pat` occurs in `t` at index `i`, decided by characters.
fn matches_at(t: &str, i: usize, pat: &str) -> (b: bool)
    requires
        i <= t@.len(),
    ensures
        b == match_at(t@, pat@, i as int),
{
    let tlen = t.unicode_len();
    let plen = pat.unicode_len();
    if plen > tlen - i {
        return false;
    }
    let mut j: usize = 0;
    while j < plen
        invariant
            j <= plen,
            i + plen <= tlen,
            tlen == t@.len(),
            plen == pat@.len(),
            forall|k: int| 0 <= k < j ==> t@[i + k] == pat@[k],
        decreases plen - j,
    {
        if t.get_char(i + j) != pat.get_char(j) {
            proof {
                assert(t@.subrange(i as int, i + plen as int)[j as int] == t@[i + j]);
            }
            return false;
        }
        j = j + 1;
    }
    proof {
        assert(t@.subrange(i as int, i + plen as int) =~= pat@);
    }
    true
}

/// Replace every non-overlapping occurrence of `pat` in `t` by `rep`,
/// scanning left to right.
pub fn replace_all(t: &str, pat: &str, rep: &str) -> (r: String)
    requires
        pat@.len() > 0,
    ensures
        r@ == replaced(t@, pat@, rep@),
{
    let tlen = t.unicode_len();
    let plen = pat.unicode_len();
    let mut out = String::new();
    let mut i: usize = 0;
    proof {
        assert(t@.skip(0) =~= t@);
        assert(out@ + replaced(t@, pat@, rep@) =~= replaced(t@, pat@, rep@));
    }
    while i < tlen
        invariant
            i <= tlen,
            tlen == t@.len(),
            plen == pat@.len(),
            plen > 0,
            replaced(t@, pat@, rep@) == out@ + replaced(t@.skip(i as int), pat@, rep@),
        decreases tlen - i,
    {
        let ghost rest = t@.skip(i as int);
        if matches_at(t, i, pat) {
            out.append(rep);
            proof {
                assert(rest.subrange(0, plen as int) =~= t@.subrange(i as int, i + plen as int));
                assert(match_at(rest, pat@, 0));
                assert(rest.skip(plen as int) =~= t@.skip(i + plen as int));
                assert(replaced(rest, pat@, rep@) == rep@ + replaced(
                    t@.skip(i + plen as int),
                    pat@,
                    rep@,
                ));
            }
            i = i + plen;
        } else {
            let c = t.substring_char(i, i + 1);
            out.append(c);
            proof {
                if i + plen <= tlen {
                    assert(rest.subrange(0, plen as int) =~= t@.subrange(
                        i as int,
                        i + plen as int,
                    ));
                }
                assert(!match_at(rest, pat@, 0));
                assert(seq![rest[0]] =~= t@.subrange(i as int, i + 1));
                assert(rest.skip(1) =~= t@.skip(i + 1));
                assert(replaced(rest, pat@, rep@) == seq![rest[0]] + replaced(
                    t@.skip(i + 1),
                    pat@,
                    rep@,
                ));
            }
            i = i + 1;
        }
        proof {
            assert(out@ + replaced(t@.skip(i as int), pat@, rep@) =~= replaced(t@, pat@, rep@));
        }
    }
    proof {
        assert(t@.skip(tlen as int) =~= Seq::<char>::empty());
        assert(out@ + Seq::<char>::empty() =~= out@);
    }
    out
}

/// Law: replacement substitutes at every occurrence. Where no occurrence
/// of `pat` begins inside `x`, replacing in `x + pat + y` keeps `x` as it
/// is, substitutes `rep` for that occurrence, and continues in `y` alone;
/// applied twice, it shows that a template with two placeholders has both
/// replaced identically.
pub proof fn lemma_replaced_occurrence(x: Seq<char>, pat: Seq<char>, rep: Seq<char>, y: Seq<char>)
    requires
        pat.len() > 0,
        forall|i: int| 0 <= i < x.len() ==> !match_at(x + pat + y, pat, i),
    ensures
        replaced(x + pat + y, pat, rep) == x + rep + replaced(y, pat, rep),
    decreases x.len(),
{
    let t = x + pat + y;
    if x.len() == 0 {
        assert(t.subrange(0, pat.len() as int) =~= pat);
        assert(match_at(t, pat, 0));
        assert(replaced(t, pat, rep) == rep + replaced(t.skip(pat.len() as int), pat, rep));
        assert(t.skip(pat.len() as int) =~= y);
        assert(rep + replaced(y, pat, rep) =~= x + rep + replaced(y, pat, rep));
    } else {
        assert(!match_at(t, pat, 0));
        assert(replaced(t, pat, rep) == seq![t[0]] + replaced(t.skip(1), pat, rep));
        let xr = x.drop_first();
        assert(t.skip(1) =~= xr + pat + y);
        assert forall|i: int| 0 <= i < xr.len() implies !match_at(xr + pat + y, pat, i) by {
            assert(!match_at(t, pat, i + 1));
            if match_at(xr + pat + y, pat, i) {
                assert((xr + pat + y).subrange(i, i + pat.len() as int) =~= t.subrange(
                    i + 1,
                    i + 1 + pat.len() as int,
                ));
            }
        }
        lemma_replaced_occurrence(xr, pat, rep, y);
        assert(seq![t[0]] + (xr + rep + replaced(y, pat, rep)) =~= x + rep + replaced(
            y,
            pat,
            rep,
        ));
    }
}

/// `s` with every trailing occurrence of `c` removed.
pub open spec fn trimmed_end(s: Seq<char>, c: char) -> Seq<char>
    decreases s.len(),
{
    if s.len() > 0 && s[s.len() - 1] == c {
        trimmed_end(s.drop_last(), c)
    } else {
        s
    }
}

/// Strip every trailing occurrence of `c` from `s`.
pub fn trim_trailing<'a>(s: &'a str, c: char) -> (r: &'a str)
    ensures
        r@ == trimmed_end(s@, c),
{
    let mut end = s.unicode_len();
    proof {
        assert(s@.take(end as int) =~= s@);
    }
    while end > 0 && s.get_char(end - 1) == c
        invariant
            end <= s@.len(),
            trimmed_end(s@.take(end as int), c) == trimmed_end(s@, c),
        decreases end,
    {
        proof {
            assert(s@.take(end as int).drop_last() =~= s@.take(end - 1));
        }
        end = end - 1;
    }
    proof {
        assert(trimmed_end(s@.take(end as int), c) == s@.take(end as int));
    }
    s.substring_char(0, end)
}

/// The character for one decimal digit.
pub open spec fn digit_char(d: nat) -> char {
    if d == 0 {
        '0'
    } else if d == 1 {
        '1'
    } else if d == 2 {
        '2'
    } else if d == 3 {
        '3'
    } else if d == 4 {
        '4'
    } else if d == 5 {
        '5'
    } else if d == 6 {
        '6'
    } else if d == 7 {
        '7'
    } else if d == 8 {
        '8'
    } else {
        '9'
    }
}

/// The decimal digits of `n`, most significant first, without leading
/// zeros (a single `'0'` for zero).
pub open spec fn dec_digits(n: nat) -> Seq<char>
    decreases n,
{
    if n < 10 {
        seq![digit_char(n)]
    } else {
        dec_digits(n / 10) + seq![digit_char(n % 10)]
    }
}

/// The decimal rendering of a signed number: a minus sign before the
/// digits of the magnitude when negative.
pub open spec fn dec_signed(n: int) -> Seq<char> {
    if n < 0 {
        seq!['-'] + dec_digits((-n) as nat)
    } else {
        dec_digits(n as nat)
    }
}

/// Relies on String's FromIterator implementation over characters:
/// collecting characters yields the string of exactly those characters.
#[verifier::external_body]
fn string_from_chars(v: Vec<char>) -> (r: String)
    ensures
        r@ == v@,
{
    v.into_iter().collect()
}

/// The exec twin of `digit_char`.
fn digit_char_exec(d: u64) -> (c: char)
    requires
        d < 10,
    ensures
        c == digit_char(d as nat),
{
    if d == 0 {
        '0'
    } else if d == 1 {
        '1'
    } else if d == 2 {
        '2'
    } else if d == 3 {
        '3'
    } else if d == 4 {
        '4'
    } else if d == 5 {
        '5'
    } else if d == 6 {
        '6'
    } else if d == 7 {
        '7'
    } else if d == 8 {
        '8'
    } else {
        '9'
    }
}

/// Render `n` in decimal.
pub fn u64_to_dec(n: u64) -> (r: String)
    ensures
        r@ == dec_digits(n as nat),
{
    let mut rev: Vec<char> = Vec::new();
    let mut m: u64 = n;
    while m >= 10
        invariant
            dec_digits(n as nat) == dec_digits(m as nat) + rev@.reverse(),
        decreases m,
    {
        let d = digit_char_exec(m % 10);
        rev.push(d);
        proof {
            assert(rev@.reverse() =~= seq![d] + rev@.drop_last().reverse());
            assert(dec_digits(m as nat) == dec_digits((m as nat) / 10) + seq![
                digit_char((m as nat) % 10),
            ]);
            assert(dec_digits((m as nat) / 10) + (seq![d] + rev@.drop_last().reverse())
                =~= (dec_digits((m as nat) / 10) + seq![d]) + rev@.drop_last().reverse());
        }
        m = m / 10;
    }
    let d = digit_char_exec(m);
    rev.push(d);
    proof {
        assert(rev@.reverse() =~= seq![d] + rev@.drop_last().reverse());
        assert(dec_digits(n as nat) =~= rev@.reverse());
    }
    let mut out: Vec<char> = Vec::new();
    let mut k: usize = 0;
    while k < rev.len()
        invariant
            k <= rev@.len(),
            out@ =~= rev@.reverse().take(k as int),
        decreases rev@.len() - k,
    {
        out.push(rev[rev.len() - 1 - k]);
        proof {
            assert(out@ =~= rev@.reverse().take(k + 1));
        }
        k = k + 1;
    }
    proof {
        assert(rev@.reverse().take(rev@.len() as int) =~= rev@.reverse());
    }
    string_from_chars(out)
}

/// Render `n` in decimal, with a minus sign when negative.
pub fn i64_to_dec(n: i64) -> (r: String)
    ensures
        r@ == dec_signed(n as int),
{
    if n < 0 {
        let mag: u64 = ((-(n + 1)) as u64) + 1;
        let digits = u64_to_dec(mag);
        let r = String::from_str("-").concat(digits.as_str());
        proof {
            reveal_strlit("-");
            assert("-"@ =~= seq!['-']);
            assert(r@ =~= dec_signed(n as int));
        }
        r
    } else {
        u64_to_dec(n as u64)
    }
}

} // verus!
