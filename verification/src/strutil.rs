//! Verified string helpers: equality, concatenation, prefix tests,
//! substring replacement, and decimal rendering of counters.

use vstd::prelude::*;

verus! {

/// Character-wise string equality.
pub fn str_eq(a: &str, b: &str) -> (r: bool)
    ensures
        r == (a@ == b@),
{
    let n = a.unicode_len();
    if n != b.unicode_len() {
        proof {
            assert(a@.len() != b@.len());
        }
        return false;
    }
    let mut i: usize = 0;
    while i < n
        invariant
            0 <= i <= n,
            n == a@.len(),
            n == b@.len(),
            forall|j: int| 0 <= j < i ==> a@[j] == b@[j],
        decreases n - i,
    {
        if a.get_char(i) != b.get_char(i) {
            return false;
        }
        i += 1;
    }
    proof {
        assert(a@ =~= b@);
    }
    true
}

/// The concatenation of two strings.
pub fn str_concat(a: &str, b: &str) -> (r: String)
    ensures
        r@ == a@ + b@,
{
    let mut s = a.to_owned();
    s.append(b);
    s
}

/// The concatenation of three strings.
pub fn str_concat3(a: &str, b: &str, c: &str) -> (r: String)
    ensures
        r@ == a@ + b@ + c@,
{
    let mut s = a.to_owned();
    s.append(b);
    s.append(c);
    s
}

/// True iff `p` is a prefix of `s`.
pub fn str_starts_with(s: &str, p: &str) -> (r: bool)
    ensures
        r == (s@.len() >= p@.len() && s@.take(p@.len() as int) == p@),
{
    let np = p.unicode_len();
    let ns = s.unicode_len();
    if ns < np {
        return false;
    }
    let mut i: usize = 0;
    while i < np
        invariant
            0 <= i <= np,
            np == p@.len(),
            ns == s@.len(),
            ns >= np,
            forall|j: int| 0 <= j < i ==> s@[j] == p@[j],
        decreases np - i,
    {
        if s.get_char(i) != p.get_char(i) {
            proof {
                if s@.take(p@.len() as int) == p@ {
                    assert(s@.take(p@.len() as int)[i as int] == p@[i as int]);
                }
            }
            return false;
        }
        i += 1;
    }
    proof {
        assert(s@.take(p@.len() as int) =~= p@);
    }
    true
}

/// `s` with every occurrence of `from` replaced by `to`, leftmost-first
/// and non-overlapping; an empty `from` matches at every character
/// boundary, including both ends.
pub open spec fn spec_replace(s: Seq<char>, from: Seq<char>, to: Seq<char>) -> Seq<char>
    decreases s.len(),
{
    if from.len() == 0 {
        if s.len() == 0 {
            to
        } else {
            to + seq![s[0]] + spec_replace(s.drop_first(), from, to)
        }
    } else {
        if s.len() < from.len() {
            s
        } else if s.take(from.len() as int) == from {
            to + spec_replace(s.skip(from.len() as int), from, to)
        } else {
            seq![s[0]] + spec_replace(s.drop_first(), from, to)
        }
    }
}

/// `s` with every occurrence of `from` replaced by `to`.
pub fn str_replace(s: &str, from: &str, to: &str) -> (r: String)
    ensures
        r@ == spec_replace(s@, from@, to@),
    decreases s@.len(),
{
    let ns = s.unicode_len();
    let nf = from.unicode_len();
    if nf == 0 {
        if ns == 0 {
            return to.to_owned();
        }
        let head = s.substring_char(0, 1);
        let tail = s.substring_char(1, ns);
        let rest = str_replace(tail, from, to);
        let mut r = to.to_owned();
        r.append(head);
        r.append(rest.as_str());
        proof {
            assert(head@ =~= seq![s@[0]]);
            assert(tail@ =~= s@.drop_first());
        }
        return r;
    }
    if ns < nf {
        return s.to_owned();
    }
    if str_starts_with(s, from) {
        let tail = s.substring_char(nf, ns);
        let rest = str_replace(tail, from, to);
        let mut r = to.to_owned();
        r.append(rest.as_str());
        proof {
            assert(tail@ =~= s@.skip(from@.len() as int));
        }
        r
    } else {
        let head = s.substring_char(0, 1);
        let tail = s.substring_char(1, ns);
        let rest = str_replace(tail, from, to);
        let mut r = head.to_owned();
        r.append(rest.as_str());
        proof {
            assert(head@ =~= seq![s@[0]]);
            assert(tail@ =~= s@.drop_first());
        }
        r
    }
}

/// The decimal digits of `n`, most significant first.
pub open spec fn spec_u32_dec_chars(n: u32) -> Seq<char>
    decreases n,
{
    if n < 10 {
        seq![spec_dec_digit_char(n as int)]
    } else {
        spec_u32_dec_chars(n / 10) + seq![spec_dec_digit_char((n % 10) as int)]
    }
}

/// The character of one decimal digit.
pub open spec fn spec_dec_digit_char(d: int) -> char
    recommends
        0 <= d < 10,
{
    if d == 0 {
        '0'
    } else if d == 1 {
        '1'
    } else if d == 2 {
        '2'
    } else if d == 3 {
        '3'
    } else if d == 4 {
        '4'
    } else if d == 5 {
        '5'
    } else if d == 6 {
        '6'
    } else if d == 7 {
        '7'
    } else if d == 8 {
        '8'
    } else {
        '9'
    }
}

/// The character of one decimal digit, as a one-character string.
fn dec_digit_str(d: u32) -> (r: &'static str)
    requires
        d < 10,
    ensures
        r@ == seq![spec_dec_digit_char(d as int)],
{
    proof {
        reveal_strlit("0");
        reveal_strlit("1");
        reveal_strlit("2");
        reveal_strlit("3");
        reveal_strlit("4");
        reveal_strlit("5");
        reveal_strlit("6");
        reveal_strlit("7");
        reveal_strlit("8");
        reveal_strlit("9");
    }
    if d == 0 {
        "0"
    } else if d == 1 {
        "1"
    } else if d == 2 {
        "2"
    } else if d == 3 {
        "3"
    } else if d == 4 {
        "4"
    } else if d == 5 {
        "5"
    } else if d == 6 {
        "6"
    } else if d == 7 {
        "7"
    } else if d == 8 {
        "8"
    } else {
        "9"
    }
}

/// The decimal rendering of `n`.
pub fn u32_to_dec_string(n: u32) -> (r: String)
    ensures
        r@ == spec_u32_dec_chars(n),
    decreases n,
{
    if n < 10 {
        dec_digit_str(n).to_owned()
    } else {
        let mut r = u32_to_dec_string(n / 10);
        r.append(dec_digit_str(n % 10));
        r
    }
}

} // verus!
