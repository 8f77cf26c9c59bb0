//! Verified character-level text operations used by the monitor: prefix
//! matching, removal of every occurrence of a pattern, and decimal rendering
//! of numbers.

use vstd::prelude::*;

verus! {

/// True when the pattern `p` occurs in `s` starting at position `i`.
pub open spec fn matches_at(s: Seq<char>, p: Seq<char>, i: int) -> bool {
    0 <= i && i + p.len() <= s.len() && s.subrange(i, i + p.len()) == p
}

/// True when `s` begins with the pattern `p`.
pub open spec fn starts_with(s: Seq<char>, p: Seq<char>) -> bool {
    matches_at(s, p, 0)
}

/// `s` with every (non-overlapping, leftmost-first) occurrence of `p`
/// removed; `s` unchanged when `p` is empty.
pub open spec fn strip_occurrences(s: Seq<char>, p: Seq<char>) -> Seq<char>
    decreases s.len(),
{
    if p.len() == 0 || s.len() < p.len() {
        s
    } else if s.subrange(0, p.len() as int) == p {
        strip_occurrences(s.skip(p.len() as int), p)
    } else {
        seq![s[0]] + strip_occurrences(s.skip(1), p)
    }
}

/// Decides whether `p` occurs in `s` at character position `i`.
pub fn match_at(s: &str, p: &str, i: usize) -> (r: bool)
    requires
        i <= s@.len(),
    ensures
        r == matches_at(s@, p@, i as int),
{
    let n = s.unicode_len();
    let plen = p.unicode_len();
    if plen > n - i {
        return false;
    }
    let mut j: usize = 0;
    while j < plen
        invariant
            j <= plen,
            i + plen <= n,
            n == s@.len(),
            plen == p@.len(),
            forall|k: int| 0 <= k < j ==> s@[i + k] == p@[k],
        decreases plen - j,
    {
        if s.get_char(i + j) != p.get_char(j) {
            proof {
                assert(s@.subrange(i as int, i + p@.len())[j as int] == s@[i + j]);
            }
            return false;
        }
        j += 1;
    }
    proof {
        assert(s@.subrange(i as int, i + p@.len()) =~= p@);
    }
    true
}

/// Decides whether `s` begins with `p`.
pub fn str_starts_with(s: &str, p: &str) -> (r: bool)
    ensures
        r == starts_with(s@, p@),
{
    match_at(s, p, 0)
}

/// Returns `s` with every occurrence of the non-empty pattern `p` removed,
/// scanning left to right.
pub fn strip_all(s: &str, p: &str) -> (r: String)
    requires
        p@.len() > 0,
    ensures
        r@ == strip_occurrences(s@, p@),
{
    let n = s.unicode_len();
    let plen = p.unicode_len();
    let mut out = String::new();
    let mut run: usize = 0;
    let mut i: usize = 0;
    proof {
        assert(s@.skip(0) =~= s@);
        assert(out@ + s@.subrange(0, 0) + strip_occurrences(s@.skip(0), p@)
            =~= strip_occurrences(s@, p@));
    }
    while i < n
        invariant
            run <= i <= n,
            n == s@.len(),
            plen == p@.len(),
            plen > 0,
            out@ + s@.subrange(run as int, i as int) + strip_occurrences(s@.skip(i as int), p@)
                == strip_occurrences(s@, p@),
        decreases n - i,
    {
        if match_at(s, p, i) {
            let piece = s.substring_char(run, i);
            out.append(piece);
            proof {
                let rest = s@.skip(i as int);
                assert(rest.subrange(0, plen as int) =~= s@.subrange(i as int, i + plen as int));
                assert(rest.skip(plen as int) =~= s@.skip(i + plen as int));
                assert(strip_occurrences(rest, p@) == strip_occurrences(s@.skip(i + plen), p@));
                assert(out@ + s@.subrange((i + plen) as int, (i + plen) as int)
                    + strip_occurrences(s@.skip(i + plen), p@)
                    =~= strip_occurrences(s@, p@));
            }
            i += plen;
            run = i;
        } else {
            proof {
                let rest = s@.skip(i as int);
                if rest.len() < plen {
                    assert(strip_occurrences(rest, p@) == rest);
                    assert(strip_occurrences(s@.skip(i + 1), p@) == s@.skip(i + 1));
                    assert(out@ + s@.subrange(run as int, i + 1) + s@.skip(i + 1)
                        =~= out@ + s@.subrange(run as int, i as int) + rest);
                } else {
                    assert(rest.subrange(0, plen as int) =~= s@.subrange(i as int, i + plen as int));
                    assert(rest.subrange(0, plen as int) != p@);
                    assert(rest.skip(1) =~= s@.skip(i + 1));
                    assert(strip_occurrences(rest, p@)
                        == seq![s@[i as int]] + strip_occurrences(s@.skip(i + 1), p@));
                    assert(out@ + s@.subrange(run as int, i + 1)
                        + strip_occurrences(s@.skip(i + 1), p@)
                        =~= out@ + s@.subrange(run as int, i as int)
                        + strip_occurrences(rest, p@));
                }
            }
            i += 1;
        }
    }
    let tail = s.substring_char(run, n);
    out.append(tail);
    proof {
        assert(s@.skip(n as int).len() == 0);
        assert(strip_occurrences(s@.skip(n as int), p@) == s@.skip(n as int));
        assert(out@ =~= strip_occurrences(s@, p@));
    }
    out
}

/// The character denoting a single decimal digit.
pub open spec fn decimal_digit(d: nat) -> char {
    if d == 0 {
        '0'
    } else if d == 1 {
        '1'
    } else if d == 2 {
        '2'
    } else if d == 3 {
        '3'
    } else if d == 4 {
        '4'
    } else if d == 5 {
        '5'
    } else if d == 6 {
        '6'
    } else if d == 7 {
        '7'
    } else if d == 8 {
        '8'
    } else {
        '9'
    }
}

/// The usual decimal rendering of `n`, without leading zeros (a single `'0'`
/// for zero itself).
pub open spec fn decimal_of(n: nat) -> Seq<char>
    decreases n,
{
    if n < 10 {
        seq![decimal_digit(n)]
    } else {
        decimal_of(n / 10) + seq![decimal_digit(n % 10)]
    }
}

/// A one-character string for the decimal digit `d`.
fn digit_str(d: u16) -> (r: &'static str)
    requires
        d < 10,
    ensures
        r@ == seq![decimal_digit(d as nat)],
{
    proof {
        reveal_strlit("0");
        reveal_strlit("1");
        reveal_strlit("2");
        reveal_strlit("3");
        reveal_strlit("4");
        reveal_strlit("5");
        reveal_strlit("6");
        reveal_strlit("7");
        reveal_strlit("8");
        reveal_strlit("9");
    }
    let r = if d == 0 {
        "0"
    } else if d == 1 {
        "1"
    } else if d == 2 {
        "2"
    } else if d == 3 {
        "3"
    } else if d == 4 {
        "4"
    } else if d == 5 {
        "5"
    } else if d == 6 {
        "6"
    } else if d == 7 {
        "7"
    } else if d == 8 {
        "8"
    } else {
        "9"
    };
    proof {
        assert(r@ =~= seq![decimal_digit(d as nat)]);
    }
    r
}

/// Renders `n` in decimal.
pub fn u16_to_decimal(n: u16) -> (r: String)
    ensures
        r@ == decimal_of(n as nat),
    decreases n,
{
    if n < 10 {
        String::from_str(digit_str(n))
    } else {
        let front = u16_to_decimal(n / 10);
        front.concat(digit_str(n % 10))
    }
}

} // verus!
