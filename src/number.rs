//! Numbers that the backends report as text.
use vstd::prelude::*;

verus! {

pub open spec fn is_sign(c: char) -> bool {
    c == '+' || c == '-'
}

pub open spec fn is_digit(c: char) -> bool {
    '0' <= c && c <= '9'
}

pub open spec fn is_exp_mark(c: char) -> bool {
    c == 'e' || c == 'E'
}

/// States of the automaton that reads a finite decimal literal:
/// 0 start, 1 after the sign, 2 in the integer digits, 3 after a leading
/// point, 4 in the fraction, 5 after the exponent mark, 6 after the
/// exponent's sign, 7 in the exponent digits, 8 rejected.
pub open spec fn next_state(q: u8, c: char) -> u8 {
    if q == 0 && is_sign(c) {
        1
    } else if (q == 0 || q == 1 || q == 2) && is_digit(c) {
        2
    } else if (q == 0 || q == 1) && c == '.' {
        3
    } else if q == 2 && c == '.' {
        4
    } else if (q == 3 || q == 4) && is_digit(c) {
        4
    } else if (q == 2 || q == 4) && is_exp_mark(c) {
        5
    } else if q == 5 && is_sign(c) {
        6
    } else if (q == 5 || q == 6 || q == 7) && is_digit(c) {
        7
    } else {
        8
    }
}

/// The state reached after reading all of `s`.
pub open spec fn run(s: Seq<char>) -> u8
    decreases s.len(),
{
    if s.len() == 0 {
        0
    } else {
        next_state(run(s.drop_last()), s.last())
    }
}

/// `s` is a finite literal: digits with at most one point, at least one
/// digit, an optional sign, and an optional exponent (`e` or `E`, an
/// optional sign, digits).
pub open spec fn is_finite_text(s: Seq<char>) -> bool {
    let q = run(s);
    q == 2 || q == 4 || q == 7
}

/// `c` is the lower-case ASCII letter `l` in either case.
pub open spec fn same_letter(c: char, l: char) -> bool {
    c == l || (c as u32) + 32 == (l as u32)
}

/// `s` spells the lower-case word `w` with ASCII letters in either case.
pub open spec fn spells(s: Seq<char>, w: Seq<char>) -> bool {
    s.len() == w.len() && forall|i: int| 0 <= i < s.len() ==> same_letter(#[trigger] s[i], w[i])
}

pub open spec fn unsigned_part(s: Seq<char>) -> Seq<char> {
    if s.len() > 0 && is_sign(s[0]) {
        s.skip(1)
    } else {
        s
    }
}

pub open spec fn is_infinity_text(s: Seq<char>) -> bool {
    spells(unsigned_part(s), seq!['i', 'n', 'f']) || spells(
        unsigned_part(s),
        seq!['i', 'n', 'f', 'i', 'n', 'i', 't', 'y'],
    )
}

pub open spec fn is_nan_text(s: Seq<char>) -> bool {
    spells(unsigned_part(s), seq!['n', 'a', 'n'])
}

/// `s` is text that a floating-point number can be read from: a finite
/// literal, or an optionally signed `inf`, `infinity` or `nan` in any case.
pub open spec fn is_float_text(s: Seq<char>) -> bool {
    is_finite_text(s) || is_infinity_text(s) || is_nan_text(s)
}

fn step(q: u8, c: char) -> (r: u8)
    ensures
        r == next_state(q, c),
{
    let sign = c == '+' || c == '-';
    let digit = '0' <= c && c <= '9';
    let mark = c == 'e' || c == 'E';
    if q == 0 && sign {
        1
    } else if (q == 0 || q == 1 || q == 2) && digit {
        2
    } else if (q == 0 || q == 1) && c == '.' {
        3
    } else if q == 2 && c == '.' {
        4
    } else if (q == 3 || q == 4) && digit {
        4
    } else if (q == 2 || q == 4) && mark {
        5
    } else if q == 5 && sign {
        6
    } else if (q == 5 || q == 6 || q == 7) && digit {
        7
    } else {
        8
    }
}

fn finite_text(s: &str) -> (r: bool)
    ensures
        r == is_finite_text(s@),
{
    let n = s.unicode_len();
    let mut q: u8 = 0;
    let mut i: usize = 0;
    while i < n
        invariant
            n == s@.len(),
            i <= n,
            q == run(s@.take(i as int)),
        decreases n - i,
    {
        let c = s.get_char(i);
        assert(s@.take(i + 1).drop_last() =~= s@.take(i as int));
        q = step(q, c);
        i = i + 1;
    }
    assert(s@.take(n as int) =~= s@);
    q == 2 || q == 4 || q == 7
}

fn letter_matches(c: char, l: char) -> (r: bool)
    ensures
        r == same_letter(c, l),
{
    c == l || (c as u32) + 32 == (l as u32)
}

/// Whether the characters of `s` from `start` on spell `w`.
fn spells_from(s: &str, start: usize, w: &Vec<char>) -> (r: bool)
    requires
        start <= s@.len(),
    ensures
        r == spells(s@.skip(start as int), w@),
{
    let n = s.unicode_len();
    if n - start != w.len() {
        return false;
    }
    let mut i: usize = 0;
    while i < w.len()
        invariant
            n == s@.len(),
            start <= n,
            n - start == w@.len(),
            i <= w@.len(),
            forall|k: int| 0 <= k < i ==> same_letter(#[trigger] s@.skip(start as int)[k], w@[k]),
        decreases w@.len() - i,
    {
        let c = s.get_char(start + i);
        assert(s@.skip(start as int)[i as int] == s@[start + i]);
        if !letter_matches(c, w[i]) {
            return false;
        }
        i = i + 1;
    }
    true
}

/// Whether a floating-point number can be read from `s`.
pub fn is_float(s: &str) -> (r: bool)
    ensures
        r == is_float_text(s@),
{
    let n = s.unicode_len();
    let start: usize = if n > 0 && (s.get_char(0) == '+' || s.get_char(0) == '-') {
        1
    } else {
        0
    };
    assert(unsigned_part(s@) =~= s@.skip(start as int));
    let inf = vec!['i', 'n', 'f'];
    let infinity = vec!['i', 'n', 'f', 'i', 'n', 'i', 't', 'y'];
    let nan = vec!['n', 'a', 'n'];
    assert(inf@ =~= seq!['i', 'n', 'f']);
    assert(infinity@ =~= seq!['i', 'n', 'f', 'i', 'n', 'i', 't', 'y']);
    assert(nan@ =~= seq!['n', 'a', 'n']);
    finite_text(s) || spells_from(s, start, &inf) || spells_from(s, start, &infinity)
        || spells_from(s, start, &nan)
}

} // verus!
