//! Numbers as they are written on the command line.
//!
//! Whole numbers are read to their value. Decimal numbers are only recognised:
//! the library carries them as text and leaves their value to whoever computes
//! with them.

use vstd::prelude::*;
use crate::text::chars_of;

verus! {

/// A decimal digit.
pub open spec fn is_digit(c: char) -> bool {
    '0' <= c && c <= '9'
}

/// The value of a decimal digit.
pub open spec fn digit_value(c: char) -> nat {
    (c as u32 - '0' as u32) as nat
}

/// Every character is a decimal digit.
pub open spec fn all_digits(s: Seq<char>) -> bool {
    forall|i: int| 0 <= i < s.len() ==> is_digit(#[trigger] s[i])
}

/// The number that a run of digits writes down, most significant digit first.
pub open spec fn digits_value(s: Seq<char>) -> nat
    decreases s.len(),
{
    if s.len() == 0 {
        0
    } else {
        digits_value(s.drop_last()) * 10 + digit_value(s.last())
    }
}

/// Whether the text opens with a sign.
pub open spec fn has_sign(s: Seq<char>) -> bool {
    s.len() > 0 && (s[0] == '+' || s[0] == '-')
}

/// The text behind its sign, if it has one.
pub open spec fn unsigned_part(s: Seq<char>) -> Seq<char> {
    if has_sign(s) {
        s.subrange(1, s.len() as int)
    } else {
        s
    }
}

/// The value of a whole number: an optional sign, then one digit or more.
pub open spec fn integer_value(s: Seq<char>) -> Option<int> {
    let d = unsigned_part(s);
    if d.len() == 0 || !all_digits(d) {
        None
    } else if s[0] == '-' {
        Some(-(digits_value(d) as int))
    } else {
        Some(digits_value(d) as int)
    }
}

/// The value of a whole number that lies between zero and `max`.
pub open spec fn bounded_value(s: Seq<char>, max: int) -> Option<int> {
    match integer_value(s) {
        Some(v) => if 0 <= v <= max {
            Some(v)
        } else {
            None
        },
        None => None,
    }
}

/// Where the longest run of digits that starts at `from` ends.
pub open spec fn digit_run(s: Seq<char>, from: int) -> int
    decreases s.len() - from,
{
    if 0 <= from < s.len() && is_digit(s[from]) {
        digit_run(s, from + 1)
    } else {
        from
    }
}

/// An exponent: `e` or `E`, an optional sign, then one digit or more.
pub open spec fn is_exponent(s: Seq<char>) -> bool {
    &&& s.len() >= 2
    &&& (s[0] == 'e' || s[0] == 'E')
    &&& unsigned_part(s.subrange(1, s.len() as int)).len() >= 1
    &&& all_digits(unsigned_part(s.subrange(1, s.len() as int)))
}

/// Digits with at most one point among them and at least one digit in all,
/// then an optional exponent.
pub open spec fn is_number(s: Seq<char>) -> bool {
    let whole = digit_run(s, 0);
    let pointed = whole < s.len() && s[whole] == '.';
    let end = if pointed {
        digit_run(s, whole + 1)
    } else {
        whole
    };
    let digits = if pointed {
        end - 1
    } else {
        end
    };
    &&& digits >= 1
    &&& (end == s.len() || is_exponent(s.subrange(end, s.len() as int)))
}

/// One letter, in either case.
pub open spec fn is_letter(c: char, lower: char, upper: char) -> bool {
    c == lower || c == upper
}

/// The words `inf`, `infinity` and `nan`, in any mix of cases.
pub open spec fn is_special(s: Seq<char>) -> bool {
    let inf = s.len() >= 3 && is_letter(s[0], 'i', 'I') && is_letter(s[1], 'n', 'N') && is_letter(
        s[2],
        'f',
        'F',
    );
    let inity = s.len() == 8 && is_letter(s[3], 'i', 'I') && is_letter(s[4], 'n', 'N')
        && is_letter(s[5], 'i', 'I') && is_letter(s[6], 't', 'T') && is_letter(s[7], 'y', 'Y');
    let nan = s.len() == 3 && is_letter(s[0], 'n', 'N') && is_letter(s[1], 'a', 'A') && is_letter(
        s[2],
        'n',
        'N',
    );
    ||| inf && s.len() == 3
    ||| inf && inity
    ||| nan
}

/// A decimal number: an optional sign, then a number or one of the special
/// words. Nothing may stand before or behind it.
pub open spec fn is_decimal(s: Seq<char>) -> bool {
    is_special(unsigned_part(s)) || is_number(unsigned_part(s))
}

pub(crate) fn digit_at(c: char) -> (r: bool)
    ensures
        r == is_digit(c),
{
    '0' <= c && c <= '9'
}

/// Reads a whole number between zero and `max`.
pub fn read_bounded(s: &str, max: u32) -> (r: Option<u32>)
    ensures
        match bounded_value(s@, max as int) {
            Some(v) => r == Some(v as u32),
            None => r is None,
        },
{
    let cs = chars_of(s);
    let n = cs.len();
    let signed = n > 0 && (cs[0] == '+' || cs[0] == '-');
    let start: usize = if signed {
        1
    } else {
        0
    };
    if start == n {
        return None;
    }
    let ghost d = unsigned_part(s@);
    assert(d == cs@.subrange(start as int, n as int)) by {
        assert(cs@.subrange(0, n as int) =~= cs@);
    }
    let mut acc: u64 = 0;
    let mut over = false;
    let mut i: usize = start;
    while i < n
        invariant
            cs@ == s@,
            n == cs.len(),
            start <= i <= n,
            d == unsigned_part(s@),
            d == cs@.subrange(start as int, n as int),
            all_digits(d.subrange(0, i - start)),
            !over ==> acc == digits_value(d.subrange(0, i - start)) && acc <= max,
            over ==> digits_value(d.subrange(0, i - start)) > max,
        decreases n - i,
    {
        let c = cs[i];
        assert(c == d[i - start]);
        if !digit_at(c) {
            assert(!is_digit(d[i - start]));
            return None;
        }
        let ghost before = d.subrange(0, i - start);
        let ghost after = d.subrange(0, i - start + 1);
        assert(after.drop_last() =~= before);
        assert(after.last() == c);
        assert(digits_value(after) == digits_value(before) * 10 + digit_value(c));
        if !over {
            let v: u64 = acc * 10 + (c as u64 - '0' as u64);
            if v > max as u64 {
                over = true;
            } else {
                acc = v;
            }
        }
        i += 1;
    }
    assert(d.subrange(0, n - start) =~= d);
    if over {
        return None;
    }
    if cs[0] == '-' && acc != 0 {
        return None;
    }
    Some(acc as u32)
}

/// A run of digits holds digits only, stays inside the text, and stops at the
/// first character that is no digit.
pub proof fn lemma_digit_run(s: Seq<char>, from: int)
    requires
        0 <= from <= s.len(),
    ensures
        from <= digit_run(s, from) <= s.len(),
        forall|j: int| from <= j < digit_run(s, from) ==> is_digit(#[trigger] s[j]),
        digit_run(s, from) < s.len() ==> !is_digit(s[digit_run(s, from)]),
    decreases s.len() - from,
{
    if from < s.len() && is_digit(s[from]) {
        lemma_digit_run(s, from + 1);
    }
}

pub(crate) fn run_end(cs: &Vec<char>, from: usize) -> (r: usize)
    requires
        from <= cs.len(),
    ensures
        r == digit_run(cs@, from as int),
        from <= r <= cs.len(),
{
    let mut i: usize = from;
    while i < cs.len() && digit_at(cs[i])
        invariant
            from <= i <= cs.len(),
            digit_run(cs@, from as int) == digit_run(cs@, i as int),
        decreases cs.len() - i,
    {
        i += 1;
    }
    i
}

fn letter_at(c: char, lower: char, upper: char) -> (r: bool)
    ensures
        r == is_letter(c, lower, upper),
{
    c == lower || c == upper
}

pub(crate) fn exponent_at(cs: &Vec<char>, from: usize) -> (r: bool)
    requires
        from <= cs.len(),
    ensures
        r == is_exponent(cs@.subrange(from as int, cs.len() as int)),
{
    let n = cs.len();
    let ghost e = cs@.subrange(from as int, n as int);
    if n - from < 2 {
        return false;
    }
    assert(e[0] == cs@[from as int]);
    if !letter_at(cs[from], 'e', 'E') {
        return false;
    }
    let ghost tail = e.subrange(1, e.len() as int);
    assert(tail =~= cs@.subrange(from + 1, n as int));
    let signed = cs[from + 1] == '+' || cs[from + 1] == '-';
    assert(signed == has_sign(tail));
    let start: usize = if signed {
        from + 2
    } else {
        from + 1
    };
    assert(unsigned_part(tail) =~= cs@.subrange(start as int, n as int));
    let end = run_end(cs, start);
    proof {
        lemma_digit_run(cs@, start as int);
        let d = cs@.subrange(start as int, n as int);
        if end == n {
            assert(all_digits(d));
        } else {
            assert(!is_digit(d[end - start]));
        }
    }
    start < n && end == n
}

fn special_at(cs: &Vec<char>, from: usize) -> (r: bool)
    requires
        from <= cs.len(),
    ensures
        r == is_special(cs@.subrange(from as int, cs.len() as int)),
{
    let n = cs.len();
    let len = n - from;
    let ghost w = cs@.subrange(from as int, n as int);
    if len != 3 && len != 8 {
        return false;
    }
    assert(w[0] == cs@[from + 0] && w[1] == cs@[from + 1] && w[2] == cs@[from + 2]);
    let inf = letter_at(cs[from], 'i', 'I') && letter_at(cs[from + 1], 'n', 'N') && letter_at(
        cs[from + 2],
        'f',
        'F',
    );
    if len == 3 {
        let nan = letter_at(cs[from], 'n', 'N') && letter_at(cs[from + 1], 'a', 'A') && letter_at(
            cs[from + 2],
            'n',
            'N',
        );
        return inf || nan;
    }
    assert(w[3] == cs@[from + 3] && w[4] == cs@[from + 4] && w[5] == cs@[from + 5] && w[6]
        == cs@[from + 6] && w[7] == cs@[from + 7]);
    inf && letter_at(cs[from + 3], 'i', 'I') && letter_at(cs[from + 4], 'n', 'N') && letter_at(
        cs[from + 5],
        'i',
        'I',
    ) && letter_at(cs[from + 6], 't', 'T') && letter_at(cs[from + 7], 'y', 'Y')
}

fn number_at(cs: &Vec<char>, from: usize) -> (r: bool)
    requires
        from <= cs.len(),
    ensures
        r == is_number(cs@.subrange(from as int, cs.len() as int)),
{
    let n = cs.len();
    let ghost w = cs@.subrange(from as int, n as int);
    let whole = run_end(cs, from);
    proof {
        lemma_run_shift(cs@, from as int, from as int);
    }
    let pointed = whole < n && cs[whole] == '.';
    let end = if pointed {
        run_end(cs, whole + 1)
    } else {
        whole
    };
    proof {
        if pointed {
            lemma_run_shift(cs@, from as int, whole + 1);
        }
        assert(w.subrange(end - from, w.len() as int) =~= cs@.subrange(end as int, n as int));
    }
    let digits = if pointed {
        end - from - 1
    } else {
        end - from
    };
    digits >= 1 && (end == n || exponent_at(cs, end))
}

/// A run of digits in the tail of a text is the run at the same place in the
/// whole text.
pub proof fn lemma_run_shift(s: Seq<char>, cut: int, from: int)
    requires
        0 <= cut <= from <= s.len(),
    ensures
        digit_run(s.subrange(cut, s.len() as int), from - cut) == digit_run(s, from) - cut,
    decreases s.len() - from,
{
    let t = s.subrange(cut, s.len() as int);
    if from < s.len() {
        assert(t[from - cut] == s[from]);
        if is_digit(s[from]) {
            lemma_run_shift(s, cut, from + 1);
        }
    }
}

/// Whether a piece of text writes down a decimal number.
pub fn is_decimal_text(s: &str) -> (r: bool)
    ensures
        r == is_decimal(s@),
{
    let cs = chars_of(s);
    let n = cs.len();
    let signed = n > 0 && (cs[0] == '+' || cs[0] == '-');
    let start: usize = if signed {
        1
    } else {
        0
    };
    assert(unsigned_part(s@) =~= cs@.subrange(start as int, n as int));
    special_at(&cs, start) || number_at(&cs, start)
}

/// Reads a whole number that fits 32 bits without a sign.
pub fn read_u32(s: &str) -> (r: Option<u32>)
    ensures
        match bounded_value(s@, u32::MAX as int) {
            Some(v) => r == Some(v as u32),
            None => r is None,
        },
{
    read_bounded(s, u32::MAX)
}

/// Reads a whole number that fits 8 bits without a sign.
pub fn read_u8(s: &str) -> (r: Option<u8>)
    ensures
        match bounded_value(s@, u8::MAX as int) {
            Some(v) => r == Some(v as u8),
            None => r is None,
        },
{
    match read_bounded(s, 255) {
        Some(v) => Some(v as u8),
        None => None,
    }
}

} // verus!
