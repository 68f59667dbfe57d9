//! Decimal numbers whose value is one.
//!
//! A scale factor of one changes nothing, so it is not applied. Whether a
//! factor is one is asked of the number that its text writes down, exactly:
//! `1`, `1.000`, `10e-1` and `+0.01E2` are one, and no text that writes down
//! another number is, however close to one that number lies.

use vstd::prelude::*;
use crate::text::chars_of;
use crate::numeral::{
    all_digits, digit_run, digit_value, digits_value, exponent_at, has_sign, is_digit,
    is_exponent, is_number, lemma_digit_run, run_end, unsigned_part,
};

verus! {

/// Ten to the power of `n`.
pub open spec fn pow10(n: nat) -> nat
    decreases n,
{
    if n == 0 {
        1
    } else {
        10 * pow10((n - 1) as nat)
    }
}

/// Where the digits before the point end.
pub open spec fn whole_end(u: Seq<char>) -> int {
    digit_run(u, 0)
}

/// Whether a point stands behind the digits that open the number.
pub open spec fn has_point(u: Seq<char>) -> bool {
    whole_end(u) < u.len() && u[whole_end(u)] == '.'
}

/// Where the digits and the point end, and the exponent begins if there is
/// one.
pub open spec fn mantissa_end(u: Seq<char>) -> int {
    if has_point(u) {
        digit_run(u, whole_end(u) + 1)
    } else {
        whole_end(u)
    }
}

/// The digits of a number, without the point.
pub open spec fn mantissa(u: Seq<char>) -> Seq<char> {
    if has_point(u) {
        u.subrange(0, whole_end(u)) + u.subrange(whole_end(u) + 1, mantissa_end(u))
    } else {
        u.subrange(0, whole_end(u))
    }
}

/// How many digits stand behind the point.
pub open spec fn fraction_len(u: Seq<char>) -> int {
    if has_point(u) {
        mantissa_end(u) - whole_end(u) - 1
    } else {
        0
    }
}

/// The exponent of a number; zero where none is written.
pub open spec fn exponent(u: Seq<char>) -> int {
    if mantissa_end(u) >= u.len() {
        0
    } else {
        let e = u.subrange(mantissa_end(u) + 1, u.len() as int);
        if e.len() > 0 && e[0] == '-' {
            -(digits_value(unsigned_part(e)) as int)
        } else {
            digits_value(unsigned_part(e)) as int
        }
    }
}

/// By how many places the point is to be moved to the left in the digits of
/// a number: the value of the number is the value of its digits, divided by
/// ten to this power.
pub open spec fn shift(u: Seq<char>) -> int {
    fraction_len(u) - exponent(u)
}

/// Whether a number without a sign is one: its digits write down ten to the
/// power of its shift. (With a shift below zero the value is a multiple of
/// ten.)
pub open spec fn number_is_one(u: Seq<char>) -> bool {
    &&& is_number(u)
    &&& shift(u) >= 0
    &&& digits_value(mantissa(u)) == pow10(shift(u) as nat)
}

/// Whether a piece of text writes down the number one.
pub open spec fn is_one(s: Seq<char>) -> bool {
    !(s.len() > 0 && s[0] == '-') && number_is_one(unsigned_part(s))
}

/// Every character is the digit zero.
pub open spec fn all_zero(s: Seq<char>) -> bool {
    forall|i: int| 0 <= i < s.len() ==> #[trigger] s[i] == '0'
}

/// A power of ten is at least one, and a higher power is greater.
pub proof fn lemma_pow10_grows(n: nat, m: nat)
    requires
        n <= m,
    ensures
        1 <= pow10(n) <= pow10(m),
        n < m ==> pow10(n) < pow10(m),
    decreases m,
{
    if n == 0 {
        if m > 0 {
            lemma_pow10_grows(0, (m - 1) as nat);
        }
    } else {
        lemma_pow10_grows((n - 1) as nat, (m - 1) as nat);
    }
}

/// The value of digits put behind other digits.
pub proof fn lemma_value_concat(a: Seq<char>, b: Seq<char>)
    ensures
        digits_value(a + b) == digits_value(a) * pow10(b.len()) + digits_value(b),
    decreases b.len(),
{
    if b.len() == 0 {
        assert(a + b =~= a);
        assert(digits_value(a) * 1 == digits_value(a));
    } else {
        let head = b.drop_last();
        assert((a + b).drop_last() =~= a + head);
        assert((a + b).last() == b.last());
        lemma_value_concat(a, head);
        let x = digits_value(a) as int;
        let p = pow10(head.len()) as int;
        assert(pow10(b.len()) == 10 * p);
        assert((x * p + digits_value(head)) * 10 + digit_value(b.last()) == x * (10 * p) + (
        digits_value(head) * 10 + digit_value(b.last()))) by (nonlinear_arith);
    }
}

/// Digits write down a number below ten to the power of their count.
pub proof fn lemma_value_bound(s: Seq<char>)
    requires
        all_digits(s),
    ensures
        digits_value(s) < pow10(s.len()),
    decreases s.len(),
{
    if s.len() > 0 {
        let head = s.drop_last();
        assert forall|i: int| 0 <= i < head.len() implies is_digit(#[trigger] head[i]) by {
            assert(head[i] == s[i]);
        }
        lemma_value_bound(head);
        assert(is_digit(s[s.len() - 1]));
        assert(digit_value(s.last()) <= 9);
    }
}

/// Zeros write down zero.
pub proof fn lemma_zeros_value(s: Seq<char>)
    requires
        all_zero(s),
    ensures
        digits_value(s) == 0,
    decreases s.len(),
{
    if s.len() > 0 {
        let head = s.drop_last();
        assert forall|i: int| 0 <= i < head.len() implies #[trigger] head[i] == '0' by {
            assert(head[i] == s[i]);
        }
        lemma_zeros_value(head);
        assert(s[s.len() - 1] == '0');
    }
}

/// Digits that are not all zero write down more than zero.
pub proof fn lemma_nonzero_value(s: Seq<char>, at: int)
    requires
        all_digits(s),
        0 <= at < s.len(),
        s[at] != '0',
    ensures
        digits_value(s) > 0,
    decreases s.len(),
{
    if at == s.len() - 1 {
        assert(is_digit(s[at]));
        assert(digit_value(s.last()) > 0);
    } else {
        let head = s.drop_last();
        assert forall|i: int| 0 <= i < head.len() implies is_digit(#[trigger] head[i]) by {
            assert(head[i] == s[i]);
        }
        assert(head[at] == s[at]);
        lemma_nonzero_value(head, at);
    }
}

/// A number that lies between two powers of ten that follow each other is no
/// power of ten.
pub proof fn lemma_between_powers(value: nat, low: nat, m: nat)
    requires
        pow10(low) < value < pow10(low + 1),
    ensures
        value != pow10(m),
{
    if m <= low {
        lemma_pow10_grows(m, low);
    } else {
        lemma_pow10_grows(low + 1, m);
    }
}

/// The value of digits that open with zeros, go on with one digit that is not
/// zero, and end with `tail`: that digit's value times a power of ten, and
/// what the tail writes down.
pub proof fn lemma_value_parts(s: Seq<char>, at: int)
    requires
        all_digits(s),
        0 <= at < s.len(),
        all_zero(s.subrange(0, at)),
    ensures
        digits_value(s) == digit_value(s[at]) * pow10((s.len() - at - 1) as nat) + digits_value(
            s.subrange(at + 1, s.len() as int),
        ),
        digits_value(s.subrange(at + 1, s.len() as int)) < pow10((s.len() - at - 1) as nat),
{
    reveal_with_fuel(digits_value, 2);
    reveal_with_fuel(pow10, 2);
    let zeros = s.subrange(0, at);
    let digit = s.subrange(at, at + 1);
    let tail = s.subrange(at + 1, s.len() as int);
    assert(s =~= (zeros + digit) + tail);
    lemma_value_concat(zeros + digit, tail);
    lemma_value_concat(zeros, digit);
    lemma_zeros_value(zeros);
    assert(digit.drop_last() =~= Seq::<char>::empty());
    assert(digits_value(digit) == digit_value(s[at]));
    assert(pow10(1) == 10);
    assert(digits_value(zeros + digit) == digit_value(s[at]));
    assert forall|i: int| 0 <= i < tail.len() implies is_digit(#[trigger] tail[i]) by {
        assert(tail[i] == s[at + 1 + i]);
    }
    lemma_value_bound(tail);
}

/// The digits of a number are digits.
pub proof fn lemma_mantissa_digits(u: Seq<char>)
    ensures
        all_digits(mantissa(u)),
        0 <= whole_end(u) <= mantissa_end(u) <= u.len(),
        mantissa(u).len() == mantissa_end(u) - if has_point(u) {
            1int
        } else {
            0int
        },
{
    lemma_digit_run(u, 0);
    if has_point(u) {
        lemma_digit_run(u, whole_end(u) + 1);
    }
}

fn first_nonzero(m: &Vec<char>) -> (r: usize)
    ensures
        r <= m.len(),
        all_zero(m@.subrange(0, r as int)),
        r < m.len() ==> m@[r as int] != '0',
{
    let mut i: usize = 0;
    while i < m.len() && m[i] == '0'
        invariant
            i <= m.len(),
            all_zero(m@.subrange(0, i as int)),
        decreases m.len() - i,
    {
        i += 1;
    }
    i
}

fn zeros_from(m: &Vec<char>, from: usize) -> (r: bool)
    requires
        from <= m.len(),
    ensures
        r == all_zero(m@.subrange(from as int, m.len() as int)),
{
    let mut i: usize = from;
    while i < m.len()
        invariant
            from <= i <= m.len(),
            all_zero(m@.subrange(from as int, i as int)),
        decreases m.len() - i,
    {
        if m[i] != '0' {
            assert(m@.subrange(from as int, m.len() as int)[i - from] != '0');
            return false;
        }
        i += 1;
    }
    true
}

fn mantissa_of(u: &Vec<char>, whole: usize, pointed: bool, end: usize) -> (m: Vec<char>)
    requires
        whole == whole_end(u@),
        pointed == has_point(u@),
        end == mantissa_end(u@),
        whole <= end <= u.len(),
    ensures
        m@ == mantissa(u@),
{
    let mut m: Vec<char> = Vec::new();
    let mut i: usize = 0;
    while i < whole
        invariant
            i <= whole <= u.len(),
            m@ == u@.subrange(0, i as int),
        decreases whole - i,
    {
        m.push(u[i]);
        assert(m@ =~= u@.subrange(0, i + 1));
        i += 1;
    }
    if pointed {
        proof {
            lemma_digit_run(u@, whole + 1);
        }
        let mut j: usize = whole + 1;
        while j < end
            invariant
                whole + 1 <= j <= end <= u.len(),
                m@ == u@.subrange(0, whole as int) + u@.subrange(whole + 1, j as int),
            decreases end - j,
        {
            m.push(u[j]);
            assert(m@ =~= u@.subrange(0, whole as int) + u@.subrange(whole + 1, j + 1));
            j += 1;
        }
    }
    m
}

fn digits_are(u: &Vec<char>, from: usize, target: usize) -> (r: bool)
    requires
        from <= u.len(),
        all_digits(u@.subrange(from as int, u.len() as int)),
    ensures
        r == (digits_value(u@.subrange(from as int, u.len() as int)) == target),
{
    let n = u.len();
    let ghost d = u@.subrange(from as int, n as int);
    let mut acc: u128 = 0;
    let mut i: usize = from;
    assert(d.subrange(0, 0) =~= Seq::<char>::empty());
    while i < n
        invariant
            n == u.len(),
            from <= i <= n,
            d == u@.subrange(from as int, n as int),
            all_digits(d),
            acc == digits_value(d.subrange(0, i - from)),
            acc <= target,
        decreases n - i,
    {
        let c = u[i];
        assert(c == d[i - from]);
        assert(is_digit(d[i - from]));
        let ghost before = d.subrange(0, i - from);
        let ghost after = d.subrange(0, i - from + 1);
        assert(after.drop_last() =~= before);
        assert(after.last() == c);
        let v: u128 = acc * 10 + (c as u128 - '0' as u128);
        if v > target as u128 {
            proof {
                let rest = d.subrange(i - from + 1, d.len() as int);
                assert(d =~= after + rest);
                lemma_value_concat(after, rest);
                lemma_pow10_grows(0, rest.len());
                assert(digits_value(after) * pow10(rest.len()) >= digits_value(after))
                    by (nonlinear_arith)
                    requires
                        pow10(rest.len()) >= 1,
                ;
            }
            return false;
        }
        acc = v;
        i += 1;
    }
    assert(d.subrange(0, n - from) =~= d);
    acc == target as u128
}

fn unsigned_is_one(u: &Vec<char>) -> (r: bool)
    ensures
        r == number_is_one(u@),
{
    let n = u.len();
    let whole = run_end(u, 0);
    let pointed = whole < n && u[whole] == '.';
    let end = if pointed {
        run_end(u, whole + 1)
    } else {
        whole
    };
    let digits = if pointed {
        end - 1
    } else {
        end
    };
    if digits < 1 {
        return false;
    }
    if end < n && !exponent_at(u, end) {
        return false;
    }
    assert(is_number(u@));
    let m = mantissa_of(u, whole, pointed, end);
    let places: usize = if pointed {
        end - whole - 1
    } else {
        0
    };
    proof {
        lemma_mantissa_digits(u@);
    }
    let at = first_nonzero(&m);
    if at == m.len() {
        proof {
            assert(m@.subrange(0, at as int) =~= m@);
            lemma_zeros_value(m@);
            if shift(u@) >= 0 {
                lemma_pow10_grows(0, shift(u@) as nat);
            }
        }
        return false;
    }
    let ghost low = (m.len() - at - 1) as nat;
    let ghost tail = m@.subrange(at + 1, m.len() as int);
    proof {
        lemma_value_parts(m@, at as int);
        lemma_pow10_grows(low, low + 1);
        assert(pow10(low + 1) == 10 * pow10(low));
        assert(is_digit(m@[at as int]));
    }
    if m[at] != '1' {
        proof {
            let d = digit_value(m@[at as int]);
            assert(2 <= d <= 9);
            assert(d * pow10(low) >= 2 * pow10(low)) by (nonlinear_arith)
                requires
                    d >= 2,
            ;
            assert(d * pow10(low) <= 9 * pow10(low)) by (nonlinear_arith)
                requires
                    d <= 9,
            ;
            if shift(u@) >= 0 {
                lemma_between_powers(digits_value(m@), low, shift(u@) as nat);
            }
        }
        return false;
    }
    assert(digit_value(m@[at as int]) == 1);
    assert(digit_value(m@[at as int]) * pow10(low) == pow10(low)) by (nonlinear_arith)
        requires
            digit_value(m@[at as int]) == 1,
    ;
    if !zeros_from(&m, at + 1) {
        proof {
            let k = choose|k: int| 0 <= k < tail.len() && tail[k] != '0';
            assert forall|i: int| 0 <= i < tail.len() implies is_digit(#[trigger] tail[i]) by {
                assert(tail[i] == m@[at + 1 + i]);
            }
            lemma_nonzero_value(tail, k);
            if shift(u@) >= 0 {
                lemma_between_powers(digits_value(m@), low, shift(u@) as nat);
            }
        }
        return false;
    }
    let zeros = m.len() - at - 1;
    proof {
        lemma_zeros_value(tail);
        assert(digits_value(m@) == pow10(low));
        if shift(u@) >= 0 {
            if shift(u@) < low {
                lemma_pow10_grows(shift(u@) as nat, low);
            } else if shift(u@) > low {
                lemma_pow10_grows(low, shift(u@) as nat);
            }
        }
    }
    assert(number_is_one(u@) == (shift(u@) == zeros));
    if end == n {
        return zeros == places;
    }
    let ghost e = u@.subrange(end + 1, n as int);
    proof {
        let x = u@.subrange(end as int, n as int);
        assert(is_exponent(x));
        assert(x.subrange(1, x.len() as int) =~= e);
        assert(e[0] == u@[end + 1]);
    }
    let negative = u[end + 1] == '-';
    let from = if negative || u[end + 1] == '+' {
        end + 2
    } else {
        end + 1
    };
    assert(unsigned_part(e) =~= u@.subrange(from as int, n as int));
    if negative {
        if zeros < places {
            false
        } else {
            digits_are(u, from, zeros - places)
        }
    } else {
        if places < zeros {
            false
        } else {
            digits_are(u, from, places - zeros)
        }
    }
}

/// Whether a piece of text writes down the number one.
pub fn is_one_text(s: &str) -> (r: bool)
    ensures
        r == is_one(s@),
{
    let cs = chars_of(s);
    let n = cs.len();
    if n > 0 && cs[0] == '-' {
        return false;
    }
    let start: usize = if n > 0 && cs[0] == '+' {
        1
    } else {
        0
    };
    let mut u: Vec<char> = Vec::new();
    let mut i: usize = start;
    while i < n
        invariant
            n == cs.len(),
            start <= i <= n,
            u@ == cs@.subrange(start as int, i as int),
        decreases n - i,
    {
        u.push(cs[i]);
        assert(u@ =~= cs@.subrange(start as int, i + 1));
        i += 1;
    }
    assert(u@ =~= unsigned_part(s@));
    unsigned_is_one(&u)
}

/// The text `1.0` writes down one.
pub proof fn lemma_one_point_zero()
    ensures
        is_one("1.0"@),
{
    reveal_strlit("1.0");
    reveal_with_fuel(digit_run, 4);
    reveal_with_fuel(digits_value, 4);
    reveal_with_fuel(pow10, 3);
    let u = "1.0"@;
    assert(unsigned_part(u) == u);
    assert(whole_end(u) == 1);
    assert(has_point(u));
    assert(mantissa_end(u) == 3);
    assert(mantissa(u) =~= seq!['1', '0']);
    assert(mantissa(u).drop_last() =~= seq!['1']);
    assert(mantissa(u).drop_last().drop_last() =~= Seq::<char>::empty());
    assert(digits_value(mantissa(u)) == 10);
    assert(shift(u) == 1);
}

} // verus!
