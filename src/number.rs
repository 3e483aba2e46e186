//! Numeric literals: which texts are integers or floats, and their values.
use vstd::prelude::*;

use crate::chars::is_digit;

verus! {

/// The value of a nonempty run of decimal digits.
pub open spec fn digits_value(t: Seq<char>) -> int
    decreases t.len(),
{
    if t.len() == 0 {
        0
    } else {
        digits_value(t.drop_last()) * 10 + (t.last() as u32 - '0' as u32)
    }
}

pub open spec fn all_digits(t: Seq<char>) -> bool {
    forall|k: int| 0 <= k < t.len() ==> is_digit(#[trigger] t[k])
}

/// The value of an optional sign followed by one or more decimal digits.
pub open spec fn decimal_value(t: Seq<char>) -> Option<int> {
    if t.len() > 0 && (t[0] == '-' || t[0] == '+') {
        let d = t.drop_first();
        if d.len() > 0 && all_digits(d) {
            Some(
                if t[0] == '-' {
                    -digits_value(d)
                } else {
                    digits_value(d)
                },
            )
        } else {
            None
        }
    } else if t.len() > 0 && all_digits(t) {
        Some(digits_value(t))
    } else {
        None
    }
}

/// The `i64` that `t` writes in decimal, as `i64::from_str` reads it.
pub open spec fn int_literal(t: Seq<char>) -> Option<i64> {
    match decimal_value(t) {
        Some(v) => if i64::MIN <= v <= i64::MAX {
            Some(v as i64)
        } else {
            None
        },
        None => None,
    }
}

pub proof fn lemma_digits_nonnegative(t: Seq<char>)
    requires
        all_digits(t),
    ensures
        digits_value(t) >= 0,
    decreases t.len(),
{
    if t.len() > 0 {
        assert(is_digit(t[t.len() - 1]));
        lemma_digits_nonnegative(t.drop_last());
    }
}

/// A longer run of digits is worth at least as much as its prefix.
pub proof fn lemma_digits_prefix(t: Seq<char>, k: int)
    requires
        all_digits(t),
        0 <= k <= t.len(),
    ensures
        digits_value(t) >= digits_value(t.subrange(0, k)),
    decreases t.len(),
{
    if k == t.len() {
        assert(t.subrange(0, k) =~= t);
    } else {
        let s = t.drop_last();
        assert(all_digits(s));
        lemma_digits_prefix(s, k);
        assert(s.subrange(0, k) =~= t.subrange(0, k));
        lemma_digits_nonnegative(s);
        assert(is_digit(t[t.len() - 1]));
    }
}

/// Reads `cs[start..end]` as an `i64` written in decimal.
pub fn int_literal_of(cs: &Vec<char>, start: usize, end: usize) -> (r: Option<i64>)
    requires
        start <= end <= cs@.len(),
    ensures
        r == int_literal(cs@.subrange(start as int, end as int)),
{
    let ghost t = cs@.subrange(start as int, end as int);
    let mut i = start;
    let mut negative = false;
    if i < end && (cs[i] == '-' || cs[i] == '+') {
        negative = cs[i] == '-';
        i += 1;
    }
    if i == end {
        return None;
    }
    let d0 = i;
    let ghost d = cs@.subrange(d0 as int, end as int);
    assert(d0 > start ==> d =~= t.drop_first());
    assert(d0 == start ==> d =~= t);
    let mut acc: i128 = 0;
    while i < end
        invariant
            start <= d0 <= i <= end <= cs@.len(),
            d == cs@.subrange(d0 as int, end as int),
            t == cs@.subrange(start as int, end as int),
            d.len() > 0,
            d0 > start ==> d0 == start + 1 && d == t.drop_first() && (t[0] == '-' || t[0] == '+'),
            d0 == start ==> d == t && !(t[0] == '-' || t[0] == '+'),
            negative == (d0 > start && t[0] == '-'),
            all_digits(cs@.subrange(d0 as int, i as int)),
            acc == digits_value(cs@.subrange(d0 as int, i as int)),
            0 <= acc <= 0x8000_0000_0000_0000,
        decreases end - i,
    {
        let c = cs[i];
        if !('0' <= c && c <= '9') {
            proof {
                assert(d[i - d0] == c);
                assert(!is_digit(d[i - d0]));
                assert(!all_digits(d));
                if d0 > start {
                    assert(t.drop_first() == d);
                    assert(t.len() > 0 && (t[0] == '-' || t[0] == '+'));
                    assert(!(d.len() > 0 && all_digits(d)));
                    assert(decimal_value(t) is None);
                } else {
                    assert(t == d);
                    assert(!(t.len() > 0 && (t[0] == '-' || t[0] == '+')));
                    assert(!all_digits(t));
                    assert(decimal_value(t) is None);
                }
            }
            return None;
        }
        let ghost prev = cs@.subrange(d0 as int, i as int);
        acc = acc * 10 + (c as u32 - '0' as u32) as i128;
        i += 1;
        assert(cs@.subrange(d0 as int, i as int).drop_last() =~= prev);
        if acc > 0x8000_0000_0000_0000 {
            proof {
                if all_digits(d) {
                    assert(d.subrange(0, i - d0) =~= cs@.subrange(d0 as int, i as int));
                    lemma_digits_prefix(d, i - d0);
                    assert(digits_value(d) > 0x8000_0000_0000_0000);
                    if d0 > start {
                        assert(t.drop_first() == d);
                    }
                }
                assert(int_literal(t) is None);
            }
            return None;
        }
    }
    assert(cs@.subrange(d0 as int, i as int) =~= d);
    let value: i128 = if negative { -acc } else { acc };
    if value < -0x8000_0000_0000_0000 || value > 0x7fff_ffff_ffff_ffff {
        None
    } else {
        Some(value as i64)
    }
}

/// The states of a reader of float literals: an optional sign, digits with
/// at most one `.` and at least one digit, then optionally `e` or `E`, an
/// optional sign and one or more digits.
#[derive(PartialEq, Eq, Structural, Clone, Copy)]
pub enum FloatState {
    Start,
    Signed,
    Whole,
    PointFirst,
    PointAfterWhole,
    Fraction,
    ExpMark,
    ExpSigned,
    ExpDigits,
    Rejected,
}

pub open spec fn float_step(st: FloatState, c: char) -> FloatState {
    let digit = is_digit(c);
    let sign = c == '+' || c == '-';
    let point = c == '.';
    let exp = c == 'e' || c == 'E';
    match st {
        FloatState::Start => if sign {
            FloatState::Signed
        } else if digit {
            FloatState::Whole
        } else if point {
            FloatState::PointFirst
        } else {
            FloatState::Rejected
        },
        FloatState::Signed => if digit {
            FloatState::Whole
        } else if point {
            FloatState::PointFirst
        } else {
            FloatState::Rejected
        },
        FloatState::Whole => if digit {
            FloatState::Whole
        } else if point {
            FloatState::PointAfterWhole
        } else if exp {
            FloatState::ExpMark
        } else {
            FloatState::Rejected
        },
        FloatState::PointFirst => if digit {
            FloatState::Fraction
        } else {
            FloatState::Rejected
        },
        FloatState::PointAfterWhole | FloatState::Fraction => if digit {
            FloatState::Fraction
        } else if exp {
            FloatState::ExpMark
        } else {
            FloatState::Rejected
        },
        FloatState::ExpMark => if sign {
            FloatState::ExpSigned
        } else if digit {
            FloatState::ExpDigits
        } else {
            FloatState::Rejected
        },
        FloatState::ExpSigned | FloatState::ExpDigits => if digit {
            FloatState::ExpDigits
        } else {
            FloatState::Rejected
        },
        FloatState::Rejected => FloatState::Rejected,
    }
}

pub open spec fn float_run(t: Seq<char>) -> FloatState
    decreases t.len(),
{
    if t.len() == 0 {
        FloatState::Start
    } else {
        float_step(float_run(t.drop_last()), t.last())
    }
}

/// Whether `t` is a decimal float literal that `f64::from_str` reads.
pub open spec fn float_literal(t: Seq<char>) -> bool {
    let st = float_run(t);
    st == FloatState::Whole || st == FloatState::PointAfterWhole || st == FloatState::Fraction
        || st == FloatState::ExpDigits
}

fn next_float_state(st: FloatState, c: char) -> (r: FloatState)
    ensures
        r == float_step(st, c),
{
    let digit = '0' <= c && c <= '9';
    let sign = c == '+' || c == '-';
    let point = c == '.';
    let exp = c == 'e' || c == 'E';
    match st {
        FloatState::Start => if sign {
            FloatState::Signed
        } else if digit {
            FloatState::Whole
        } else if point {
            FloatState::PointFirst
        } else {
            FloatState::Rejected
        },
        FloatState::Signed => if digit {
            FloatState::Whole
        } else if point {
            FloatState::PointFirst
        } else {
            FloatState::Rejected
        },
        FloatState::Whole => if digit {
            FloatState::Whole
        } else if point {
            FloatState::PointAfterWhole
        } else if exp {
            FloatState::ExpMark
        } else {
            FloatState::Rejected
        },
        FloatState::PointFirst => if digit {
            FloatState::Fraction
        } else {
            FloatState::Rejected
        },
        FloatState::PointAfterWhole | FloatState::Fraction => if digit {
            FloatState::Fraction
        } else if exp {
            FloatState::ExpMark
        } else {
            FloatState::Rejected
        },
        FloatState::ExpMark => if sign {
            FloatState::ExpSigned
        } else if digit {
            FloatState::ExpDigits
        } else {
            FloatState::Rejected
        },
        FloatState::ExpSigned | FloatState::ExpDigits => if digit {
            FloatState::ExpDigits
        } else {
            FloatState::Rejected
        },
        FloatState::Rejected => FloatState::Rejected,
    }
}

/// Whether `cs[start..end]` is a float literal.
pub fn is_float_literal(cs: &Vec<char>, start: usize, end: usize) -> (r: bool)
    requires
        start <= end <= cs@.len(),
    ensures
        r == float_literal(cs@.subrange(start as int, end as int)),
{
    let mut st = FloatState::Start;
    let mut i = start;
    assert(cs@.subrange(start as int, start as int) =~= Seq::<char>::empty());
    while i < end
        invariant
            start <= i <= end <= cs@.len(),
            st == float_run(cs@.subrange(start as int, i as int)),
        decreases end - i,
    {
        let ghost prev = cs@.subrange(start as int, i as int);
        st = next_float_state(st, cs[i]);
        i += 1;
        assert(cs@.subrange(start as int, i as int).drop_last() =~= prev);
    }
    st == FloatState::Whole || st == FloatState::PointAfterWhole || st == FloatState::Fraction
        || st == FloatState::ExpDigits
}

} // verus!
