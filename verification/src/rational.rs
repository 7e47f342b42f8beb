//! Rational time bases and timestamp rescaling.
//!
//! Every timestamp in the pipeline is an integer count of units of some
//! rational time base `num/den`. A packet produced by the codec carries
//! timestamps in the codec's time base and must be rescaled to the output
//! stream's time base before it is handed to the muxer; a value correct in one
//! base is meaningless in the other.

use vstd::prelude::*;
use vstd::arithmetic::div_mod::{lemma_div_is_ordered, lemma_div_pos_is_pos};
use vstd::arithmetic::mul::lemma_mul_strictly_positive;

verus! {

/// A rational number `num/den`, used as a time base. Time bases are always
/// strictly positive in both components.
#[derive(Clone, Copy, PartialEq, Eq, Structural, Debug)]
pub struct Rational {
    /// Numerator.
    pub num: i32,
    /// Denominator.
    pub den: i32,
}

impl Rational {
    /// A usable time base has strictly positive numerator and denominator.
    pub open spec fn valid(self) -> bool {
        0 < self.num && 0 < self.den
    }

    /// Build a time base from a positive numerator and denominator.
    pub fn new(num: i32, den: i32) -> (r: Rational)
        requires
            0 < num,
            0 < den,
        ensures
            r.num == num,
            r.den == den,
            r.valid(),
    {
        Rational { num, den }
    }
}

/// Round the quotient `n / d` (with `d > 0`) to the nearest integer, ties away
/// from zero.
pub open spec fn round_div_near(n: int, d: int) -> int
    recommends
        d > 0,
{
    if n >= 0 {
        (2 * n + d) / (2 * d)
    } else {
        -((2 * (-n) + d) / (2 * d))
    }
}

/// The exact mathematical result of rescaling timestamp `t` from time base
/// `from` to time base `to`: `t * from / to`, rounded to the nearest integer,
/// ties away from zero.
pub open spec fn rescale_exact(t: int, from: Rational, to: Rational) -> int
    recommends
        from.valid(),
        to.valid(),
{
    round_div_near(t * from.num * to.den, (from.den as int) * (to.num as int))
}

/// Clamp a mathematical integer into the range of `i64`.
pub open spec fn sat_i64(x: int) -> int {
    if x < i64::MIN as int {
        i64::MIN as int
    } else if x > i64::MAX as int {
        i64::MAX as int
    } else {
        x
    }
}

/// What the executable rescaler returns: the exact rescaled value, saturated
/// to the `i64` range.
pub open spec fn rescale_spec(t: int, from: Rational, to: Rational) -> int
    recommends
        from.valid(),
        to.valid(),
{
    sat_i64(rescale_exact(t, from, to))
}

/// Rescale timestamp `t` from time base `from` to time base `to`, rounding to
/// the nearest unit (ties away from zero) and saturating at the `i64` range.
pub fn rescale_q(t: i64, from: Rational, to: Rational) -> (r: i64)
    requires
        from.valid(),
        to.valid(),
    ensures
        r as int == rescale_spec(t as int, from, to),
{
    let neg: bool = t < 0;
    let ta: u128 = if t >= 0 {
        t as u128
    } else {
        (-(t as i128)) as u128
    };
    assert(ta as int == if t >= 0 { t as int } else { -(t as int) });
    assert(ta <= 0x8000_0000_0000_0000u128);
    let fnum: u128 = from.num as u128;
    let fden: u128 = from.den as u128;
    let tnum: u128 = to.num as u128;
    let tden: u128 = to.den as u128;
    assert(1 <= fnum <= 0x7fff_ffffu128 && 1 <= fden <= 0x7fff_ffffu128);
    assert(1 <= tnum <= 0x7fff_ffffu128 && 1 <= tden <= 0x7fff_ffffu128);
    assert(ta * fnum <= 0x8000_0000_0000_0000u128 * 0x7fff_ffffu128) by (nonlinear_arith)
        requires
            ta <= 0x8000_0000_0000_0000u128,
            fnum <= 0x7fff_ffffu128,
    ;
    let t1: u128 = ta * fnum;
    assert(t1 * tden <= 0x4000_0000_0000_0000_0000_0000u128 * 0x7fff_ffffu128)
        by (nonlinear_arith)
        requires
            t1 <= 0x4000_0000_0000_0000_0000_0000u128,
            tden <= 0x7fff_ffffu128,
    ;
    let na: u128 = t1 * tden;
    assert(1 <= fden * tnum <= 0x7fff_ffffu128 * 0x7fff_ffffu128) by (nonlinear_arith)
        requires
            1 <= fden <= 0x7fff_ffffu128,
            1 <= tnum <= 0x7fff_ffffu128,
    ;
    let d: u128 = fden * tnum;
    let q: u128 = (2 * na + d) / (2 * d);

    proof {
        let tt: int = t as int;
        let big: int = tt * from.num * to.den;
        let dd: int = (from.den as int) * (to.num as int);
        assert(dd == d as int);
        if t >= 0 {
            assert(na as int == big && big >= 0) by (nonlinear_arith)
                requires
                    na as int == (ta as int) * (from.num as int) * (to.den as int),
                    tt == ta as int,
                    big == tt * from.num * to.den,
                    tt >= 0,
                    from.num > 0,
                    to.den > 0,
            ;
            assert(q as int == (2 * big + dd) / (2 * dd));
            assert(rescale_exact(tt, from, to) == q as int);
        } else {
            assert(na as int == -big && big < 0) by (nonlinear_arith)
                requires
                    na as int == (ta as int) * (from.num as int) * (to.den as int),
                    tt == -(ta as int),
                    ta as int >= 1,
                    big == tt * from.num * to.den,
                    tt < 0,
                    from.num > 0,
                    to.den > 0,
            ;
            assert(q as int == (2 * (-big) + dd) / (2 * dd));
            assert(rescale_exact(tt, from, to) == -(q as int));
        }
    }

    if neg {
        if q >= 0x8000_0000_0000_0000u128 {
            i64::MIN
        } else {
            -(q as i64)
        }
    } else {
        if q > 0x7fff_ffff_ffff_ffffu128 {
            i64::MAX
        } else {
            q as i64
        }
    }
}

/// Rounding to the nearest integer (ties away from zero) is monotone in the
/// numerator, for a fixed positive denominator.
pub proof fn lemma_round_div_near_monotone(n1: int, n2: int, d: int)
    requires
        d > 0,
        n1 <= n2,
    ensures
        round_div_near(n1, d) <= round_div_near(n2, d),
{
    if n1 >= 0 {
        lemma_div_is_ordered(2 * n1 + d, 2 * n2 + d, 2 * d);
    } else if n2 < 0 {
        lemma_div_is_ordered(2 * (-n2) + d, 2 * (-n1) + d, 2 * d);
    } else {
        lemma_div_pos_is_pos(2 * (-n1) + d, 2 * d);
        lemma_div_pos_is_pos(2 * n2 + d, 2 * d);
    }
}

/// Law: rescaling preserves timestamp order. If two timestamps are submitted
/// in non-decreasing order, their rescaled values (in any valid target time
/// base) are also in non-decreasing order, so the pipeline never inverts
/// packet timestamps by changing units.
pub proof fn lemma_rescale_monotone(t1: int, t2: int, from: Rational, to: Rational)
    requires
        from.valid(),
        to.valid(),
        t1 <= t2,
    ensures
        rescale_spec(t1, from, to) <= rescale_spec(t2, from, to),
{
    let dd: int = (from.den as int) * (to.num as int);
    lemma_mul_strictly_positive(from.den as int, to.num as int);
    assert(t1 * from.num * to.den <= t2 * from.num * to.den) by (nonlinear_arith)
        requires
            t1 <= t2,
            from.num > 0,
            to.den > 0,
    ;
    lemma_round_div_near_monotone(t1 * from.num * to.den, t2 * from.num * to.den, dd);
}

} // verus!
