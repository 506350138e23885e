use vstd::prelude::*;

verus! {

/// Number of ticks in one unit of a [`Real`].
pub const TICKS_PER_UNIT: i64 = 1048576;

/// A real number held in fixed point: `ticks / TICKS_PER_UNIT`.
///
/// This is the library's stand-in for the 64-bit floating-point base type:
/// values compare by their ticks, and the midpoint of two values is the
/// midpoint of their ticks, rounded toward zero.
#[derive(Clone, Copy, Debug, PartialEq, Eq, Structural)]
pub struct Real {
    pub ticks: i64,
}

impl Real {
    /// The whole number `n` as a `Real`.
    pub fn from_int(n: i32) -> (r: Real)
        ensures
            r.ticks == n as int * TICKS_PER_UNIT,
    {
        assert(-2147483648 * 1048576 <= n as int * 1048576 <= 2147483647 * 1048576)
            by (nonlinear_arith)
            requires
                -2147483648 <= n <= 2147483647,
        ;
        Real { ticks: n as i64 * TICKS_PER_UNIT }
    }

    /// The number `ticks / TICKS_PER_UNIT`.
    pub fn from_ticks(ticks: i64) -> (r: Real)
        ensures
            r.ticks == ticks,
    {
        Real { ticks }
    }

    /// The number one.
    pub fn one() -> (r: Real)
        ensures
            r.ticks == TICKS_PER_UNIT,
    {
        Real { ticks: TICKS_PER_UNIT }
    }

    /// The integer `v` as a `Real`, saturating at the ends of the range.
    pub fn from_i64(v: i64) -> (r: Real)
        ensures
            r == real_of_int(v as int),
    {
        if v > 8796093022207 {
            Real { ticks: i64::MAX }
        } else if v < -8796093022208 {
            Real { ticks: i64::MIN }
        } else {
            Real { ticks: v * TICKS_PER_UNIT }
        }
    }
}

impl DeepView for Real {
    type V = Real;

    open spec fn deep_view(&self) -> Real {
        *self
    }
}

/// The integer `v` as a `Real`: `v` units, clamped to the range of ticks.
pub open spec fn real_of_int(v: int) -> Real {
    if v * TICKS_PER_UNIT > i64::MAX {
        Real { ticks: i64::MAX }
    } else if v * TICKS_PER_UNIT < i64::MIN {
        Real { ticks: i64::MIN }
    } else {
        Real { ticks: (v * TICKS_PER_UNIT) as i64 }
    }
}

/// Converting integers to `Real` keeps their order.
pub proof fn lemma_real_of_int_monotone(a: int, b: int)
    requires
        a <= b,
    ensures
        real_of_int(a).ticks <= real_of_int(b).ticks,
{
}

/// Half of `s`, rounded toward zero (the rounding of integer division).
pub open spec fn half_trunc(s: int) -> int {
    if s >= 0 {
        s / 2
    } else {
        -((-s) / 2)
    }
}

/// `(a + b) / 2` rounded toward zero, computed without overflow.
pub fn half_sum_trunc(a: i64, b: i64) -> (r: i64)
    ensures
        r == half_trunc(a + b),
{
    let s: i128 = a as i128 + b as i128;
    let h: i128 = if s >= 0 {
        s / 2
    } else {
        -((-s) / 2)
    };
    h as i64
}

/// A numeric type that bin edges can be given in: it has a midpoint.
pub trait Edge: Copy {
    spec fn spec_midpoint(a: Self, b: Self) -> Self;

    fn midpoint(a: Self, b: Self) -> (r: Self)
        ensures
            r == Self::spec_midpoint(a, b),
    ;
}

impl Edge for i64 {
    open spec fn spec_midpoint(a: i64, b: i64) -> i64 {
        half_trunc(a + b) as i64
    }

    fn midpoint(a: i64, b: i64) -> (r: i64) {
        half_sum_trunc(a, b)
    }
}

impl Edge for Real {
    open spec fn spec_midpoint(a: Real, b: Real) -> Real {
        Real { ticks: half_trunc(a.ticks + b.ticks) as i64 }
    }

    fn midpoint(a: Real, b: Real) -> (r: Real) {
        Real { ticks: half_sum_trunc(a.ticks, b.ticks) }
    }
}

} // verus!
