//! Fixed-point scalars: the number format shared by the whole pipeline.
use vstd::prelude::*;
use vstd::arithmetic::div_mod::{lemma_fundamental_div_mod, lemma_fundamental_div_mod_converse};

verus! {

/// Number of fractional bits of a fixed-point scalar.
pub const FRAC_BITS: u32 = 16;

/// The fixed-point scalar that stands for 1.
pub const ONE: i32 = 65536;

/// `x` limited to the closed interval from `lo` to `hi`.
pub open spec fn clamp(x: int, lo: int, hi: int) -> int {
    if x < lo {
        lo
    } else if x > hi {
        hi
    } else {
        x
    }
}

/// The smaller of two integers.
pub open spec fn min2(a: int, b: int) -> int {
    if a <= b {
        a
    } else {
        b
    }
}

/// The larger of two integers.
pub open spec fn max2(a: int, b: int) -> int {
    if a >= b {
        a
    } else {
        b
    }
}

/// The smallest of three integers.
pub open spec fn min3(a: int, b: int, c: int) -> int {
    min2(min2(a, b), c)
}

/// The largest of three integers.
pub open spec fn max3(a: int, b: int, c: int) -> int {
    max2(max2(a, b), c)
}

/// Division rounded towards negative infinity, for a positive divisor.
pub fn div_floor(n: i128, d: i128) -> (q: i128)
    requires
        d > 0,
    ensures
        q == n / d,
{
    if n >= 0 {
        n / d
    } else {
        let m: i128 = -(n + 1);
        let k: i128 = m / d;
        proof {
            let r = (m as int) % (d as int);
            lemma_fundamental_div_mod(m as int, d as int);
            assert(d * k == k * d) by (nonlinear_arith);
            assert((-k - 1) * d == -(k * d) - d) by (nonlinear_arith);
            assert(k >= 0) by (nonlinear_arith)
                requires
                    m >= 0,
                    d > 0,
                    m == d * k + r,
                    0 <= r < d,
            ;
            lemma_fundamental_div_mod_converse(n as int, d as int, -k - 1, d - r - 1);
        }
        -k - 1
    }
}

/// A ratio `num / den` in the closed unit interval.
#[derive(Clone, Copy, Debug, PartialEq, Eq, Structural)]
pub struct Ratio {
    pub num: i64,
    pub den: i64,
}

impl Ratio {
    /// The denominator is positive and the numerator lies between zero and it.
    pub open spec fn wf(self) -> bool {
        0 <= self.num <= self.den && self.den > 0
    }

    /// The ratio `num / den`, or nothing when it is not in the unit interval.
    pub fn new(num: i64, den: i64) -> (r: Option<Ratio>)
        ensures
            r == if 0 <= num <= den && den > 0 {
                Some((Ratio { num, den }))
            } else {
                None
            },
    {
        if 0 <= num && num <= den && den > 0 {
            Some(Ratio { num, den })
        } else {
            None
        }
    }
}

/// The value fits a fixed-point scalar.
pub open spec fn fits(x: int) -> bool {
    i32::MIN <= x <= i32::MAX
}

/// The product of two fixed-point scalars, rounded towards negative infinity.
pub open spec fn fixed_mul(a: int, b: int) -> int {
    (a * b) / 65536
}

/// Multiplies two fixed-point scalars.
pub fn multiply(a: i32, b: i32) -> (r: i32)
    requires
        fits(fixed_mul(a as int, b as int)),
    ensures
        r == fixed_mul(a as int, b as int),
{
    assert(-0x8000_0000 * 0x8000_0000 <= a * b <= 0x8000_0000 * 0x8000_0000) by (nonlinear_arith)
        requires
            -0x8000_0000 <= a <= 0x8000_0000,
            -0x8000_0000 <= b <= 0x8000_0000,
    ;
    div_floor((a as i128) * (b as i128), 65536) as i32
}

/// The quotient of two fixed-point scalars.
pub open spec fn fixed_div(a: int, b: int) -> int {
    (a * 65536) / b
}

/// Divides two fixed-point scalars; nothing where the divisor is zero or the
/// quotient does not fit.
pub fn divide(a: i32, b: i32) -> (r: Option<i32>)
    ensures
        r == if b != 0 && fits(fixed_div(a as int, b as int)) {
            Some(fixed_div(a as int, b as int) as i32)
        } else {
            None
        },
{
    if b == 0 {
        return None;
    }
    match ((a as i128) * 65536).checked_div_euclid(b as i128) {
        Some(q) => if -0x8000_0000 <= q && q <= 0x7FFF_FFFF {
            Some(q as i32)
        } else {
            None
        },
        None => None,
    }
}

/// `r` is the whole part of the square root of `n`.
pub open spec fn is_sqrt(n: int, r: int) -> bool {
    0 <= r && r * r <= n < (r + 1) * (r + 1)
}

/// The whole part of the square root of `n`.
pub open spec fn sqrt_spec(n: int) -> int {
    choose|r: int| is_sqrt(n, r)
}

/// A number has one whole square root.
pub proof fn lemma_sqrt_unique(n: int, a: int, b: int)
    by (nonlinear_arith)
    requires
        is_sqrt(n, a),
        is_sqrt(n, b),
    ensures
        a == b,
{
}

/// Every number that is not negative has a whole square root.
pub proof fn lemma_sqrt_exists(n: int)
    requires
        n >= 0,
    ensures
        is_sqrt(n, sqrt_spec(n)),
    decreases n,
{
    if n == 0 {
        assert(is_sqrt(0, 0));
    } else {
        lemma_sqrt_exists(n - 1);
        let r = sqrt_spec(n - 1);
        if (r + 1) * (r + 1) <= n {
            assert(is_sqrt(n, r + 1)) by (nonlinear_arith)
                requires
                    0 <= r,
                    r * r <= n - 1 < (r + 1) * (r + 1),
                    (r + 1) * (r + 1) <= n,
            ;
        } else {
            assert(is_sqrt(n, r));
        }
    }
}

/// Computes [`sqrt_spec`].
pub fn isqrt(n: u128) -> (r: u64)
    ensures
        is_sqrt(n as int, r as int),
        r == sqrt_spec(n as int),
{
    let mut lo: u128 = 0;
    let mut hi: u128 = 0x1_0000_0000_0000_0000;
    assert(0x1_0000_0000_0000_0000 * 0x1_0000_0000_0000_0000
        == 0x1_0000_0000_0000_0000_0000_0000_0000_0000) by (nonlinear_arith);
    while hi - lo > 1
        invariant
            lo < hi <= 0x1_0000_0000_0000_0000,
            lo * lo <= n < hi * hi,
        decreases hi - lo,
    {
        let mid = lo + (hi - lo) / 2;
        assert(mid * mid <= 0xFFFF_FFFF_FFFF_FFFF * 0xFFFF_FFFF_FFFF_FFFF) by (nonlinear_arith)
            requires
                0 <= mid <= 0xFFFF_FFFF_FFFF_FFFF,
        ;
        if mid * mid <= n {
            lo = mid;
        } else {
            hi = mid;
        }
    }
    proof {
        lemma_sqrt_unique(n as int, lo as int, sqrt_spec(n as int));
    }
    lo as u64
}

} // verus!
