//! Integer arithmetic shared by the components: every continuous quantity is
//! held as a signed count of small units, and every product is rounded once.

use vstd::prelude::*;

verus! {

/// The dimensionless value one, in billionths.
pub const NANO: i64 = 1_000_000_000;

/// A dimensionless fraction, or a fraction of travel per second, counted in
/// billionths.
#[derive(Clone, Copy, Debug, PartialEq, Eq, Structural)]
pub struct Ratio {
    pub nano: i64,
}

/// A pressure in pascals. A negative value stands for pressure applied in the
/// stowing direction.
#[derive(Clone, Copy, Debug, PartialEq, Eq, Structural)]
pub struct Pressure {
    pub pascal: i64,
}

/// Quotient of `a` by a positive `d`, rounded toward zero.
pub open spec fn div_toward_zero(a: int, d: int) -> int {
    if a >= 0 {
        a / d
    } else {
        -((-a) / d)
    }
}

/// `v` held to the range of an `i64`.
pub open spec fn saturated(v: int) -> int {
    if v < i64::MIN {
        i64::MIN as int
    } else if v > i64::MAX {
        i64::MAX as int
    } else {
        v
    }
}

/// `a * b / d`, rounded toward zero once, then held to the range of an `i64`.
pub open spec fn scaled(a: int, b: int, d: int) -> int {
    saturated(div_toward_zero(a * b, d))
}

/// Computes `a * b / d` with a single rounding toward zero; a result
/// outside the range of an `i64` saturates.
pub fn scale(a: i64, b: i128, d: u64) -> (r: i64)
    requires
        -(u64::MAX as int) <= b <= u64::MAX as int,
        d > 0,
    ensures
        r == scaled(a as int, b as int, d as int),
{
    assert(-0x8000_0000_0000_0000 * 0xffff_ffff_ffff_ffff <= (a as int) * (b as int)
        <= 0x8000_0000_0000_0000 * 0xffff_ffff_ffff_ffff) by (nonlinear_arith)
        requires
            -0x8000_0000_0000_0000 <= a as int <= 0x8000_0000_0000_0000,
            -0xffff_ffff_ffff_ffff <= b as int <= 0xffff_ffff_ffff_ffff,
    ;
    let product: i128 = (a as i128) * b;
    let quotient: i128 = if product >= 0 {
        product / (d as i128)
    } else {
        -((-product) / (d as i128))
    };
    if quotient < i64::MIN as i128 {
        i64::MIN
    } else if quotient > i64::MAX as i128 {
        i64::MAX
    } else {
        quotient as i64
    }
}

/// Scaling by a fraction between minus one and one never gives more than
/// was put in, and gives the sign that the two signs make.
pub proof fn lemma_scaled_by_fraction(a: int, b: int, d: int)
    requires
        d > 0,
        -d <= b <= d,
    ensures
        a >= 0 && b >= 0 ==> 0 <= scaled(a, b, d) <= a,
        a <= 0 && b >= 0 ==> a <= scaled(a, b, d) <= 0,
        a >= 0 && b <= 0 ==> -a <= scaled(a, b, d) <= 0,
        a <= 0 && b <= 0 ==> 0 <= scaled(a, b, d) <= -a,
{
    let product = a * b;
    let size: int = if product >= 0 {
        product
    } else {
        -product
    };
    let bound: int = if a >= 0 {
        a
    } else {
        -a
    };
    assert(size <= bound * d && (a >= 0 && b >= 0 || a <= 0 && b <= 0 ==> product >= 0) && (a >= 0
        && b <= 0 || a <= 0 && b >= 0 ==> product <= 0)) by (nonlinear_arith)
        requires
            product == a * b,
            size == if product >= 0 {
                product
            } else {
                -product
            },
            bound == if a >= 0 {
                a
            } else {
                -a
            },
            d > 0,
            -d <= b <= d,
    ;
    assert(0 <= size / d <= bound) by (nonlinear_arith)
        requires
            0 <= size <= bound * d,
            d > 0,
    ;
}

/// Whether `r` is the square root of `n` rounded down.
pub open spec fn is_floor_sqrt(n: nat, r: nat) -> bool {
    r * r <= n < (r + 1) * (r + 1)
}

/// The square root of `n`, rounded down.
pub open spec fn floor_sqrt(n: nat) -> nat {
    choose|r: nat| is_floor_sqrt(n, r)
}

/// Every natural number has a rounded-down square root.
pub proof fn lemma_floor_sqrt_exists(n: nat)
    ensures
        is_floor_sqrt(n, floor_sqrt(n)),
    decreases n,
{
    if n == 0 {
        assert(0nat * 0nat <= 0 < (0nat + 1) * (0nat + 1)) by (nonlinear_arith);
        assert(is_floor_sqrt(0, 0));
    } else {
        lemma_floor_sqrt_exists((n - 1) as nat);
        let r = floor_sqrt((n - 1) as nat);
        if (r + 1) * (r + 1) <= n {
            assert((r + 2) * (r + 2) > (r + 1) * (r + 1)) by (nonlinear_arith);
            assert(is_floor_sqrt(n, r + 1));
        } else {
            assert(is_floor_sqrt(n, r));
        }
    }
}

/// A number has only one rounded-down square root.
pub proof fn lemma_floor_sqrt_unique(n: nat, r: nat)
    requires
        is_floor_sqrt(n, r),
    ensures
        r == floor_sqrt(n),
{
    lemma_floor_sqrt_exists(n);
    let q = floor_sqrt(n);
    assert(r == q) by (nonlinear_arith)
        requires
            r * r <= n < (r + 1) * (r + 1),
            q * q <= n < (q + 1) * (q + 1),
    ;
}

/// The square root of a square is exact.
pub proof fn lemma_floor_sqrt_of_square(r: nat)
    ensures
        floor_sqrt(r * r) == r,
{
    assert(r * r < (r + 1) * (r + 1)) by (nonlinear_arith);
    lemma_floor_sqrt_unique(r * r, r);
}

/// The rounded-down square root grows with its argument.
pub proof fn lemma_floor_sqrt_monotonic(m: nat, n: nat)
    requires
        m <= n,
    ensures
        floor_sqrt(m) <= floor_sqrt(n),
{
    lemma_floor_sqrt_exists(m);
    lemma_floor_sqrt_exists(n);
    let p = floor_sqrt(m);
    let q = floor_sqrt(n);
    assert(p <= q) by (nonlinear_arith)
        requires
            p * p <= m,
            m <= n,
            n < (q + 1) * (q + 1),
    ;
}

/// Square root of `n`, rounded down.
pub fn isqrt(n: u64) -> (r: u64)
    ensures
        r == floor_sqrt(n as nat),
{
    let mut low: u64 = 0;
    let mut high: u64 = 0x1_0000_0000;
    while high - low > 1
        invariant
            low < high <= 0x1_0000_0000,
            low * low <= n < high * high,
        decreases high - low,
    {
        let middle: u64 = low + (high - low) / 2;
        assert(middle * middle < 0x1_0000_0000 * 0x1_0000_0000) by (nonlinear_arith)
            requires
                middle < 0x1_0000_0000,
        ;
        let square: u64 = middle * middle;
        if square <= n {
            low = middle;
        } else {
            high = middle;
        }
    }
    proof {
        lemma_floor_sqrt_unique(n as nat, low as nat);
    }
    low
}

} // verus!
