//! Fixed-point scalar arithmetic.
//!
//! A scalar is an `i64` counting [`SCALE`]-ths of a unit, so `1.0` is
//! `SCALE`, `-9.81` is `-9_810_000`, and so on. Sums and scaled products
//! saturate at the ends of the `i64` range instead of wrapping or
//! panicking, mirroring how an overflowing magnitude pins itself at an
//! extreme rather than corrupting neighbouring state.

use vstd::prelude::*;

verus! {

/// Number of fixed-point units in one whole unit.
pub const SCALE: i64 = 1_000_000;

/// Half a unit, used for the placeholder body extents.
pub const HALF: i64 = 500_000;

/// Clamp a mathematical integer into the `i64` range.
pub open spec fn sat(x: int) -> int {
    if x > i64::MAX as int {
        i64::MAX as int
    } else if x < i64::MIN as int {
        i64::MIN as int
    } else {
        x
    }
}

/// Magnitude of a mathematical integer.
pub open spec fn mag(x: int) -> int {
    if x < 0 {
        -x
    } else {
        x
    }
}

/// Exact value of a saturating scalar sum.
pub open spec fn sat_add_spec(a: int, b: int) -> int {
    sat(a + b)
}

/// Saturating sum at scalar type: `sat` always lands in the `i64`
/// range, so the cast does not change the value.
pub open spec fn sadd(a: i64, b: i64) -> i64 {
    sat_add_spec(a as int, b as int) as i64
}

/// Saturating difference at scalar type.
pub open spec fn ssub(a: i64, b: i64) -> i64 {
    sat(a as int - b as int) as i64
}

/// Saturating negation at scalar type.
pub open spec fn sneg(a: i64) -> i64 {
    sat(-(a as int)) as i64
}

/// Exact value of a saturating scalar difference.
pub open spec fn sat_sub_spec(a: int, b: int) -> int {
    sat(a - b)
}

/// Exact value of a saturating scalar negation.
pub open spec fn sat_neg_spec(a: int) -> int {
    sat(-a)
}

/// Product of two fixed-point scalars before clamping: the integer
/// quotient of the magnitudes' product by `SCALE`, carrying the sign of
/// the factors (truncation toward zero).
pub open spec fn scaled_prod(a: int, b: int) -> int {
    if (a < 0) == (b < 0) {
        mag(a) * mag(b) / (SCALE as int)
    } else {
        -(mag(a) * mag(b) / (SCALE as int))
    }
}

/// Exact value of a saturating fixed-point multiplication.
pub open spec fn fmul_spec(a: int, b: int) -> int {
    sat(scaled_prod(a, b))
}

/// Saturating fixed-point product at scalar type.
pub open spec fn smul(a: i64, b: i64) -> i64 {
    fmul_spec(a as int, b as int) as i64
}

/// Multiplying by one whole unit (`SCALE`) is the identity.
pub proof fn lemma_smul_one(a: i64)
    ensures
        smul(a, SCALE) == a,
{
    assert(mag(a as int) * (SCALE as int) / (SCALE as int) == mag(a as int)) by (nonlinear_arith)
        requires
            mag(a as int) >= 0,
            SCALE as int == 1_000_000,
    ;
}

/// Multiplying zero by anything gives zero.
pub proof fn lemma_smul_zero(b: i64)
    ensures
        smul(0, b) == 0,
{
    assert(0 * mag(b as int) == 0);
    assert(mag(b as int) * 0 == 0);
}

/// Saturating scalar addition.
pub fn sat_add(a: i64, b: i64) -> (r: i64)
    ensures
        r as int == sat_add_spec(a as int, b as int),
{
    let s: i128 = a as i128 + b as i128;
    if s > i64::MAX as i128 {
        i64::MAX
    } else if s < i64::MIN as i128 {
        i64::MIN
    } else {
        s as i64
    }
}

/// Saturating scalar subtraction.
pub fn sat_sub(a: i64, b: i64) -> (r: i64)
    ensures
        r as int == sat_sub_spec(a as int, b as int),
{
    let s: i128 = a as i128 - b as i128;
    if s > i64::MAX as i128 {
        i64::MAX
    } else if s < i64::MIN as i128 {
        i64::MIN
    } else {
        s as i64
    }
}

/// Saturating scalar negation.
pub fn sat_neg(a: i64) -> (r: i64)
    ensures
        r as int == sat_neg_spec(a as int),
{
    if a == i64::MIN {
        i64::MAX
    } else {
        -a
    }
}

/// Magnitude of a scalar, widened so that `i64::MIN` is representable.
pub(crate) fn mag_u64(a: i64) -> (r: u64)
    ensures
        r as int == mag(a as int),
{
    let w: i128 = a as i128;
    if w >= 0 {
        w as u64
    } else {
        (-w) as u64
    }
}

/// Clamp an unsigned magnitude with a sign into the `i64` range.
fn clamp_signed(q: u128, negative: bool) -> (r: i64)
    ensures
        r as int == sat(if negative { -(q as int) } else { q as int }),
{
    if negative {
        if q >= 9_223_372_036_854_775_808u128 {
            i64::MIN
        } else {
            -(q as i64)
        }
    } else {
        if q > i64::MAX as u128 {
            i64::MAX
        } else {
            q as i64
        }
    }
}

/// Floor of the square root of a non-negative integer.
pub open spec fn isqrt_spec(n: int) -> int
    decreases n,
{
    if n <= 0 {
        0
    } else {
        let p = isqrt_spec(n - 1);
        if (p + 1) * (p + 1) <= n {
            p + 1
        } else {
            p
        }
    }
}

/// `isqrt_spec(n)` is the unique non-negative `r` with
/// `r * r <= n < (r + 1) * (r + 1)`.
pub proof fn lemma_isqrt_props(n: int)
    requires
        n >= 0,
    ensures
        isqrt_spec(n) >= 0,
        isqrt_spec(n) * isqrt_spec(n) <= n,
        n < (isqrt_spec(n) + 1) * (isqrt_spec(n) + 1),
    decreases n,
{
    if n == 0 {
    } else {
        lemma_isqrt_props(n - 1);
        let p = isqrt_spec(n - 1);
        if (p + 1) * (p + 1) <= n {
            assert(n < (p + 2) * (p + 2)) by (nonlinear_arith)
                requires
                    n - 1 < (p + 1) * (p + 1),
                    (p + 1) * (p + 1) <= n,
                    p >= 0,
            ;
        }
    }
}

/// Two brackets of the same `n` name the same root.
proof fn lemma_isqrt_unique(n: int, a: int, b: int)
    requires
        a >= 0,
        b >= 0,
        a * a <= n,
        n < (a + 1) * (a + 1),
        b * b <= n,
        n < (b + 1) * (b + 1),
    ensures
        a == b,
{
    assert(a == b) by (nonlinear_arith)
        requires
            a >= 0,
            b >= 0,
            a * a <= n,
            n < (a + 1) * (a + 1),
            b * b <= n,
            n < (b + 1) * (b + 1),
    ;
}

/// Floor of the square root, by bisection.
pub fn isqrt_u128(n: u128) -> (r: u64)
    ensures
        r as int == isqrt_spec(n as int),
{
    let mut lo: u128 = 0;
    let mut hi: u128 = 18_446_744_073_709_551_616u128;
    proof {
        assert((n as int) < hi as int * hi as int) by (nonlinear_arith)
            requires
                n as int <= 0xffff_ffff_ffff_ffff_ffff_ffff_ffff_ffff,
                hi as int == 18_446_744_073_709_551_616,
        ;
    }
    while hi - lo > 1
        invariant
            lo < hi,
            hi <= 18_446_744_073_709_551_616u128,
            lo as int * lo as int <= n as int,
            (n as int) < hi as int * hi as int,
        decreases hi - lo,
    {
        let mid: u128 = lo + (hi - lo) / 2;
        proof {
            assert(mid as int * mid as int <= 0xffff_ffff_ffff_ffff_ffff_ffff_ffff_ffff)
                by (nonlinear_arith)
                requires
                    mid as int <= 0xffff_ffff_ffff_ffff,
            ;
        }
        if mid * mid <= n {
            lo = mid;
        } else {
            hi = mid;
        }
    }
    proof {
        lemma_isqrt_props(n as int);
        lemma_isqrt_unique(n as int, lo as int, isqrt_spec(n as int));
    }
    lo as u64
}

/// Saturating fixed-point multiplication: `a * b / SCALE`, truncated
/// toward zero and clamped into the `i64` range.
pub fn fmul(a: i64, b: i64) -> (r: i64)
    ensures
        r as int == fmul_spec(a as int, b as int),
{
    let negative: bool = (a < 0) != (b < 0);
    let ma: u64 = mag_u64(a);
    let mb: u64 = mag_u64(b);
    proof {
        assert((ma as int) * (mb as int) <= 0x8000_0000_0000_0000 * 0x8000_0000_0000_0000)
            by (nonlinear_arith)
            requires
                ma as int <= 0x8000_0000_0000_0000,
                mb as int <= 0x8000_0000_0000_0000,
        ;
    }
    let p: u128 = (ma as u128) * (mb as u128);
    let q: u128 = p / (SCALE as u128);
    clamp_signed(q, negative)
}

} // verus!
