//! 2D vectors over fixed-point scalars.

use vstd::prelude::*;
use crate::scalar::{
    SCALE, fmul, fmul_spec, isqrt_spec, isqrt_u128, lemma_isqrt_props, mag, mag_u64, sadd, sat,
    sat_add, sat_neg, sat_sub, smul, sneg, ssub,
};

verus! {

/// 2D vector. Each component is a fixed-point scalar counting
/// [`SCALE`]-ths of a unit.
#[derive(Debug, Clone, Copy, PartialEq, Eq, Structural)]
pub struct V2 {
    /// X component of the vector.
    pub x: i64,
    /// Y component of the vector.
    pub y: i64,
}

/// Squared raw length of a vector: `x * x + y * y` over the raw `i64`
/// component values, before any rescaling.
pub open spec fn raw_len_sq(v: V2) -> int {
    mag(v.x as int) * mag(v.x as int) + mag(v.y as int) * mag(v.y as int)
}

/// Component-wise saturating vector sum.
pub open spec fn v2_add(a: V2, b: V2) -> V2 {
    V2 { x: sadd(a.x, b.x), y: sadd(a.y, b.y) }
}

/// Component-wise saturating vector difference.
pub open spec fn v2_sub(a: V2, b: V2) -> V2 {
    V2 { x: ssub(a.x, b.x), y: ssub(a.y, b.y) }
}

/// Component-wise saturating vector negation.
pub open spec fn v2_neg(a: V2) -> V2 {
    V2 { x: sneg(a.x), y: sneg(a.y) }
}

/// Both components scaled by a fixed-point factor.
pub open spec fn v2_scale(a: V2, factor: i64) -> V2 {
    V2 { x: smul(a.x, factor), y: smul(a.y, factor) }
}

/// Dot product at scalar type.
pub open spec fn dot_spec(a: V2, b: V2) -> i64 {
    sadd(smul(a.x, b.x), smul(a.y, b.y))
}

/// 2D cross (perp-dot) product at scalar type.
pub open spec fn cross_spec(a: V2, b: V2) -> i64 {
    ssub(smul(a.x, b.y), smul(a.y, b.x))
}

/// One normalized component: `c * SCALE / l`, truncated toward zero.
pub open spec fn norm_comp(c: int, l: int) -> int {
    if c < 0 {
        -(mag(c) * (SCALE as int) / l)
    } else {
        mag(c) * (SCALE as int) / l
    }
}

impl V2 {
    /// Constructs a new 2-dimensional vector.
    #[inline]
    pub fn new(x: i64, y: i64) -> (r: V2)
        ensures
            r == (V2 { x, y }),
    {
        V2 { x, y }
    }

    /// Component-wise saturating sum.
    pub fn add(&self, other: &V2) -> (r: V2)
        ensures
            r == v2_add(*self, *other),
    {
        V2 { x: sat_add(self.x, other.x), y: sat_add(self.y, other.y) }
    }

    /// Component-wise saturating difference.
    pub fn sub(&self, other: &V2) -> (r: V2)
        ensures
            r == v2_sub(*self, *other),
    {
        V2 { x: sat_sub(self.x, other.x), y: sat_sub(self.y, other.y) }
    }

    /// Component-wise saturating negation.
    pub fn neg(&self) -> (r: V2)
        ensures
            r == v2_neg(*self),
    {
        V2 { x: sat_neg(self.x), y: sat_neg(self.y) }
    }

    /// Scales both components by a fixed-point factor.
    pub fn scale(&self, factor: i64) -> (r: V2)
        ensures
            r == v2_scale(*self, factor),
    {
        V2 { x: fmul(self.x, factor), y: fmul(self.y, factor) }
    }

    /// Returns the minimum x and y components from two vectors.
    pub fn min(a: &V2, b: &V2) -> (r: V2)
        ensures
            r.x == if a.x < b.x { a.x } else { b.x },
            r.y == if a.y < b.y { a.y } else { b.y },
    {
        V2 {
            x: if a.x < b.x { a.x } else { b.x },
            y: if a.y < b.y { a.y } else { b.y },
        }
    }

    /// Returns the maximum x and y components from two vectors.
    pub fn max(a: &V2, b: &V2) -> (r: V2)
        ensures
            r.x == if a.x > b.x { a.x } else { b.x },
            r.y == if a.y > b.y { a.y } else { b.y },
    {
        V2 {
            x: if a.x > b.x { a.x } else { b.x },
            y: if a.y > b.y { a.y } else { b.y },
        }
    }

    /// Calculates the dot product of the given vectors.
    pub fn dot(a: &V2, b: &V2) -> (r: i64)
        ensures
            r == dot_spec(*a, *b),
    {
        sat_add(fmul(a.x, b.x), fmul(a.y, b.y))
    }

    /// Calculates the 2D cross product (perp-dot product)
    /// `a.x * b.y - a.y * b.x` of the given vectors: the z-component of
    /// the corresponding 3D cross product, which converts a linear
    /// quantity applied at an offset into an angular one.
    pub fn cross(a: &V2, b: &V2) -> (r: i64)
        ensures
            r == cross_spec(*a, *b),
    {
        sat_sub(fmul(a.x, b.y), fmul(a.y, b.x))
    }

    /// Returns the squared length of the vector, as a fixed-point scalar.
    pub fn len_sq(&self) -> (r: i64)
        ensures
            r as int == sat(
                fmul_spec(self.x as int, self.x as int) + fmul_spec(self.y as int, self.y as int),
            ),
    {
        sat_add(fmul(self.x, self.x), fmul(self.y, self.y))
    }

    /// Raw squared length, exact, for the length and normalization paths.
    fn raw_len_sq_exec(&self) -> (r: u128)
        ensures
            r as int == raw_len_sq(*self),
    {
        let mx: u64 = mag_u64(self.x);
        let my: u64 = mag_u64(self.y);
        proof {
            assert(
                mx as int * mx as int + my as int * my as int
                    <= 0x8000_0000_0000_0000 * 0x8000_0000_0000_0000 * 2
            ) by (nonlinear_arith)
                requires
                    mx as int <= 0x8000_0000_0000_0000,
                    my as int <= 0x8000_0000_0000_0000,
            ;
        }
        (mx as u128) * (mx as u128) + (my as u128) * (my as u128)
    }

    /// Returns the length of the vector: the floor of the square root of
    /// the raw squared length, clamped into the `i64` range.
    pub fn len(&self) -> (r: i64)
        ensures
            r as int == sat(isqrt_spec(raw_len_sq(*self))),
    {
        let n: u128 = self.raw_len_sq_exec();
        let root: u64 = isqrt_u128(n);
        if root > i64::MAX as u64 {
            i64::MAX
        } else {
            root as i64
        }
    }

    /// Normalizes the vector to (approximately) unit length without
    /// changing its direction: each component becomes
    /// `c * SCALE / len`, truncated toward zero. The zero vector has no
    /// direction, so it is excluded by precondition.
    pub fn norm(&mut self)
        requires
            !(old(self).x == 0 && old(self).y == 0),
        ensures
            final(self).x as int == norm_comp(old(self).x as int, isqrt_spec(raw_len_sq(*old(self)))),
            final(self).y as int == norm_comp(old(self).y as int, isqrt_spec(raw_len_sq(*old(self)))),
    {
        let n: u128 = self.raw_len_sq_exec();
        let root: u64 = isqrt_u128(n);
        proof {
            lemma_isqrt_props(n as int);
            lemma_root_positive(*self, root as int);
        }
        self.x = norm_comp_exec(self.x, root);
        self.y = norm_comp_exec(self.y, root);
    }
}

/// The root of a nonzero vector's raw squared length is positive and at
/// least each component's magnitude.
proof fn lemma_root_positive(v: V2, root: int)
    requires
        !(v.x == 0 && v.y == 0),
        root >= 0,
        root * root <= raw_len_sq(v),
        raw_len_sq(v) < (root + 1) * (root + 1),
    ensures
        root >= 1,
        mag(v.x as int) <= root,
        mag(v.y as int) <= root,
{
    let mx = mag(v.x as int);
    let my = mag(v.y as int);
    assert(root >= 1 && mx <= root && my <= root) by (nonlinear_arith)
        requires
            mx >= 0,
            my >= 0,
            mx + my >= 1,
            root >= 0,
            root * root <= mx * mx + my * my,
            mx * mx + my * my < (root + 1) * (root + 1),
    ;
}

/// One normalized component: `c * SCALE / root`, truncated toward zero.
fn norm_comp_exec(c: i64, root: u64) -> (r: i64)
    requires
        root >= 1,
        mag(c as int) <= root as int,
    ensures
        r as int == norm_comp(c as int, root as int),
{
    let m: u64 = mag_u64(c);
    let q: u128 = (m as u128) * (SCALE as u128) / (root as u128);
    proof {
        assert(
            m as int * (SCALE as int) / (root as int) <= SCALE as int
        ) by (nonlinear_arith)
            requires
                m as int <= root as int,
                root as int >= 1,
                SCALE as int > 0,
        ;
        assert(m as int * (SCALE as int) <= 0xffff_ffff_ffff_ffff_ffff_ffff_ffff_ffff)
            by (nonlinear_arith)
            requires
                m as int <= 0x8000_0000_0000_0000,
                SCALE as int == 1_000_000,
        ;
    }
    if c < 0 {
        -(q as i64)
    } else {
        q as i64
    }
}

} // verus!
