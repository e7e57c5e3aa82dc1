//! Minimal 2x2 matrix value type.

use vstd::prelude::*;
use crate::scalar::SCALE;

verus! {

/// 2x2 matrix of fixed-point scalars, row-major. Only the constructor
/// and the identity exist in this core; rotation-matrix construction is
/// left to future collision work.
#[derive(Debug, Clone, Copy, PartialEq, Eq, Structural)]
pub struct M22 {
    /// Row 1, column 1.
    pub m11: i64,
    /// Row 1, column 2.
    pub m12: i64,
    /// Row 2, column 1.
    pub m21: i64,
    /// Row 2, column 2.
    pub m22: i64,
}

impl M22 {
    /// Constructs a new 2x2 matrix.
    pub fn new(m11: i64, m12: i64, m21: i64, m22: i64) -> (r: M22)
        ensures
            r == (M22 { m11, m12, m21, m22 }),
    {
        M22 { m11, m12, m21, m22 }
    }

    /// The identity matrix: ones (in fixed-point units) on the diagonal.
    pub fn identity() -> (r: M22)
        ensures
            r == (M22 { m11: SCALE, m12: 0, m21: 0, m22: SCALE }),
    {
        M22 { m11: SCALE, m12: 0, m21: 0, m22: SCALE }
    }
}

} // verus!
