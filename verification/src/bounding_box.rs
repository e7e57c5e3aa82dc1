//! Axis-aligned 2D bounding boxes.

use vstd::prelude::*;
use crate::scalar::{HALF, fmul_spec, sat_add_spec};
use crate::v2::V2;

verus! {

/// Axis-aligned 2D bounding box, a `min`/`max` pair of corners.
///
/// Whenever the box is non-empty, `min.x <= max.x` and `min.y <= max.y`.
/// The sentinel returned by [`BoundingBox::smallest`] (with `min` at the
/// type maximum and `max` at the type minimum) stands for an empty box
/// pending expansion through [`BoundingBox::add_point`]; detecting the
/// degenerate `min > max` shape is the caller's responsibility.
#[derive(Debug, Clone, Copy, PartialEq, Eq, Structural)]
pub struct BoundingBox {
    /// Minimum point of the bounding box.
    pub min: V2,
    /// Maximum point of the bounding box.
    pub max: V2,
}

/// The empty-box sentinel: every `add_point` shrinks-from-above and
/// grows-from-below, so the first added point seeds both corners.
pub open spec fn empty_box() -> BoundingBox {
    BoundingBox {
        min: V2 { x: i64::MAX, y: i64::MAX },
        max: V2 { x: i64::MIN, y: i64::MIN },
    }
}

/// Whether `p` lies inside `b`, bounds included.
pub open spec fn contains_point_spec(b: BoundingBox, p: V2) -> bool {
    b.min.x <= p.x && b.min.y <= p.y && b.max.x >= p.x && b.max.y >= p.y
}

/// Whether `a` and `b` overlap: a separating-axis test on both axes.
pub open spec fn overlaps_spec(a: BoundingBox, b: BoundingBox) -> bool {
    a.max.x >= b.min.x && a.min.x <= b.max.x && a.max.y >= b.min.y && a.min.y <= b.max.y
}

/// The box expanded to include `p`: component-wise min/max of the
/// corners against the point.
pub open spec fn add_point_spec(b: BoundingBox, p: V2) -> BoundingBox {
    BoundingBox {
        min: V2 {
            x: if b.min.x < p.x { b.min.x } else { p.x },
            y: if b.min.y < p.y { b.min.y } else { p.y },
        },
        max: V2 {
            x: if b.max.x > p.x { b.max.x } else { p.x },
            y: if b.max.y > p.y { b.max.y } else { p.y },
        },
    }
}

/// The box folded from a point sequence, starting from the empty
/// sentinel.
pub open spec fn bbox_from(s: Seq<V2>) -> BoundingBox
    decreases s.len(),
{
    if s.len() == 0 {
        empty_box()
    } else {
        add_point_spec(bbox_from(s.drop_last()), s.last())
    }
}

impl BoundingBox {
    /// Smallest possible box: the empty sentinel.
    pub fn smallest() -> (r: BoundingBox)
        ensures
            r == empty_box(),
    {
        BoundingBox {
            min: V2::new(i64::MAX, i64::MAX),
            max: V2::new(i64::MIN, i64::MIN),
        }
    }

    /// Largest possible box: the whole representable plane.
    pub fn largest() -> (r: BoundingBox)
        ensures
            r.min == (V2 { x: i64::MIN, y: i64::MIN }),
            r.max == (V2 { x: i64::MAX, y: i64::MAX }),
    {
        BoundingBox {
            min: V2::new(i64::MIN, i64::MIN),
            max: V2::new(i64::MAX, i64::MAX),
        }
    }

    /// Returns true if the given point lies inside the bounding box.
    pub fn contains_point(&self, point: &V2) -> (r: bool)
        ensures
            r == contains_point_spec(*self, *point),
    {
        self.min.x <= point.x && self.min.y <= point.y && self.max.x >= point.x
            && self.max.y >= point.y
    }

    /// Returns true if the given bounding box intersects this bounding
    /// box. Despite the name this is an overlap test, not a containment
    /// test: it answers whether the boxes share any point, not whether
    /// `other` lies fully inside `self`.
    pub fn contains_bbox(&self, other: &BoundingBox) -> (r: bool)
        ensures
            r == overlaps_spec(*self, *other),
    {
        self.max.x >= other.min.x && self.min.x <= other.max.x && self.max.y >= other.min.y
            && self.min.y <= other.max.y
    }

    /// Expands the bounding box to include the given point.
    pub fn add_point(&mut self, point: V2)
        ensures
            *final(self) == add_point_spec(*old(self), point),
    {
        self.min = V2::min(&self.min, &point);
        self.max = V2::max(&self.max, &point);
    }

    /// Returns the corners of the bounding box as a `Vec` of points,
    /// counter-clockwise from the top-left.
    pub fn get_corners(&self) -> (r: Vec<V2>)
        ensures
            r@.len() == 4,
            r@[0] == (V2 { x: self.min.x, y: self.max.y }),
            r@[1] == self.max,
            r@[2] == (V2 { x: self.max.x, y: self.min.y }),
            r@[3] == self.min,
    {
        let mut corners: Vec<V2> = Vec::new();
        corners.push(V2::new(self.min.x, self.max.y));
        corners.push(V2::new(self.max.x, self.max.y));
        corners.push(V2::new(self.max.x, self.min.y));
        corners.push(V2::new(self.min.x, self.min.y));
        corners
    }

    /// Returns the center of the bounding box: the component-wise
    /// midpoint of the two corners.
    pub fn center(&self) -> (r: V2)
        ensures
            r.x as int == fmul_spec(sat_add_spec(self.min.x as int, self.max.x as int), HALF as int),
            r.y as int == fmul_spec(sat_add_spec(self.min.y as int, self.max.y as int), HALF as int),
    {
        self.min.add(&self.max).scale(HALF)
    }

    /// Constructs a new bounding box from its two corners.
    #[inline]
    pub fn new(min: V2, max: V2) -> (r: BoundingBox)
        ensures
            r == (BoundingBox { min, max }),
    {
        BoundingBox { min, max }
    }

    /// Folds [`BoundingBox::add_point`] over a point sequence, starting
    /// from the empty sentinel; an empty input yields the sentinel
    /// unmodified.
    pub fn from_points(points: &Vec<V2>) -> (r: BoundingBox)
        ensures
            r == bbox_from(points@),
    {
        let mut bb: BoundingBox = BoundingBox::smallest();
        let mut i: usize = 0;
        while i < points.len()
            invariant
                i <= points.len(),
                bb == bbox_from(points@.take(i as int)),
            decreases points.len() - i,
        {
            proof {
                assert(points@.take(i as int + 1).drop_last() =~= points@.take(i as int));
            }
            bb.add_point(points[i]);
            i += 1;
        }
        proof {
            assert(points@.take(points@.len() as int) =~= points@);
        }
        bb
    }
}

impl From<Vec<V2>> for BoundingBox {
    /// Folds the point set into a box, as [`BoundingBox::from_points`].
    fn from(points: Vec<V2>) -> (r: BoundingBox) {
        BoundingBox::from_points(&points)
    }
}

impl vstd::std_specs::convert::FromSpecImpl<Vec<V2>> for BoundingBox {
    open spec fn obeys_from_spec() -> bool {
        true
    }

    open spec fn from_spec(points: Vec<V2>) -> BoundingBox {
        bbox_from(points@)
    }
}

/// Every point of a non-empty set lies inside the folded box, and each
/// of the box's four bounds is attained by some point of the set: the
/// fold returns the exact extremes.
pub proof fn lemma_from_points_bounds(s: Seq<V2>)
    requires
        s.len() > 0,
    ensures
        forall|i: int| 0 <= i < s.len() ==> contains_point_spec(bbox_from(s), s[i]),
        exists|i: int| 0 <= i < s.len() && bbox_from(s).min.x == s[i].x,
        exists|i: int| 0 <= i < s.len() && bbox_from(s).min.y == s[i].y,
        exists|i: int| 0 <= i < s.len() && bbox_from(s).max.x == s[i].x,
        exists|i: int| 0 <= i < s.len() && bbox_from(s).max.y == s[i].y,
    decreases s.len(),
{
    if s.len() == 1 {
        assert(s.drop_last().len() == 0);
        assert(bbox_from(s.drop_last()) == empty_box());
        assert(s.last() == s[0]);
        assert(bbox_from(s).min.x == s[0].x);
        assert(bbox_from(s).min.y == s[0].y);
        assert(bbox_from(s).max.x == s[0].x);
        assert(bbox_from(s).max.y == s[0].y);
    } else {
        lemma_from_points_bounds(s.drop_last());
        let prev = bbox_from(s.drop_last());
        let last = s.last();
        assert(forall|i: int|
            0 <= i < s.len() - 1 ==> s.drop_last()[i] == s[i]);
        if bbox_from(s).min.x == prev.min.x {
            let j = choose|i: int| 0 <= i < s.len() - 1 && prev.min.x == s.drop_last()[i].x;
            assert(bbox_from(s).min.x == s[j].x);
        } else {
            assert(bbox_from(s).min.x == s[s.len() - 1].x);
        }
        if bbox_from(s).min.y == prev.min.y {
            let j = choose|i: int| 0 <= i < s.len() - 1 && prev.min.y == s.drop_last()[i].y;
            assert(bbox_from(s).min.y == s[j].y);
        } else {
            assert(bbox_from(s).min.y == s[s.len() - 1].y);
        }
        if bbox_from(s).max.x == prev.max.x {
            let j = choose|i: int| 0 <= i < s.len() - 1 && prev.max.x == s.drop_last()[i].x;
            assert(bbox_from(s).max.x == s[j].x);
        } else {
            assert(bbox_from(s).max.x == s[s.len() - 1].x);
        }
        if bbox_from(s).max.y == prev.max.y {
            let j = choose|i: int| 0 <= i < s.len() - 1 && prev.max.y == s.drop_last()[i].y;
            assert(bbox_from(s).max.y == s[j].y);
        } else {
            assert(bbox_from(s).max.y == s[s.len() - 1].y);
        }
    }
}

/// Adding a point that the box already contains leaves the box
/// unchanged.
pub proof fn lemma_add_point_idempotent(b: BoundingBox, p: V2)
    requires
        contains_point_spec(b, p),
    ensures
        add_point_spec(b, p) == b,
{
}

/// The overlap test is symmetric: two boxes overlap each other or
/// neither does.
pub proof fn lemma_overlap_symmetric(a: BoundingBox, b: BoundingBox)
    ensures
        overlaps_spec(a, b) == overlaps_spec(b, a),
{
}

} // verus!
