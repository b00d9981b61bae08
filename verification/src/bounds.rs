//! Axis-aligned rectangle bounds and the containment predicate used
//! for hit-testing pointer positions against the board.

use vstd::prelude::*;
use crate::rat::{Rat, Ratio, ratio_add, ratio_eq, ratio_le, ratio_of_int, ratio_wf};
use crate::rat::{lemma_ratio_eq_le, lemma_ratio_le_add_nonneg, lemma_ratio_le_trans};
use crate::rat::lemma_i64_mul_fits_i128;

verus! {

/// Magnitude limit on bound components for hit-testing: keeps the
/// cross-multiplied corner coordinate `position + size` within `i64`.
pub const COORD_LIMIT: i64 = 0x4000_0000;

/// A 2D point or extent with exact rational components.
#[derive(Clone, Copy, Debug, PartialEq, Eq, Structural)]
pub struct Point2 {
    pub x: Rat,
    pub y: Rat,
}

impl Point2 {
    /// Both components are well-formed rationals.
    pub open spec fn wf(self) -> bool {
        self.x.wf() && self.y.wf()
    }

    /// Both components are bounded by `m`.
    pub open spec fn bounded(self, m: int) -> bool {
        self.x.bounded(m) && self.y.bounded(m)
    }
}

/// A 3D point with exact rational components.
#[derive(Clone, Copy, Debug, PartialEq, Eq, Structural)]
pub struct Point3 {
    pub x: Rat,
    pub y: Rat,
    pub z: Rat,
}

impl Point3 {
    /// All components are well-formed rationals.
    pub open spec fn wf(self) -> bool {
        self.x.wf() && self.y.wf() && self.z.wf()
    }

    /// The 2D point of the x and y components.
    pub fn xy(&self) -> (r: Point2)
        ensures
            r == (Point2 { x: self.x, y: self.y }),
    {
        Point2 { x: self.x, y: self.y }
    }
}

/// An axis-aligned rectangle: lower-left corner `position` and extent
/// `size`. Invariant: the size components are non-negative.
#[derive(Clone, Copy, Debug, PartialEq, Eq, Structural)]
pub struct Bounds2 {
    pub position: Point2,
    pub size: Point2,
}

impl Bounds2 {
    /// Well-formed: rational components are well-formed and the size
    /// components are non-negative.
    pub open spec fn wf(self) -> bool {
        &&& self.position.wf()
        &&& self.size.wf()
        &&& ratio_le(ratio_of_int(0), self.size.x@)
        &&& ratio_le(ratio_of_int(0), self.size.y@)
    }

    /// All four rational components are bounded by `m`.
    pub open spec fn bounded(self, m: int) -> bool {
        self.position.bounded(m) && self.size.bounded(m)
    }

    /// Containment of the point `(x, y)`: inside or exactly on the
    /// rectangle's edge, inclusive on both edges of both axes.
    pub open spec fn spec_in_bounds(self, x: Ratio, y: Ratio) -> bool {
        &&& ratio_le(self.position.x@, x)
        &&& ratio_le(x, ratio_add(self.position.x@, self.size.x@))
        &&& ratio_le(self.position.y@, y)
        &&& ratio_le(y, ratio_add(self.position.y@, self.size.y@))
    }

    /// Decides whether `point` lies within the rectangle, edges
    /// included on both axes.
    pub fn in_bounds(&self, point: &Point2) -> (r: bool)
        requires
            self.wf(),
            self.bounded(COORD_LIMIT as int),
            point.wf(),
        ensures
            r == self.spec_in_bounds(point.x@, point.y@),
    {
        let min_x = self.position.x;
        let min_y = self.position.y;
        let max_x = self.corner_coord(&self.position.x, &self.size.x);
        let max_y = self.corner_coord(&self.position.y, &self.size.y);
        min_x.le(&point.x) && point.x.le(&max_x) && min_y.le(&point.y) && point.y.le(&max_y)
    }

    /// The far corner coordinate `position + size` on one axis.
    fn corner_coord(&self, position: &Rat, size: &Rat) -> (r: Rat)
        requires
            position.wf(),
            size.wf(),
            position.bounded(COORD_LIMIT as int),
            size.bounded(COORD_LIMIT as int),
        ensures
            r@ == ratio_add(position@, size@),
            r.wf(),
    {
        proof {
            lemma_i64_mul_fits_i128(position.num as int, size.den as int);
            lemma_i64_mul_fits_i128(size.num as int, position.den as int);
            lemma_i64_mul_fits_i128(position.den as int, size.den as int);
            assert(i64::MIN <= position.num as int * size.den as int
                + size.num as int * position.den as int <= i64::MAX
                && 0 < position.den as int * size.den as int <= i64::MAX) by (nonlinear_arith)
                requires
                    -COORD_LIMIT <= position.num as int <= COORD_LIMIT,
                    0 < position.den as int <= COORD_LIMIT,
                    -COORD_LIMIT <= size.num as int <= COORD_LIMIT,
                    0 < size.den as int <= COORD_LIMIT,
                    COORD_LIMIT == 0x4000_0000,
            ;
        }
        let num_wide: i128 = (position.num as i128) * (size.den as i128)
            + (size.num as i128) * (position.den as i128);
        let den_wide: i128 = (position.den as i128) * (size.den as i128);
        assert(num_wide == ratio_add(position@, size@).num);
        assert(den_wide == ratio_add(position@, size@).den);
        Rat { num: num_wide as i64, den: den_wide as i64 }
    }
}

/// A coordinate `v` lies within the closed range of one axis: between
/// the lower edge `lo` and the upper edge `lo + sz`, or exactly on
/// either edge.
pub open spec fn within_or_on_edge(lo: Ratio, sz: Ratio, v: Ratio) -> bool {
    ||| ratio_eq(v, lo)
    ||| ratio_eq(v, ratio_add(lo, sz))
    ||| (ratio_le(lo, v) && ratio_le(v, ratio_add(lo, sz)))
}

/// A coordinate exactly on an edge of a non-negative range satisfies
/// both of the range's inclusive inequalities.
pub proof fn lemma_axis_edge_within(lo: Ratio, sz: Ratio, v: Ratio)
    requires
        ratio_wf(lo),
        ratio_wf(sz),
        ratio_wf(v),
        ratio_le(ratio_of_int(0), sz),
        within_or_on_edge(lo, sz, v),
    ensures
        ratio_le(lo, v),
        ratio_le(v, ratio_add(lo, sz)),
{
    let hi = ratio_add(lo, sz);
    lemma_ratio_le_add_nonneg(lo, sz);
    assert(ratio_wf(hi)) by (nonlinear_arith)
        requires
            lo.den > 0,
            sz.den > 0,
            hi.den == lo.den * sz.den,
    ;
    if ratio_eq(v, lo) {
        lemma_ratio_eq_le(v, lo);
        lemma_ratio_le_trans(v, lo, hi);
    } else if ratio_eq(v, hi) {
        lemma_ratio_eq_le(v, hi);
        lemma_ratio_le_trans(lo, hi, v);
        lemma_ratio_le_trans(lo, v, hi);
    }
}

/// A point exactly on the rectangle's boundary is in bounds: when
/// each coordinate is within its axis range or exactly on an edge,
/// the containment predicate holds (edges are inclusive).
pub proof fn lemma_boundary_in_bounds(b: Bounds2, x: Ratio, y: Ratio)
    requires
        b.wf(),
        ratio_wf(x),
        ratio_wf(y),
        within_or_on_edge(b.position.x@, b.size.x@, x),
        within_or_on_edge(b.position.y@, b.size.y@, y),
    ensures
        b.spec_in_bounds(x, y),
{
    lemma_axis_edge_within(b.position.x@, b.size.x@, x);
    lemma_axis_edge_within(b.position.y@, b.size.y@, y);
}

} // verus!
