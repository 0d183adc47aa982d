//! Axis-aligned rectangles.

use vstd::prelude::*;
use crate::fixed::Fixed;
use crate::vec2::Vector2;

verus! {

/// The rectangle with corners `min` and `max`.
#[derive(Clone, Copy, Debug, PartialEq, Eq)]
pub struct BoundRect {
    pub min: Vector2,
    pub max: Vector2,
}

/// The smaller of two scalars, the first on a tie.
pub open spec fn min_of(a: Fixed, b: Fixed) -> Fixed {
    if b.raw < a.raw { b } else { a }
}

/// The larger of two scalars, the first on a tie.
pub open spec fn max_of(a: Fixed, b: Fixed) -> Fixed {
    if b.raw > a.raw { b } else { a }
}

/// The rectangle grown to hold `p`.
pub open spec fn extend(b: BoundRect, p: Vector2) -> BoundRect {
    BoundRect {
        min: Vector2 { x: min_of(b.min.x, p.x), y: min_of(b.min.y, p.y) },
        max: Vector2 { x: max_of(b.max.x, p.x), y: max_of(b.max.y, p.y) },
    }
}

/// The least rectangle holding every point of a non-empty sequence.
pub open spec fn enclosing(s: Seq<Vector2>) -> BoundRect
    decreases s.len(),
{
    if s.len() <= 1 {
        BoundRect { min: s[0], max: s[0] }
    } else {
        extend(enclosing(s.drop_last()), s.last())
    }
}

impl BoundRect {
    pub open spec fn spec_from_bounds(xmin: Fixed, ymin: Fixed, xmax: Fixed, ymax: Fixed) -> BoundRect {
        BoundRect { min: Vector2 { x: xmin, y: ymin }, max: Vector2 { x: xmax, y: ymax } }
    }

    /// Greatest of the lower bounds, least of the upper bounds.
    pub open spec fn spec_intersection(self, rhs: BoundRect) -> BoundRect {
        BoundRect {
            min: Vector2 {
                x: if self.min.x.raw < rhs.min.x.raw { rhs.min.x } else { self.min.x },
                y: if self.min.y.raw < rhs.min.y.raw { rhs.min.y } else { self.min.y },
            },
            max: Vector2 {
                x: if self.max.x.raw > rhs.max.x.raw { rhs.max.x } else { self.max.x },
                y: if self.max.y.raw > rhs.max.y.raw { rhs.max.y } else { self.max.y },
            },
        }
    }

    /// Whether the rectangle has no interior.
    pub open spec fn spec_is_empty(self) -> bool {
        !(self.min.x.raw < self.max.x.raw && self.min.y.raw < self.max.y.raw)
    }

    /// Whether `p` lies in the rectangle, borders included.
    pub open spec fn holds(self, p: Vector2) -> bool {
        self.min.x.raw <= p.x.raw <= self.max.x.raw && self.min.y.raw <= p.y.raw <= self.max.y.raw
    }

    pub fn from_bounds(xmin: Fixed, ymin: Fixed, xmax: Fixed, ymax: Fixed) -> (r: BoundRect)
        ensures
            r == BoundRect::spec_from_bounds(xmin, ymin, xmax, ymax),
    {
        BoundRect { min: Vector2::new(xmin, ymin), max: Vector2::new(xmax, ymax) }
    }

    /// The least rectangle holding all the points; `None` when there are none.
    pub fn from_points(points: &[Vector2]) -> (r: Option<BoundRect>)
        ensures
            points@.len() == 0 <==> r.is_none(),
            points@.len() > 0 ==> r == Some(enclosing(points@)),
    {
        if points.len() == 0 {
            return None;
        }
        let mut bound_box = BoundRect { min: points[0], max: points[0] };
        let mut i: usize = 1;
        while i < points.len()
            invariant
                1 <= i <= points@.len(),
                bound_box == enclosing(points@.subrange(0, i as int)),
            decreases points@.len() - i,
        {
            let p = points[i];
            if p.x.lt(bound_box.min.x) {
                bound_box.min.x = p.x;
            }
            if p.y.lt(bound_box.min.y) {
                bound_box.min.y = p.y;
            }
            if bound_box.max.x.lt(p.x) {
                bound_box.max.x = p.x;
            }
            if bound_box.max.y.lt(p.y) {
                bound_box.max.y = p.y;
            }
            proof {
                let s = points@.subrange(0, i as int + 1);
                assert(s.drop_last() =~= points@.subrange(0, i as int));
            }
            i = i + 1;
        }
        proof {
            assert(points@.subrange(0, i as int) =~= points@);
        }
        Some(bound_box)
    }

    pub fn intersection(self, rhs: BoundRect) -> (r: BoundRect)
        ensures
            r == self.spec_intersection(rhs),
    {
        let xmin = if self.min.x.lt(rhs.min.x) { rhs.min.x } else { self.min.x };
        let ymin = if self.min.y.lt(rhs.min.y) { rhs.min.y } else { self.min.y };
        let xmax = if rhs.max.x.lt(self.max.x) { rhs.max.x } else { self.max.x };
        let ymax = if rhs.max.y.lt(self.max.y) { rhs.max.y } else { self.max.y };
        BoundRect::from_bounds(xmin, ymin, xmax, ymax)
    }

    pub fn is_empty(&self) -> (r: bool)
        ensures
            r == self.spec_is_empty(),
    {
        !(self.min.x.lt(self.max.x) && self.min.y.lt(self.max.y))
    }
}

/// The box around a single point is that point at both corners, and has no
/// interior.
pub proof fn lemma_single_point(p: Vector2)
    ensures
        enclosing(seq![p]) == (BoundRect { min: p, max: p }),
        enclosing(seq![p]).spec_is_empty(),
{
}

/// Intersection does not depend on the order of its operands.
pub proof fn lemma_intersection_commutative(r: BoundRect, s: BoundRect)
    ensures
        r.spec_intersection(s) == s.spec_intersection(r),
{
}

/// A rectangle intersected with itself is itself.
pub proof fn lemma_intersection_idempotent(r: BoundRect)
    ensures
        r.spec_intersection(r) == r,
{
}

} // verus!
