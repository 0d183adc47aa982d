//! Two-component vectors.

use vstd::prelude::*;
use crate::fixed::Fixed;

verus! {

#[derive(Clone, Copy, Debug, PartialEq, Eq, PartialOrd, Ord, Hash)]
pub struct Vector2 {
    pub x: Fixed,
    pub y: Fixed,
}

impl Vector2 {
    pub open spec fn spec_add(self, o: Vector2) -> Vector2 {
        Vector2 { x: self.x.spec_add(o.x), y: self.y.spec_add(o.y) }
    }

    pub open spec fn spec_sub(self, o: Vector2) -> Vector2 {
        Vector2 { x: self.x.spec_sub(o.x), y: self.y.spec_sub(o.y) }
    }

    pub open spec fn spec_scale(self, s: Fixed) -> Vector2 {
        Vector2 { x: self.x.spec_mul(s), y: self.y.spec_mul(s) }
    }

    pub open spec fn spec_mul_elem(self, o: Vector2) -> Vector2 {
        Vector2 { x: self.x.spec_mul(o.x), y: self.y.spec_mul(o.y) }
    }

    pub open spec fn spec_div_scalar(self, s: Fixed) -> Vector2 {
        Vector2 { x: self.x.spec_div(s), y: self.y.spec_div(s) }
    }

    pub open spec fn spec_div_elem(self, o: Vector2) -> Vector2 {
        Vector2 { x: self.x.spec_div(o.x), y: self.y.spec_div(o.y) }
    }

    pub open spec fn spec_neg(self) -> Vector2 {
        Vector2 { x: self.x.spec_neg(), y: self.y.spec_neg() }
    }

    pub open spec fn spec_magnitude_squared(self) -> Fixed {
        self.x.spec_mul(self.x).spec_add(self.y.spec_mul(self.y))
    }

    /// The scalar cross product `x1 * y2 - y1 * x2`.
    pub open spec fn spec_cross(self, o: Vector2) -> Fixed {
        self.x.spec_mul(o.y).spec_sub(self.y.spec_mul(o.x))
    }

    pub fn new(x: Fixed, y: Fixed) -> (r: Vector2)
        ensures
            r.x == x,
            r.y == y,
    {
        Vector2 { x, y }
    }

    pub fn magnitude_squared(&self) -> (r: Fixed)
        ensures
            r == self.spec_magnitude_squared(),
    {
        self.x.mul(self.x).add(self.y.mul(self.y))
    }

    pub fn magnitude(&self) -> (r: Fixed)
        ensures
            r == self.spec_magnitude_squared().spec_sqrt(),
            r.is_sqrt_of(self.spec_magnitude_squared()),
    {
        self.magnitude_squared().sqrt()
    }

    /// The vector divided by its magnitude.
    pub fn normalize(&self) -> (r: Vector2)
        ensures
            r == self.spec_div_scalar(self.spec_magnitude_squared().spec_sqrt()),
    {
        let m = self.magnitude();
        self.div(m)
    }

    pub fn cross(&self, rhs: Vector2) -> (r: Fixed)
        ensures
            r == self.spec_cross(rhs),
    {
        self.x.mul(rhs.y).sub(self.y.mul(rhs.x))
    }

    pub fn add(self, rhs: Vector2) -> (r: Vector2)
        ensures
            r == self.spec_add(rhs),
    {
        Vector2 { x: self.x.add(rhs.x), y: self.y.add(rhs.y) }
    }

    pub fn add_assign(&mut self, rhs: Vector2)
        ensures
            *final(self) == old(self).spec_add(rhs),
    {
        self.x = self.x.add(rhs.x);
        self.y = self.y.add(rhs.y);
    }

    pub fn sub(self, rhs: Vector2) -> (r: Vector2)
        ensures
            r == self.spec_sub(rhs),
    {
        Vector2 { x: self.x.sub(rhs.x), y: self.y.sub(rhs.y) }
    }

    pub fn sub_assign(&mut self, rhs: Vector2)
        ensures
            *final(self) == old(self).spec_sub(rhs),
    {
        self.x = self.x.sub(rhs.x);
        self.y = self.y.sub(rhs.y);
    }

    /// Every component multiplied by `s`.
    pub fn mul(self, s: Fixed) -> (r: Vector2)
        ensures
            r == self.spec_scale(s),
    {
        Vector2 { x: self.x.mul(s), y: self.y.mul(s) }
    }

    pub fn mul_elem(self, rhs: Vector2) -> (r: Vector2)
        ensures
            r == self.spec_mul_elem(rhs),
    {
        Vector2 { x: self.x.mul(rhs.x), y: self.y.mul(rhs.y) }
    }

    pub fn mul_assign(&mut self, rhs: Vector2)
        ensures
            *final(self) == old(self).spec_mul_elem(rhs),
    {
        self.x = self.x.mul(rhs.x);
        self.y = self.y.mul(rhs.y);
    }

    /// Every component divided by `s`.
    pub fn div(self, s: Fixed) -> (r: Vector2)
        ensures
            r == self.spec_div_scalar(s),
    {
        Vector2 { x: self.x.div(s), y: self.y.div(s) }
    }

    pub fn div_elem(self, rhs: Vector2) -> (r: Vector2)
        ensures
            r == self.spec_div_elem(rhs),
    {
        Vector2 { x: self.x.div(rhs.x), y: self.y.div(rhs.y) }
    }

    pub fn div_assign(&mut self, rhs: Vector2)
        ensures
            *final(self) == old(self).spec_div_elem(rhs),
    {
        self.x = self.x.div(rhs.x);
        self.y = self.y.div(rhs.y);
    }

    pub fn neg(self) -> (r: Vector2)
        ensures
            r == self.spec_neg(),
    {
        Vector2 { x: self.x.neg(), y: self.y.neg() }
    }
}

/// Swapping the operands of the cross product negates it, and a vector's cross
/// product with itself is zero.
pub proof fn lemma_cross_anticommutative(a: Vector2, b: Vector2)
    ensures
        a.spec_cross(b) == b.spec_cross(a).spec_neg(),
        a.spec_cross(a).raw == 0,
{
    assert(a.x.raw * b.y.raw == b.y.raw * a.x.raw);
    assert(a.y.raw * b.x.raw == b.x.raw * a.y.raw);
}

} // verus!
