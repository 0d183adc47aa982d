//! Three-component vectors.

use vstd::prelude::*;
use crate::fixed::Fixed;
use crate::vec2::Vector2;

verus! {

#[derive(Clone, Copy, Debug, PartialEq, Eq, PartialOrd, Ord, Hash)]
pub struct Vector3 {
    pub x: Fixed,
    pub y: Fixed,
    pub z: Fixed,
}

impl Vector3 {
    pub open spec fn spec_add(self, o: Vector3) -> Vector3 {
        Vector3 { x: self.x.spec_add(o.x), y: self.y.spec_add(o.y), z: self.z.spec_add(o.z) }
    }

    pub open spec fn spec_sub(self, o: Vector3) -> Vector3 {
        Vector3 { x: self.x.spec_sub(o.x), y: self.y.spec_sub(o.y), z: self.z.spec_sub(o.z) }
    }

    pub open spec fn spec_mul_elem(self, o: Vector3) -> Vector3 {
        Vector3 { x: self.x.spec_mul(o.x), y: self.y.spec_mul(o.y), z: self.z.spec_mul(o.z) }
    }

    pub open spec fn spec_div_elem(self, o: Vector3) -> Vector3 {
        Vector3 { x: self.x.spec_div(o.x), y: self.y.spec_div(o.y), z: self.z.spec_div(o.z) }
    }

    pub open spec fn spec_scale(self, s: Fixed) -> Vector3 {
        Vector3 { x: self.x.spec_mul(s), y: self.y.spec_mul(s), z: self.z.spec_mul(s) }
    }

    pub open spec fn spec_div_scalar(self, s: Fixed) -> Vector3 {
        Vector3 { x: self.x.spec_div(s), y: self.y.spec_div(s), z: self.z.spec_div(s) }
    }

    pub open spec fn spec_neg(self) -> Vector3 {
        Vector3 { x: self.x.spec_neg(), y: self.y.spec_neg(), z: self.z.spec_neg() }
    }

    /// Whether every component lies in the range that the operations keep.
    pub open spec fn wf(self) -> bool {
        self.x.wf() && self.y.wf() && self.z.wf()
    }

    pub open spec fn spec_magnitude_squared(self) -> Fixed {
        self.x.spec_mul(self.x).spec_add(self.y.spec_mul(self.y)).spec_add(self.z.spec_mul(self.z))
    }

    /// The cross product.
    pub open spec fn spec_cross(self, o: Vector3) -> Vector3 {
        Vector3 {
            x: self.y.spec_mul(o.z).spec_sub(self.z.spec_mul(o.y)),
            y: self.z.spec_mul(o.x).spec_sub(self.x.spec_mul(o.z)),
            z: self.x.spec_mul(o.y).spec_sub(self.y.spec_mul(o.x)),
        }
    }

    pub open spec fn spec_dot(self, o: Vector3) -> Fixed {
        self.x.spec_mul(o.x).spec_add(self.y.spec_mul(o.y)).spec_add(self.z.spec_mul(o.z))
    }

    /// The first two components.
    pub open spec fn spec_vec2(self) -> Vector2 {
        Vector2 { x: self.x, y: self.y }
    }

    pub fn new(x: Fixed, y: Fixed, z: Fixed) -> (r: Vector3)
        ensures
            r.x == x,
            r.y == y,
            r.z == z,
    {
        Vector3 { x, y, z }
    }

    /// Drops the `z` component.
    pub fn vec2(self) -> (r: Vector2)
        ensures
            r == self.spec_vec2(),
    {
        Vector2 { x: self.x, y: self.y }
    }

    pub fn cross(&self, rhs: Vector3) -> (r: Vector3)
        ensures
            r == self.spec_cross(rhs),
    {
        Vector3 {
            x: self.y.mul(rhs.z).sub(self.z.mul(rhs.y)),
            y: self.z.mul(rhs.x).sub(self.x.mul(rhs.z)),
            z: self.x.mul(rhs.y).sub(self.y.mul(rhs.x)),
        }
    }

    pub fn dot(&self, rhs: Vector3) -> (r: Fixed)
        ensures
            r == self.spec_dot(rhs),
    {
        self.x.mul(rhs.x).add(self.y.mul(rhs.y)).add(self.z.mul(rhs.z))
    }

    pub fn magnitude_squared(&self) -> (r: Fixed)
        ensures
            r == self.spec_magnitude_squared(),
    {
        self.x.mul(self.x).add(self.y.mul(self.y)).add(self.z.mul(self.z))
    }

    pub fn magnitude(&self) -> (r: Fixed)
        ensures
            r == self.spec_magnitude_squared().spec_sqrt(),
            r.is_sqrt_of(self.spec_magnitude_squared()),
    {
        self.magnitude_squared().sqrt()
    }

    /// The vector divided by its magnitude.
    pub fn normalize(&self) -> (r: Vector3)
        ensures
            r == self.spec_div_scalar(self.spec_magnitude_squared().spec_sqrt()),
    {
        let m = self.magnitude();
        self.div(m)
    }

    pub fn add(self, rhs: Vector3) -> (r: Vector3)
        ensures
            r == self.spec_add(rhs),
    {
        Vector3 { x: self.x.add(rhs.x), y: self.y.add(rhs.y), z: self.z.add(rhs.z) }
    }

    pub fn add_assign(&mut self, rhs: Vector3)
        ensures
            *final(self) == old(self).spec_add(rhs),
    {
        self.x = self.x.add(rhs.x);
        self.y = self.y.add(rhs.y);
        self.z = self.z.add(rhs.z);
    }

    pub fn sub(self, rhs: Vector3) -> (r: Vector3)
        ensures
            r == self.spec_sub(rhs),
    {
        Vector3 { x: self.x.sub(rhs.x), y: self.y.sub(rhs.y), z: self.z.sub(rhs.z) }
    }

    pub fn sub_assign(&mut self, rhs: Vector3)
        ensures
            *final(self) == old(self).spec_sub(rhs),
    {
        self.x = self.x.sub(rhs.x);
        self.y = self.y.sub(rhs.y);
        self.z = self.z.sub(rhs.z);
    }

    pub fn mul_elem(self, rhs: Vector3) -> (r: Vector3)
        ensures
            r == self.spec_mul_elem(rhs),
    {
        Vector3 { x: self.x.mul(rhs.x), y: self.y.mul(rhs.y), z: self.z.mul(rhs.z) }
    }

    pub fn mul_assign(&mut self, rhs: Vector3)
        ensures
            *final(self) == old(self).spec_mul_elem(rhs),
    {
        self.x = self.x.mul(rhs.x);
        self.y = self.y.mul(rhs.y);
        self.z = self.z.mul(rhs.z);
    }

    pub fn div_elem(self, rhs: Vector3) -> (r: Vector3)
        ensures
            r == self.spec_div_elem(rhs),
    {
        Vector3 { x: self.x.div(rhs.x), y: self.y.div(rhs.y), z: self.z.div(rhs.z) }
    }

    pub fn div_assign(&mut self, rhs: Vector3)
        ensures
            *final(self) == old(self).spec_div_elem(rhs),
    {
        self.x = self.x.div(rhs.x);
        self.y = self.y.div(rhs.y);
        self.z = self.z.div(rhs.z);
    }

    /// Every component multiplied by `s`.
    pub fn mul(self, s: Fixed) -> (r: Vector3)
        ensures
            r == self.spec_scale(s),
    {
        Vector3 { x: self.x.mul(s), y: self.y.mul(s), z: self.z.mul(s) }
    }

    /// Every component divided by `s`.
    pub fn div(self, s: Fixed) -> (r: Vector3)
        ensures
            r == self.spec_div_scalar(s),
    {
        Vector3 { x: self.x.div(s), y: self.y.div(s), z: self.z.div(s) }
    }

    pub fn neg(self) -> (r: Vector3)
        ensures
            r == self.spec_neg(),
    {
        Vector3 { x: self.x.neg(), y: self.y.neg(), z: self.z.neg() }
    }
}

/// Swapping the operands of the cross product negates it, and a vector's cross
/// product with itself is zero.
pub proof fn lemma_cross_anticommutative(a: Vector3, b: Vector3)
    ensures
        a.spec_cross(b) == b.spec_cross(a).spec_neg(),
        a.spec_cross(a) == (Vector3 { x: Fixed { raw: 0 }, y: Fixed { raw: 0 }, z: Fixed { raw: 0 } }),
{
    assert(a.x.raw * b.y.raw == b.y.raw * a.x.raw);
    assert(a.y.raw * b.x.raw == b.x.raw * a.y.raw);
    assert(a.y.raw * b.z.raw == b.z.raw * a.y.raw);
    assert(a.z.raw * b.y.raw == b.y.raw * a.z.raw);
    assert(a.z.raw * b.x.raw == b.x.raw * a.z.raw);
    assert(a.x.raw * b.z.raw == b.z.raw * a.x.raw);
}

} // verus!
