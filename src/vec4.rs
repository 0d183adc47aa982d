//! Four-component vectors.

use vstd::prelude::*;
use crate::fixed::Fixed;
use crate::vec3::Vector3;

verus! {

#[derive(Clone, Copy, Debug, PartialEq, Eq, PartialOrd, Ord, Hash)]
pub struct Vector4 {
    pub x: Fixed,
    pub y: Fixed,
    pub z: Fixed,
    pub w: Fixed,
}

impl Vector4 {
    pub open spec fn spec_add(self, o: Vector4) -> Vector4 {
        Vector4 { x: self.x.spec_add(o.x), y: self.y.spec_add(o.y), z: self.z.spec_add(o.z), w: self.w.spec_add(o.w) }
    }

    pub open spec fn spec_sub(self, o: Vector4) -> Vector4 {
        Vector4 { x: self.x.spec_sub(o.x), y: self.y.spec_sub(o.y), z: self.z.spec_sub(o.z), w: self.w.spec_sub(o.w) }
    }

    pub open spec fn spec_mul_elem(self, o: Vector4) -> Vector4 {
        Vector4 { x: self.x.spec_mul(o.x), y: self.y.spec_mul(o.y), z: self.z.spec_mul(o.z), w: self.w.spec_mul(o.w) }
    }

    pub open spec fn spec_div_elem(self, o: Vector4) -> Vector4 {
        Vector4 { x: self.x.spec_div(o.x), y: self.y.spec_div(o.y), z: self.z.spec_div(o.z), w: self.w.spec_div(o.w) }
    }

    pub open spec fn spec_scale(self, s: Fixed) -> Vector4 {
        Vector4 { x: self.x.spec_mul(s), y: self.y.spec_mul(s), z: self.z.spec_mul(s), w: self.w.spec_mul(s) }
    }

    pub open spec fn spec_div_scalar(self, s: Fixed) -> Vector4 {
        Vector4 { x: self.x.spec_div(s), y: self.y.spec_div(s), z: self.z.spec_div(s), w: self.w.spec_div(s) }
    }

    pub open spec fn spec_neg(self) -> Vector4 {
        Vector4 { x: self.x.spec_neg(), y: self.y.spec_neg(), z: self.z.spec_neg(), w: self.w.spec_neg() }
    }

    pub open spec fn spec_magnitude_squared(self) -> Fixed {
        self.x.spec_mul(self.x).spec_add(self.y.spec_mul(self.y)).spec_add(self.z.spec_mul(self.z)).spec_add(self.w.spec_mul(self.w))
    }

    /// The first three components.
    pub open spec fn spec_vec3(self) -> Vector3 {
        Vector3 { x: self.x, y: self.y, z: self.z }
    }

    pub fn new(x: Fixed, y: Fixed, z: Fixed, w: Fixed) -> (r: Vector4)
        ensures
            r.x == x,
            r.y == y,
            r.z == z,
            r.w == w,
    {
        Vector4 { x, y, z, w }
    }

    /// Drops the `w` component.
    pub fn vec3(self) -> (r: Vector3)
        ensures
            r == self.spec_vec3(),
    {
        Vector3 { x: self.x, y: self.y, z: self.z }
    }

    pub fn magnitude_squared(&self) -> (r: Fixed)
        ensures
            r == self.spec_magnitude_squared(),
    {
        self.x.mul(self.x).add(self.y.mul(self.y)).add(self.z.mul(self.z)).add(self.w.mul(self.w))
    }

    pub fn magnitude(&self) -> (r: Fixed)
        ensures
            r == self.spec_magnitude_squared().spec_sqrt(),
            r.is_sqrt_of(self.spec_magnitude_squared()),
    {
        self.magnitude_squared().sqrt()
    }

    /// The vector divided by its magnitude.
    pub fn normalize(&self) -> (r: Vector4)
        ensures
            r == self.spec_div_scalar(self.spec_magnitude_squared().spec_sqrt()),
    {
        let m = self.magnitude();
        self.div(m)
    }

    pub fn add(self, rhs: Vector4) -> (r: Vector4)
        ensures
            r == self.spec_add(rhs),
    {
        Vector4 { x: self.x.add(rhs.x), y: self.y.add(rhs.y), z: self.z.add(rhs.z), w: self.w.add(rhs.w) }
    }

    pub fn add_assign(&mut self, rhs: Vector4)
        ensures
            *final(self) == old(self).spec_add(rhs),
    {
        self.x = self.x.add(rhs.x);
        self.y = self.y.add(rhs.y);
        self.z = self.z.add(rhs.z);
        self.w = self.w.add(rhs.w);
    }

    pub fn sub(self, rhs: Vector4) -> (r: Vector4)
        ensures
            r == self.spec_sub(rhs),
    {
        Vector4 { x: self.x.sub(rhs.x), y: self.y.sub(rhs.y), z: self.z.sub(rhs.z), w: self.w.sub(rhs.w) }
    }

    pub fn sub_assign(&mut self, rhs: Vector4)
        ensures
            *final(self) == old(self).spec_sub(rhs),
    {
        self.x = self.x.sub(rhs.x);
        self.y = self.y.sub(rhs.y);
        self.z = self.z.sub(rhs.z);
        self.w = self.w.sub(rhs.w);
    }

    pub fn mul_elem(self, rhs: Vector4) -> (r: Vector4)
        ensures
            r == self.spec_mul_elem(rhs),
    {
        Vector4 { x: self.x.mul(rhs.x), y: self.y.mul(rhs.y), z: self.z.mul(rhs.z), w: self.w.mul(rhs.w) }
    }

    pub fn mul_assign(&mut self, rhs: Vector4)
        ensures
            *final(self) == old(self).spec_mul_elem(rhs),
    {
        self.x = self.x.mul(rhs.x);
        self.y = self.y.mul(rhs.y);
        self.z = self.z.mul(rhs.z);
        self.w = self.w.mul(rhs.w);
    }

    pub fn div_elem(self, rhs: Vector4) -> (r: Vector4)
        ensures
            r == self.spec_div_elem(rhs),
    {
        Vector4 { x: self.x.div(rhs.x), y: self.y.div(rhs.y), z: self.z.div(rhs.z), w: self.w.div(rhs.w) }
    }

    pub fn div_assign(&mut self, rhs: Vector4)
        ensures
            *final(self) == old(self).spec_div_elem(rhs),
    {
        self.x = self.x.div(rhs.x);
        self.y = self.y.div(rhs.y);
        self.z = self.z.div(rhs.z);
        self.w = self.w.div(rhs.w);
    }

    /// Every component multiplied by `s`.
    pub fn mul(self, s: Fixed) -> (r: Vector4)
        ensures
            r == self.spec_scale(s),
    {
        Vector4 { x: self.x.mul(s), y: self.y.mul(s), z: self.z.mul(s), w: self.w.mul(s) }
    }

    /// Every component divided by `s`.
    pub fn div(self, s: Fixed) -> (r: Vector4)
        ensures
            r == self.spec_div_scalar(s),
    {
        Vector4 { x: self.x.div(s), y: self.y.div(s), z: self.z.div(s), w: self.w.div(s) }
    }

    pub fn neg(self) -> (r: Vector4)
        ensures
            r == self.spec_neg(),
    {
        Vector4 { x: self.x.neg(), y: self.y.neg(), z: self.z.neg(), w: self.w.neg() }
    }
}

} // verus!
