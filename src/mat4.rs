//! Four-by-four matrices acting on column vectors.

use vstd::prelude::*;
use crate::fixed::{Fixed, ONE_RAW};
use crate::vec3::Vector3;
use crate::vec4::Vector4;
use vstd::arithmetic::div_mod::lemma_fundamental_div_mod;
use vstd::arithmetic::div_mod::lemma_fundamental_div_mod_converse;
use vstd::arithmetic::mul::lemma_mul_is_associative;
use vstd::arithmetic::mul::lemma_mul_is_distributive_add;
use vstd::arithmetic::mul::lemma_mul_is_distributive_add_other_way;

verus! {

/// The scalar with the given raw value.
pub open spec fn fx(raw: i64) -> Fixed {
    Fixed { raw }
}

/// `a1 * b1 + a2 * b2 + a3 * b3 + a4 * b4`, accumulated from the left.
pub open spec fn dot4(
    a1: Fixed,
    a2: Fixed,
    a3: Fixed,
    a4: Fixed,
    b1: Fixed,
    b2: Fixed,
    b3: Fixed,
    b4: Fixed,
) -> Fixed {
    a1.spec_mul(b1).spec_add(a2.spec_mul(b2)).spec_add(a3.spec_mul(b3)).spec_add(a4.spec_mul(b4))
}

/// Entry `e_rc` sits in row `r` and column `c`.
#[derive(Clone, Copy, Debug, PartialEq, Eq, PartialOrd, Ord, Hash)]
pub struct Matrix4 {
    pub e11: Fixed,
    pub e12: Fixed,
    pub e13: Fixed,
    pub e14: Fixed,
    pub e21: Fixed,
    pub e22: Fixed,
    pub e23: Fixed,
    pub e24: Fixed,
    pub e31: Fixed,
    pub e32: Fixed,
    pub e33: Fixed,
    pub e34: Fixed,
    pub e41: Fixed,
    pub e42: Fixed,
    pub e43: Fixed,
    pub e44: Fixed,
}

impl Matrix4 {
    /// The product `self * rhs`.
    pub open spec fn spec_mul(self, rhs: Matrix4) -> Matrix4 {
        Matrix4 {
            e11: dot4(self.e11, self.e12, self.e13, self.e14, rhs.e11, rhs.e21, rhs.e31, rhs.e41),
            e12: dot4(self.e11, self.e12, self.e13, self.e14, rhs.e12, rhs.e22, rhs.e32, rhs.e42),
            e13: dot4(self.e11, self.e12, self.e13, self.e14, rhs.e13, rhs.e23, rhs.e33, rhs.e43),
            e14: dot4(self.e11, self.e12, self.e13, self.e14, rhs.e14, rhs.e24, rhs.e34, rhs.e44),
            e21: dot4(self.e21, self.e22, self.e23, self.e24, rhs.e11, rhs.e21, rhs.e31, rhs.e41),
            e22: dot4(self.e21, self.e22, self.e23, self.e24, rhs.e12, rhs.e22, rhs.e32, rhs.e42),
            e23: dot4(self.e21, self.e22, self.e23, self.e24, rhs.e13, rhs.e23, rhs.e33, rhs.e43),
            e24: dot4(self.e21, self.e22, self.e23, self.e24, rhs.e14, rhs.e24, rhs.e34, rhs.e44),
            e31: dot4(self.e31, self.e32, self.e33, self.e34, rhs.e11, rhs.e21, rhs.e31, rhs.e41),
            e32: dot4(self.e31, self.e32, self.e33, self.e34, rhs.e12, rhs.e22, rhs.e32, rhs.e42),
            e33: dot4(self.e31, self.e32, self.e33, self.e34, rhs.e13, rhs.e23, rhs.e33, rhs.e43),
            e34: dot4(self.e31, self.e32, self.e33, self.e34, rhs.e14, rhs.e24, rhs.e34, rhs.e44),
            e41: dot4(self.e41, self.e42, self.e43, self.e44, rhs.e11, rhs.e21, rhs.e31, rhs.e41),
            e42: dot4(self.e41, self.e42, self.e43, self.e44, rhs.e12, rhs.e22, rhs.e32, rhs.e42),
            e43: dot4(self.e41, self.e42, self.e43, self.e44, rhs.e13, rhs.e23, rhs.e33, rhs.e43),
            e44: dot4(self.e41, self.e42, self.e43, self.e44, rhs.e14, rhs.e24, rhs.e34, rhs.e44),
        }
    }

    /// The product `self * v`, with `v` as a column.
    pub open spec fn spec_mul_vec(self, v: Vector4) -> Vector4 {
        Vector4 {
            x: dot4(self.e11, self.e12, self.e13, self.e14, v.x, v.y, v.z, v.w),
            y: dot4(self.e21, self.e22, self.e23, self.e24, v.x, v.y, v.z, v.w),
            z: dot4(self.e31, self.e32, self.e33, self.e34, v.x, v.y, v.z, v.w),
            w: dot4(self.e41, self.e42, self.e43, self.e44, v.x, v.y, v.z, v.w),
        }
    }

    pub open spec fn spec_transpose(self) -> Matrix4 {
        Matrix4 {
            e11: self.e11,
            e12: self.e21,
            e13: self.e31,
            e14: self.e41,
            e21: self.e12,
            e22: self.e22,
            e23: self.e32,
            e24: self.e42,
            e31: self.e13,
            e32: self.e23,
            e33: self.e33,
            e34: self.e43,
            e41: self.e14,
            e42: self.e24,
            e43: self.e34,
            e44: self.e44,
        }
    }

    pub open spec fn spec_identity() -> Matrix4 {
        Matrix4 {
            e11: fx(ONE_RAW),
            e12: fx(0),
            e13: fx(0),
            e14: fx(0),
            e21: fx(0),
            e22: fx(ONE_RAW),
            e23: fx(0),
            e24: fx(0),
            e31: fx(0),
            e32: fx(0),
            e33: fx(ONE_RAW),
            e34: fx(0),
            e41: fx(0),
            e42: fx(0),
            e43: fx(0),
            e44: fx(ONE_RAW),
        }
    }

    pub open spec fn spec_translation(t: Vector3) -> Matrix4 {
        Matrix4 {
            e11: fx(ONE_RAW),
            e12: fx(0),
            e13: fx(0),
            e14: t.x,
            e21: fx(0),
            e22: fx(ONE_RAW),
            e23: fx(0),
            e24: t.y,
            e31: fx(0),
            e32: fx(0),
            e33: fx(ONE_RAW),
            e34: t.z,
            e41: fx(0),
            e42: fx(0),
            e43: fx(0),
            e44: fx(ONE_RAW),
        }
    }

    pub open spec fn spec_scaling(s: Vector3) -> Matrix4 {
        Matrix4 {
            e11: s.x,
            e12: fx(0),
            e13: fx(0),
            e14: fx(0),
            e21: fx(0),
            e22: s.y,
            e23: fx(0),
            e24: fx(0),
            e31: fx(0),
            e32: fx(0),
            e33: s.z,
            e34: fx(0),
            e41: fx(0),
            e42: fx(0),
            e43: fx(0),
            e44: fx(ONE_RAW),
        }
    }

    /// Rotation about the x axis by the angle with sine `s` and cosine `c`.
    pub open spec fn spec_rotation_x(s: Fixed, c: Fixed) -> Matrix4 {
        Matrix4 {
            e11: fx(ONE_RAW),
            e12: fx(0),
            e13: fx(0),
            e14: fx(0),
            e21: fx(0),
            e22: c,
            e23: s.spec_neg(),
            e24: fx(0),
            e31: fx(0),
            e32: s,
            e33: c,
            e34: fx(0),
            e41: fx(0),
            e42: fx(0),
            e43: fx(0),
            e44: fx(ONE_RAW),
        }
    }

    /// Rotation about the y axis by the angle with sine `s` and cosine `c`.
    pub open spec fn spec_rotation_y(s: Fixed, c: Fixed) -> Matrix4 {
        Matrix4 {
            e11: c,
            e12: fx(0),
            e13: s,
            e14: fx(0),
            e21: fx(0),
            e22: fx(ONE_RAW),
            e23: fx(0),
            e24: fx(0),
            e31: s.spec_neg(),
            e32: fx(0),
            e33: c,
            e34: fx(0),
            e41: fx(0),
            e42: fx(0),
            e43: fx(0),
            e44: fx(ONE_RAW),
        }
    }

    /// Rotation about the z axis by the angle with sine `s` and cosine `c`.
    pub open spec fn spec_rotation_z(s: Fixed, c: Fixed) -> Matrix4 {
        Matrix4 {
            e11: c,
            e12: s.spec_neg(),
            e13: fx(0),
            e14: fx(0),
            e21: s,
            e22: c,
            e23: fx(0),
            e24: fx(0),
            e31: fx(0),
            e32: fx(0),
            e33: fx(ONE_RAW),
            e34: fx(0),
            e41: fx(0),
            e42: fx(0),
            e43: fx(0),
            e44: fx(ONE_RAW),
        }
    }

    /// Rotation about x, then y, then z, by the angles whose sines and cosines
    /// are the components of `sin` and `cos`.
    pub open spec fn spec_rotation(sin: Vector3, cos: Vector3) -> Matrix4 {
        Matrix4::spec_rotation_z(sin.z, cos.z).spec_mul(Matrix4::spec_rotation_y(sin.y, cos.y)).spec_mul(
            Matrix4::spec_rotation_x(sin.x, cos.x),
        )
    }

    /// Perspective projection onto a plane of the given extents, mapping depth
    /// between `near` and `far`.
    pub open spec fn spec_perspective(width: Fixed, height: Fixed, far: Fixed, near: Fixed) -> Matrix4 {
        let two = Fixed::spec_from_int(2);
        let depth = far.spec_sub(near);
        Matrix4 {
            e11: two.spec_mul(near).spec_div(width),
            e12: fx(0),
            e13: fx(0),
            e14: fx(0),
            e21: fx(0),
            e22: two.spec_mul(near).spec_div(height),
            e23: fx(0),
            e24: fx(0),
            e31: fx(0),
            e32: fx(0),
            e33: far.spec_add(near).spec_neg().spec_div(depth),
            e34: two.spec_mul(far).spec_mul(near).spec_neg().spec_div(depth),
            e41: fx(0),
            e42: fx(0),
            e43: fx(ONE_RAW).spec_neg(),
            e44: fx(0),
        }
    }

    /// The point lifted to `(x, y, z, 1)`, multiplied, and divided by the
    /// resulting `w`.
    pub open spec fn spec_transform(self, p: Vector3) -> Vector3 {
        let v = self.spec_mul_vec(Vector4 { x: p.x, y: p.y, z: p.z, w: fx(ONE_RAW) });
        v.spec_vec3().spec_div_scalar(v.w)
    }

    /// Whether every entry is a whole number between `-bound` and `bound`.
    pub open spec fn entries_whole_within(self, bound: int) -> bool {
        whole_within(self.e11, bound)
            && whole_within(self.e12, bound)
            && whole_within(self.e13, bound)
            && whole_within(self.e14, bound)
            && whole_within(self.e21, bound)
            && whole_within(self.e22, bound)
            && whole_within(self.e23, bound)
            && whole_within(self.e24, bound)
            && whole_within(self.e31, bound)
            && whole_within(self.e32, bound)
            && whole_within(self.e33, bound)
            && whole_within(self.e34, bound)
            && whole_within(self.e41, bound)
            && whole_within(self.e42, bound)
            && whole_within(self.e43, bound)
            && whole_within(self.e44, bound)
    }

    pub fn new(
        e11: Fixed,
        e12: Fixed,
        e13: Fixed,
        e14: Fixed,
        e21: Fixed,
        e22: Fixed,
        e23: Fixed,
        e24: Fixed,
        e31: Fixed,
        e32: Fixed,
        e33: Fixed,
        e34: Fixed,
        e41: Fixed,
        e42: Fixed,
        e43: Fixed,
        e44: Fixed,
    ) -> (r: Matrix4)
        ensures
            r.e11 == e11,
            r.e12 == e12,
            r.e13 == e13,
            r.e14 == e14,
            r.e21 == e21,
            r.e22 == e22,
            r.e23 == e23,
            r.e24 == e24,
            r.e31 == e31,
            r.e32 == e32,
            r.e33 == e33,
            r.e34 == e34,
            r.e41 == e41,
            r.e42 == e42,
            r.e43 == e43,
            r.e44 == e44,
    {
        Matrix4 { e11, e12, e13, e14, e21, e22, e23, e24, e31, e32, e33, e34, e41, e42, e43, e44 }
    }

    pub fn transpose(self) -> (r: Matrix4)
        ensures
            r == self.spec_transpose(),
    {
        Matrix4 {
            e11: self.e11,
            e12: self.e21,
            e13: self.e31,
            e14: self.e41,
            e21: self.e12,
            e22: self.e22,
            e23: self.e32,
            e24: self.e42,
            e31: self.e13,
            e32: self.e23,
            e33: self.e33,
            e34: self.e43,
            e41: self.e14,
            e42: self.e24,
            e43: self.e34,
            e44: self.e44,
        }
    }

    pub fn identity() -> (r: Matrix4)
        ensures
            r == Matrix4::spec_identity(),
    {
        let one = Fixed::one();
        let zero = Fixed::zero();
        Matrix4 {
            e11: one,
            e12: zero,
            e13: zero,
            e14: zero,
            e21: zero,
            e22: one,
            e23: zero,
            e24: zero,
            e31: zero,
            e32: zero,
            e33: one,
            e34: zero,
            e41: zero,
            e42: zero,
            e43: zero,
            e44: one,
        }
    }

    /// Translation by `pos`.
    pub fn translation(pos: Vector3) -> (r: Matrix4)
        ensures
            r == Matrix4::spec_translation(pos),
    {
        let one = Fixed::one();
        let zero = Fixed::zero();
        Matrix4 {
            e11: one,
            e12: zero,
            e13: zero,
            e14: pos.x,
            e21: zero,
            e22: one,
            e23: zero,
            e24: pos.y,
            e31: zero,
            e32: zero,
            e33: one,
            e34: pos.z,
            e41: zero,
            e42: zero,
            e43: zero,
            e44: one,
        }
    }

    /// Scaling by the components of `scale` along the axes.
    pub fn scaling(scale: Vector3) -> (r: Matrix4)
        ensures
            r == Matrix4::spec_scaling(scale),
    {
        let one = Fixed::one();
        let zero = Fixed::zero();
        Matrix4 {
            e11: scale.x,
            e12: zero,
            e13: zero,
            e14: zero,
            e21: zero,
            e22: scale.y,
            e23: zero,
            e24: zero,
            e31: zero,
            e32: zero,
            e33: scale.z,
            e34: zero,
            e41: zero,
            e42: zero,
            e43: zero,
            e44: one,
        }
    }

    /// Scaling about the point `pos`.
    pub fn scaling_around(scale: Vector3, pos: Vector3) -> (r: Matrix4)
        ensures
            r == Matrix4::spec_translation(pos).spec_mul(Matrix4::spec_scaling(scale)).spec_mul(
                Matrix4::spec_translation(pos.spec_neg()),
            ),
    {
        Self::translation(pos).mul(Self::scaling(scale)).mul(Self::translation(pos.neg()))
    }

    /// Rotation about x, then y, then z; `sin` and `cos` hold the sines and
    /// cosines of the three angles.
    pub fn rotation(sin: Vector3, cos: Vector3) -> (r: Matrix4)
        ensures
            r == Matrix4::spec_rotation(sin, cos),
    {
        let one = Fixed::one();
        let zero = Fixed::zero();
        let rotx = Matrix4 {
            e11: one,
            e12: zero,
            e13: zero,
            e14: zero,
            e21: zero,
            e22: cos.x,
            e23: sin.x.neg(),
            e24: zero,
            e31: zero,
            e32: sin.x,
            e33: cos.x,
            e34: zero,
            e41: zero,
            e42: zero,
            e43: zero,
            e44: one,
        };
        let roty = Matrix4 {
            e11: cos.y,
            e12: zero,
            e13: sin.y,
            e14: zero,
            e21: zero,
            e22: one,
            e23: zero,
            e24: zero,
            e31: sin.y.neg(),
            e32: zero,
            e33: cos.y,
            e34: zero,
            e41: zero,
            e42: zero,
            e43: zero,
            e44: one,
        };
        let rotz = Matrix4 {
            e11: cos.z,
            e12: sin.z.neg(),
            e13: zero,
            e14: zero,
            e21: sin.z,
            e22: cos.z,
            e23: zero,
            e24: zero,
            e31: zero,
            e32: zero,
            e33: one,
            e34: zero,
            e41: zero,
            e42: zero,
            e43: zero,
            e44: one,
        };
        rotz.mul(roty).mul(rotx)
    }

    /// Rotation about the point `pos`.
    pub fn rotation_around(sin: Vector3, cos: Vector3, pos: Vector3) -> (r: Matrix4)
        ensures
            r == Matrix4::spec_translation(pos).spec_mul(Matrix4::spec_rotation(sin, cos)).spec_mul(
                Matrix4::spec_translation(pos.spec_neg()),
            ),
    {
        Self::translation(pos).mul(Self::rotation(sin, cos)).mul(Self::translation(pos.neg()))
    }

    pub fn perspective(width: Fixed, height: Fixed, far: Fixed, near: Fixed) -> (r: Matrix4)
        ensures
            r == Matrix4::spec_perspective(width, height, far, near),
    {
        let one = Fixed::one();
        let zero = Fixed::zero();
        let two = Fixed::from_int(2);
        let depth = far.sub(near);
        Matrix4 {
            e11: two.mul(near).div(width),
            e12: zero,
            e13: zero,
            e14: zero,
            e21: zero,
            e22: two.mul(near).div(height),
            e23: zero,
            e24: zero,
            e31: zero,
            e32: zero,
            e33: far.add(near).neg().div(depth),
            e34: two.mul(far).mul(near).neg().div(depth),
            e41: zero,
            e42: zero,
            e43: one.neg(),
            e44: zero,
        }
    }

    /// Applies the matrix to the point `(x, y, z, 1)` and divides by the
    /// resulting `w`.
    pub fn transform(&self, pos: Vector3) -> (r: Vector3)
        ensures
            r == self.spec_transform(pos),
    {
        let v = self.mul_vec(Vector4 { x: pos.x, y: pos.y, z: pos.z, w: Fixed::one() });
        v.vec3().div(v.w)
    }

    pub fn mul(self, rhs: Matrix4) -> (r: Matrix4)
        ensures
            r == self.spec_mul(rhs),
    {
        Matrix4 {
            e11: self.e11.mul(rhs.e11).add(self.e12.mul(rhs.e21)).add(self.e13.mul(rhs.e31)).add(self.e14.mul(rhs.e41)),
            e12: self.e11.mul(rhs.e12).add(self.e12.mul(rhs.e22)).add(self.e13.mul(rhs.e32)).add(self.e14.mul(rhs.e42)),
            e13: self.e11.mul(rhs.e13).add(self.e12.mul(rhs.e23)).add(self.e13.mul(rhs.e33)).add(self.e14.mul(rhs.e43)),
            e14: self.e11.mul(rhs.e14).add(self.e12.mul(rhs.e24)).add(self.e13.mul(rhs.e34)).add(self.e14.mul(rhs.e44)),
            e21: self.e21.mul(rhs.e11).add(self.e22.mul(rhs.e21)).add(self.e23.mul(rhs.e31)).add(self.e24.mul(rhs.e41)),
            e22: self.e21.mul(rhs.e12).add(self.e22.mul(rhs.e22)).add(self.e23.mul(rhs.e32)).add(self.e24.mul(rhs.e42)),
            e23: self.e21.mul(rhs.e13).add(self.e22.mul(rhs.e23)).add(self.e23.mul(rhs.e33)).add(self.e24.mul(rhs.e43)),
            e24: self.e21.mul(rhs.e14).add(self.e22.mul(rhs.e24)).add(self.e23.mul(rhs.e34)).add(self.e24.mul(rhs.e44)),
            e31: self.e31.mul(rhs.e11).add(self.e32.mul(rhs.e21)).add(self.e33.mul(rhs.e31)).add(self.e34.mul(rhs.e41)),
            e32: self.e31.mul(rhs.e12).add(self.e32.mul(rhs.e22)).add(self.e33.mul(rhs.e32)).add(self.e34.mul(rhs.e42)),
            e33: self.e31.mul(rhs.e13).add(self.e32.mul(rhs.e23)).add(self.e33.mul(rhs.e33)).add(self.e34.mul(rhs.e43)),
            e34: self.e31.mul(rhs.e14).add(self.e32.mul(rhs.e24)).add(self.e33.mul(rhs.e34)).add(self.e34.mul(rhs.e44)),
            e41: self.e41.mul(rhs.e11).add(self.e42.mul(rhs.e21)).add(self.e43.mul(rhs.e31)).add(self.e44.mul(rhs.e41)),
            e42: self.e41.mul(rhs.e12).add(self.e42.mul(rhs.e22)).add(self.e43.mul(rhs.e32)).add(self.e44.mul(rhs.e42)),
            e43: self.e41.mul(rhs.e13).add(self.e42.mul(rhs.e23)).add(self.e43.mul(rhs.e33)).add(self.e44.mul(rhs.e43)),
            e44: self.e41.mul(rhs.e14).add(self.e42.mul(rhs.e24)).add(self.e43.mul(rhs.e34)).add(self.e44.mul(rhs.e44)),
        }
    }

    pub fn mul_assign(&mut self, rhs: Matrix4)
        ensures
            *final(self) == old(self).spec_mul(rhs),
    {
        *self = self.mul(rhs);
    }

    pub fn mul_vec(self, v: Vector4) -> (r: Vector4)
        ensures
            r == self.spec_mul_vec(v),
    {
        Vector4 {
            x: self.e11.mul(v.x).add(self.e12.mul(v.y)).add(self.e13.mul(v.z)).add(self.e14.mul(v.w)),
            y: self.e21.mul(v.x).add(self.e22.mul(v.y)).add(self.e23.mul(v.z)).add(self.e24.mul(v.w)),
            z: self.e31.mul(v.x).add(self.e32.mul(v.y)).add(self.e33.mul(v.z)).add(self.e34.mul(v.w)),
            w: self.e41.mul(v.x).add(self.e42.mul(v.y)).add(self.e43.mul(v.z)).add(self.e44.mul(v.w)),
        }
    }
}

/// Transforming any point by the identity matrix gives the point back.
pub proof fn lemma_identity_transform(p: Vector3)
    requires
        p.wf(),
    ensures
        Matrix4::spec_identity().spec_transform(p) == p,
{
    let v = Matrix4::spec_identity().spec_mul_vec(Vector4 { x: p.x, y: p.y, z: p.z, w: fx(ONE_RAW) });
    assert(v.w == fx(ONE_RAW));
    assert(v.spec_vec3() == p);
}

/// Transforming a point by a translation adds the offset to it.
pub proof fn lemma_translation_transform(t: Vector3, p: Vector3)
    requires
        t.wf(),
        p.wf(),
    ensures
        Matrix4::spec_translation(t).spec_transform(p) == p.spec_add(t),
{
    let v = Matrix4::spec_translation(t).spec_mul_vec(Vector4 { x: p.x, y: p.y, z: p.z, w: fx(ONE_RAW) });
    assert(v.w == fx(ONE_RAW));
    assert(v.spec_vec3() == p.spec_add(t));
}

/// Whether `f` is a whole number between `-bound` and `bound`.
pub open spec fn whole_within(f: Fixed, bound: int) -> bool {
    (f.raw as int) % (ONE_RAW as int) == 0 && -bound * ONE_RAW <= f.raw <= bound * ONE_RAW
}

/// The whole number that `f` holds.
pub open spec fn whole_value(f: Fixed) -> int {
    (f.raw as int) / (ONE_RAW as int)
}

proof fn lemma_whole(f: Fixed, bound: int)
    requires
        whole_within(f, bound),
    ensures
        f.raw == whole_value(f) * ONE_RAW,
        -bound <= whole_value(f) <= bound,
{
    lemma_fundamental_div_mod(f.raw as int, ONE_RAW as int);
}

proof fn lemma_product_bound(x: int, y: int, a: int, b: int)
    requires
        -a <= x <= a,
        -b <= y <= b,
    ensures
        -(a * b) <= x * y <= a * b,
{
    assert(-(a * b) <= x * y <= a * b) by (nonlinear_arith)
        requires
            -a <= x <= a,
            -b <= y <= b,
    ;
}

/// The product of two whole numbers is exact while it stays small.
proof fn lemma_mul_whole(a: Fixed, b: Fixed, x: int, y: int)
    requires
        a.raw == x * ONE_RAW,
        b.raw == y * ONE_RAW,
        -0x1000_0000_0000 <= x * y <= 0x1000_0000_0000,
    ensures
        a.spec_mul(b).raw == (x * y) * ONE_RAW,
{
    let t = x * y;
    assert(a.raw * b.raw == (t * ONE_RAW) * ONE_RAW) by (nonlinear_arith)
        requires
            a.raw == x * ONE_RAW,
            b.raw == y * ONE_RAW,
            t == x * y,
    ;
    lemma_fundamental_div_mod_converse((t * ONE_RAW) * ONE_RAW, ONE_RAW as int, t * ONE_RAW, 0);
}

/// A sum of four products of whole numbers is exact while each product stays
/// small.
proof fn lemma_dot4_whole(
    a1: Fixed,
    a2: Fixed,
    a3: Fixed,
    a4: Fixed,
    b1: Fixed,
    b2: Fixed,
    b3: Fixed,
    b4: Fixed,
    x1: int,
    x2: int,
    x3: int,
    x4: int,
    y1: int,
    y2: int,
    y3: int,
    y4: int,
)
    requires
        a1.raw == x1 * ONE_RAW,
        a2.raw == x2 * ONE_RAW,
        a3.raw == x3 * ONE_RAW,
        a4.raw == x4 * ONE_RAW,
        b1.raw == y1 * ONE_RAW,
        b2.raw == y2 * ONE_RAW,
        b3.raw == y3 * ONE_RAW,
        b4.raw == y4 * ONE_RAW,
        -0x1000_0000_0000 <= x1 * y1 <= 0x1000_0000_0000,
        -0x1000_0000_0000 <= x2 * y2 <= 0x1000_0000_0000,
        -0x1000_0000_0000 <= x3 * y3 <= 0x1000_0000_0000,
        -0x1000_0000_0000 <= x4 * y4 <= 0x1000_0000_0000,
    ensures
        dot4(a1, a2, a3, a4, b1, b2, b3, b4).raw == (x1 * y1 + x2 * y2 + x3 * y3 + x4 * y4) * ONE_RAW,
{
    lemma_mul_whole(a1, b1, x1, y1);
    lemma_mul_whole(a2, b2, x2, y2);
    lemma_mul_whole(a3, b3, x3, y3);
    lemma_mul_whole(a4, b4, x4, y4);
}

proof fn lemma_distribute_left(x: int, b1: int, b2: int, b3: int, b4: int, y1: int, y2: int, y3: int, y4: int)
    ensures
        x * (b1 * y1 + b2 * y2 + b3 * y3 + b4 * y4) == (x * b1) * y1 + (x * b2) * y2 + (x * b3) * y3 + (x
            * b4) * y4,
{
    lemma_mul_is_distributive_add(x, b1 * y1 + b2 * y2 + b3 * y3, b4 * y4);
    lemma_mul_is_distributive_add(x, b1 * y1 + b2 * y2, b3 * y3);
    lemma_mul_is_distributive_add(x, b1 * y1, b2 * y2);
    lemma_mul_is_associative(x, b1, y1);
    lemma_mul_is_associative(x, b2, y2);
    lemma_mul_is_associative(x, b3, y3);
    lemma_mul_is_associative(x, b4, y4);
}

proof fn lemma_distribute_right(x1: int, x2: int, x3: int, x4: int, b1: int, b2: int, b3: int, b4: int, y: int)
    ensures
        (x1 * b1 + x2 * b2 + x3 * b3 + x4 * b4) * y == (x1 * b1) * y + (x2 * b2) * y + (x3 * b3) * y + (x4
            * b4) * y,
{
    lemma_mul_is_distributive_add_other_way(y, x1 * b1 + x2 * b2 + x3 * b3, x4 * b4);
    lemma_mul_is_distributive_add_other_way(y, x1 * b1 + x2 * b2, x3 * b3);
    lemma_mul_is_distributive_add_other_way(y, x1 * b1, x2 * b2);
}

/// One row of the associativity of matrix products applied to a vector.
proof fn lemma_row_composition(a1: Fixed, a2: Fixed, a3: Fixed, a4: Fixed, m: Matrix4, v: Vector4)
    requires
        whole_within(a1, 1024),
        whole_within(a2, 1024),
        whole_within(a3, 1024),
        whole_within(a4, 1024),
        m.entries_whole_within(1024),
        whole_within(v.x, 1024),
        whole_within(v.y, 1024),
        whole_within(v.z, 1024),
        whole_within(v.w, 1024),
    ensures
        ({
            let u = m.spec_mul_vec(v);
            dot4(a1, a2, a3, a4, u.x, u.y, u.z, u.w) == dot4(
                dot4(a1, a2, a3, a4, m.e11, m.e21, m.e31, m.e41),
                dot4(a1, a2, a3, a4, m.e12, m.e22, m.e32, m.e42),
                dot4(a1, a2, a3, a4, m.e13, m.e23, m.e33, m.e43),
                dot4(a1, a2, a3, a4, m.e14, m.e24, m.e34, m.e44),
                v.x,
                v.y,
                v.z,
                v.w,
            )
        }),
{
    let u = m.spec_mul_vec(v);
    lemma_whole(a1, 1024);
    lemma_whole(a2, 1024);
    lemma_whole(a3, 1024);
    lemma_whole(a4, 1024);
    lemma_whole(m.e11, 1024);
    lemma_whole(m.e12, 1024);
    lemma_whole(m.e13, 1024);
    lemma_whole(m.e14, 1024);
    lemma_whole(m.e21, 1024);
    lemma_whole(m.e22, 1024);
    lemma_whole(m.e23, 1024);
    lemma_whole(m.e24, 1024);
    lemma_whole(m.e31, 1024);
    lemma_whole(m.e32, 1024);
    lemma_whole(m.e33, 1024);
    lemma_whole(m.e34, 1024);
    lemma_whole(m.e41, 1024);
    lemma_whole(m.e42, 1024);
    lemma_whole(m.e43, 1024);
    lemma_whole(m.e44, 1024);
    lemma_whole(v.x, 1024);
    lemma_whole(v.y, 1024);
    lemma_whole(v.z, 1024);
    lemma_whole(v.w, 1024);
    let x1 = whole_value(a1);
    let x2 = whole_value(a2);
    let x3 = whole_value(a3);
    let x4 = whole_value(a4);
    let b11 = whole_value(m.e11);
    let b12 = whole_value(m.e12);
    let b13 = whole_value(m.e13);
    let b14 = whole_value(m.e14);
    let b21 = whole_value(m.e21);
    let b22 = whole_value(m.e22);
    let b23 = whole_value(m.e23);
    let b24 = whole_value(m.e24);
    let b31 = whole_value(m.e31);
    let b32 = whole_value(m.e32);
    let b33 = whole_value(m.e33);
    let b34 = whole_value(m.e34);
    let b41 = whole_value(m.e41);
    let b42 = whole_value(m.e42);
    let b43 = whole_value(m.e43);
    let b44 = whole_value(m.e44);
    let y1 = whole_value(v.x);
    let y2 = whole_value(v.y);
    let y3 = whole_value(v.z);
    let y4 = whole_value(v.w);
    lemma_product_bound(b11, y1, 1024, 1024);
    lemma_product_bound(b12, y2, 1024, 1024);
    lemma_product_bound(b13, y3, 1024, 1024);
    lemma_product_bound(b14, y4, 1024, 1024);
    lemma_product_bound(x1, b11, 1024, 1024);
    lemma_product_bound(x1, b12, 1024, 1024);
    lemma_product_bound(x1, b13, 1024, 1024);
    lemma_product_bound(x1, b14, 1024, 1024);
    lemma_product_bound(b21, y1, 1024, 1024);
    lemma_product_bound(b22, y2, 1024, 1024);
    lemma_product_bound(b23, y3, 1024, 1024);
    lemma_product_bound(b24, y4, 1024, 1024);
    lemma_product_bound(x2, b21, 1024, 1024);
    lemma_product_bound(x2, b22, 1024, 1024);
    lemma_product_bound(x2, b23, 1024, 1024);
    lemma_product_bound(x2, b24, 1024, 1024);
    lemma_product_bound(b31, y1, 1024, 1024);
    lemma_product_bound(b32, y2, 1024, 1024);
    lemma_product_bound(b33, y3, 1024, 1024);
    lemma_product_bound(b34, y4, 1024, 1024);
    lemma_product_bound(x3, b31, 1024, 1024);
    lemma_product_bound(x3, b32, 1024, 1024);
    lemma_product_bound(x3, b33, 1024, 1024);
    lemma_product_bound(x3, b34, 1024, 1024);
    lemma_product_bound(b41, y1, 1024, 1024);
    lemma_product_bound(b42, y2, 1024, 1024);
    lemma_product_bound(b43, y3, 1024, 1024);
    lemma_product_bound(b44, y4, 1024, 1024);
    lemma_product_bound(x4, b41, 1024, 1024);
    lemma_product_bound(x4, b42, 1024, 1024);
    lemma_product_bound(x4, b43, 1024, 1024);
    lemma_product_bound(x4, b44, 1024, 1024);
    let u1 = b11 * y1 + b12 * y2 + b13 * y3 + b14 * y4;
    lemma_dot4_whole(m.e11, m.e12, m.e13, m.e14, v.x, v.y, v.z, v.w, b11, b12, b13, b14, y1, y2, y3, y4);
    lemma_product_bound(x1, u1, 1024, 0x40_0000);
    let u2 = b21 * y1 + b22 * y2 + b23 * y3 + b24 * y4;
    lemma_dot4_whole(m.e21, m.e22, m.e23, m.e24, v.x, v.y, v.z, v.w, b21, b22, b23, b24, y1, y2, y3, y4);
    lemma_product_bound(x2, u2, 1024, 0x40_0000);
    let u3 = b31 * y1 + b32 * y2 + b33 * y3 + b34 * y4;
    lemma_dot4_whole(m.e31, m.e32, m.e33, m.e34, v.x, v.y, v.z, v.w, b31, b32, b33, b34, y1, y2, y3, y4);
    lemma_product_bound(x3, u3, 1024, 0x40_0000);
    let u4 = b41 * y1 + b42 * y2 + b43 * y3 + b44 * y4;
    lemma_dot4_whole(m.e41, m.e42, m.e43, m.e44, v.x, v.y, v.z, v.w, b41, b42, b43, b44, y1, y2, y3, y4);
    lemma_product_bound(x4, u4, 1024, 0x40_0000);
    let c1 = x1 * b11 + x2 * b21 + x3 * b31 + x4 * b41;
    lemma_dot4_whole(a1, a2, a3, a4, m.e11, m.e21, m.e31, m.e41, x1, x2, x3, x4, b11, b21, b31, b41);
    lemma_product_bound(c1, y1, 0x40_0000, 1024);
    let c2 = x1 * b12 + x2 * b22 + x3 * b32 + x4 * b42;
    lemma_dot4_whole(a1, a2, a3, a4, m.e12, m.e22, m.e32, m.e42, x1, x2, x3, x4, b12, b22, b32, b42);
    lemma_product_bound(c2, y2, 0x40_0000, 1024);
    let c3 = x1 * b13 + x2 * b23 + x3 * b33 + x4 * b43;
    lemma_dot4_whole(a1, a2, a3, a4, m.e13, m.e23, m.e33, m.e43, x1, x2, x3, x4, b13, b23, b33, b43);
    lemma_product_bound(c3, y3, 0x40_0000, 1024);
    let c4 = x1 * b14 + x2 * b24 + x3 * b34 + x4 * b44;
    lemma_dot4_whole(a1, a2, a3, a4, m.e14, m.e24, m.e34, m.e44, x1, x2, x3, x4, b14, b24, b34, b44);
    lemma_product_bound(c4, y4, 0x40_0000, 1024);
    lemma_dot4_whole(a1, a2, a3, a4, u.x, u.y, u.z, u.w, x1, x2, x3, x4, u1, u2, u3, u4);
    lemma_dot4_whole(
        dot4(a1, a2, a3, a4, m.e11, m.e21, m.e31, m.e41),
        dot4(a1, a2, a3, a4, m.e12, m.e22, m.e32, m.e42),
        dot4(a1, a2, a3, a4, m.e13, m.e23, m.e33, m.e43),
        dot4(a1, a2, a3, a4, m.e14, m.e24, m.e34, m.e44),
        v.x,
        v.y,
        v.z,
        v.w,
        c1,
        c2,
        c3,
        c4,
        y1,
        y2,
        y3,
        y4,
    );
    lemma_distribute_left(x1, b11, b12, b13, b14, y1, y2, y3, y4);
    lemma_distribute_left(x2, b21, b22, b23, b24, y1, y2, y3, y4);
    lemma_distribute_left(x3, b31, b32, b33, b34, y1, y2, y3, y4);
    lemma_distribute_left(x4, b41, b42, b43, b44, y1, y2, y3, y4);
    lemma_distribute_right(x1, x2, x3, x4, b11, b21, b31, b41, y1);
    lemma_distribute_right(x1, x2, x3, x4, b12, b22, b32, b42, y2);
    lemma_distribute_right(x1, x2, x3, x4, b13, b23, b33, b43, y3);
    lemma_distribute_right(x1, x2, x3, x4, b14, b24, b34, b44, y4);
}

/// Transforming a vector by two matrices in turn is transforming it by their
/// product, when every entry of the matrices and the vector is a whole number
/// between -1024 and 1024 (there fixed-point products are exact).
pub proof fn lemma_transform_composition(m1: Matrix4, m2: Matrix4, v: Vector4)
    requires
        m1.entries_whole_within(1024),
        m2.entries_whole_within(1024),
        whole_within(v.x, 1024),
        whole_within(v.y, 1024),
        whole_within(v.z, 1024),
        whole_within(v.w, 1024),
    ensures
        m1.spec_mul_vec(m2.spec_mul_vec(v)) == m1.spec_mul(m2).spec_mul_vec(v),
{
    lemma_row_composition(m1.e11, m1.e12, m1.e13, m1.e14, m2, v);
    lemma_row_composition(m1.e21, m1.e22, m1.e23, m1.e24, m2, v);
    lemma_row_composition(m1.e31, m1.e32, m1.e33, m1.e34, m2, v);
    lemma_row_composition(m1.e41, m1.e42, m1.e43, m1.e44, m2, v);
}

} // verus!
