use rrasterizer::bound_rect::BoundRect;
use rrasterizer::color::{vec4_to_color, Color};
use rrasterizer::fixed::{Fixed, ONE_RAW};
use rrasterizer::mat4::Matrix4;
use rrasterizer::vec2::Vector2;
use rrasterizer::vec3::Vector3;
use rrasterizer::vec4::Vector4;

fn fx(v: f64) -> Fixed {
    Fixed::from_raw((v * ONE_RAW as f64) as i64)
}

fn v2(x: f64, y: f64) -> Vector2 {
    Vector2::new(fx(x), fx(y))
}

fn v3(x: f64, y: f64, z: f64) -> Vector3 {
    Vector3::new(fx(x), fx(y), fx(z))
}

fn v4(x: f64, y: f64, z: f64, w: f64) -> Vector4 {
    Vector4::new(fx(x), fx(y), fx(z), fx(w))
}

#[test]
fn fixed_arithmetic() {
    assert_eq!(fx(1.5).add(fx(2.25)), fx(3.75));
    assert_eq!(fx(1.5).sub(fx(2.25)), fx(-0.75));
    assert_eq!(fx(1.5).mul(fx(-2.0)), fx(-3.0));
    assert_eq!(fx(3.0).div(fx(4.0)), fx(0.75));
    assert_eq!(fx(-3.0).div(fx(-4.0)), fx(0.75));
    assert_eq!(fx(2.5).neg(), fx(-2.5));
    assert_eq!(Fixed::from_int(7), fx(7.0));
    assert_eq!(fx(2.5).floor(), 2);
    assert_eq!(fx(2.5).ceil(), 3);
    assert_eq!(fx(-2.5).floor(), -3);
    assert_eq!(fx(-2.5).ceil(), -2);
    assert_eq!(fx(3.0).ceil(), 3);
}

#[test]
fn fixed_rounds_down_and_saturates() {
    // One third rounds down to the nearest representable value.
    assert_eq!(fx(1.0).div(fx(3.0)).raw, 21845);
    assert_eq!(fx(-1.0).div(fx(3.0)).raw, -21846);
    assert_eq!(Fixed::from_raw(i64::MAX).add(fx(1.0)).raw, i64::MAX);
    assert_eq!(Fixed::from_raw(i64::MIN).raw, -i64::MAX);
    assert_eq!(Fixed::from_raw(-i64::MAX).sub(fx(1.0)).raw, -i64::MAX);
    assert_eq!(Fixed::from_raw(i64::MIN).neg().raw, i64::MAX);
    assert_eq!(fx(1.0).div(fx(0.0)).raw, i64::MAX);
    assert_eq!(fx(-1.0).div(fx(0.0)).raw, -i64::MAX);
    assert_eq!(fx(0.0).div(fx(0.0)).raw, 0);
}

#[test]
fn fixed_square_root() {
    assert_eq!(fx(16.0).sqrt(), fx(4.0));
    assert_eq!(fx(2.25).sqrt(), fx(1.5));
    assert_eq!(fx(-4.0).sqrt(), fx(0.0));
    assert_eq!(fx(2.0).sqrt().raw, 92681);
}

#[test]
fn vector2_operations() {
    let a = v2(3.0, 4.0);
    let b = v2(1.0, -2.0);
    assert_eq!(a.magnitude_squared(), fx(25.0));
    assert_eq!(a.magnitude(), fx(5.0));
    assert_eq!(a.normalize(), Vector2::new(Fixed::from_raw(39321), Fixed::from_raw(52428)));
    assert_eq!(a.cross(b), fx(-10.0));
    assert_eq!(a.add(b), v2(4.0, 2.0));
    assert_eq!(a.sub(b), v2(2.0, 6.0));
    assert_eq!(a.mul(fx(2.0)), v2(6.0, 8.0));
    assert_eq!(a.mul_elem(b), v2(3.0, -8.0));
    assert_eq!(a.div(fx(2.0)), v2(1.5, 2.0));
    assert_eq!(a.div_elem(b), v2(3.0, -2.0));
    assert_eq!(a.neg(), v2(-3.0, -4.0));
    let mut c = a;
    c.add_assign(b);
    assert_eq!(c, v2(4.0, 2.0));
    c.sub_assign(b);
    assert_eq!(c, a);
    c.mul_assign(b);
    assert_eq!(c, v2(3.0, -8.0));
    c.div_assign(b);
    assert_eq!(c, a);
}

#[test]
fn cross_products_swap_sign_when_saturated() {
    let a = v2(-70368744177664.0, 0.0);
    let b = v2(0.0, 2.0);
    assert_eq!(a.cross(b).raw, -i64::MAX);
    assert_eq!(b.cross(a).raw, i64::MAX);
    assert_eq!(a.cross(b), b.cross(a).neg());
    assert_eq!(a.cross(a), fx(0.0));
    let p = v3(-70368744177664.0, 1.0, 0.0);
    let q = v3(0.0, 2.0, 3.0);
    assert_eq!(p.cross(q), q.cross(p).neg());
    assert_eq!(p.cross(p), v3(0.0, 0.0, 0.0));
}

#[test]
fn vector3_operations() {
    let x = v3(1.0, 0.0, 0.0);
    let y = v3(0.0, 1.0, 0.0);
    assert_eq!(x.cross(y), v3(0.0, 0.0, 1.0));
    assert_eq!(y.cross(x), v3(0.0, 0.0, -1.0));
    let a = v3(1.0, 2.0, 3.0);
    let b = v3(4.0, -5.0, 6.0);
    assert_eq!(a.dot(b), fx(12.0));
    assert_eq!(a.cross(b), v3(27.0, 6.0, -13.0));
    assert_eq!(a.vec2(), v2(1.0, 2.0));
    assert_eq!(a.magnitude_squared(), fx(14.0));
    assert_eq!(v3(2.0, 3.0, 6.0).magnitude(), fx(7.0));
    assert_eq!(v3(0.0, 0.0, 2.0).normalize(), v3(0.0, 0.0, 1.0));
    assert_eq!(a.add(b), v3(5.0, -3.0, 9.0));
    assert_eq!(a.sub(b), v3(-3.0, 7.0, -3.0));
    assert_eq!(a.neg(), v3(-1.0, -2.0, -3.0));
    let mut c = a;
    c.mul_assign(b);
    assert_eq!(c, v3(4.0, -10.0, 18.0));
}

#[test]
fn vector4_operations() {
    let a = v4(1.0, 2.0, 3.0, 4.0);
    assert_eq!(a.vec3(), v3(1.0, 2.0, 3.0));
    assert_eq!(a.magnitude_squared(), fx(30.0));
    assert_eq!(v4(1.0, 1.0, 1.0, 1.0).magnitude(), fx(2.0));
    assert_eq!(v4(0.0, 4.0, 0.0, 0.0).normalize(), v4(0.0, 1.0, 0.0, 0.0));
    assert_eq!(a.mul(fx(0.5)), v4(0.5, 1.0, 1.5, 2.0));
    assert_eq!(a.div(fx(2.0)), v4(0.5, 1.0, 1.5, 2.0));
    let mut c = a;
    c.add_assign(a);
    assert_eq!(c, v4(2.0, 4.0, 6.0, 8.0));
    c.div_assign(a);
    assert_eq!(c, v4(2.0, 2.0, 2.0, 2.0));
}

#[test]
fn identity_transform_keeps_points() {
    let m = Matrix4::identity();
    for p in [v3(0.0, 0.0, 0.0), v3(1.5, -2.25, 8.0), v3(-100.0, 0.125, -3.5)] {
        assert_eq!(m.transform(p), p);
    }
}

#[test]
fn translation_transform_adds_offset() {
    let t = v3(1.0, -2.0, 0.5);
    let p = v3(3.25, 4.0, -1.0);
    assert_eq!(Matrix4::translation(t).transform(p), p.add(t));
    assert_eq!(Matrix4::translation(t).transform(p), v3(4.25, 2.0, -0.5));
}

#[test]
fn composed_transforms_agree() {
    let m1 = Matrix4::translation(v3(1.0, 2.0, 3.0));
    let m2 = Matrix4::scaling(v3(2.0, -1.0, 0.5));
    let v = v4(1.0, 2.0, 4.0, 1.0);
    assert_eq!(m1.mul_vec(m2.mul_vec(v)), m1.mul(m2).mul_vec(v));
    assert_eq!(m1.mul(m2).mul_vec(v), v4(3.0, 0.0, 5.0, 1.0));
}

#[test]
fn scaling_around_a_point() {
    let m = Matrix4::scaling_around(v3(2.0, 2.0, 2.0), v3(1.0, 1.0, 1.0));
    assert_eq!(m.transform(v3(2.0, 3.0, 1.0)), v3(3.0, 5.0, 1.0));
}

#[test]
fn rotation_quarter_turn_about_z() {
    let sin = v3(0.0, 0.0, 1.0);
    let cos = v3(1.0, 1.0, 0.0);
    let m = Matrix4::rotation(sin, cos);
    assert_eq!(m.transform(v3(1.0, 0.0, 0.0)), v3(0.0, 1.0, 0.0));
    let around = Matrix4::rotation_around(sin, cos, v3(1.0, 1.0, 0.0));
    assert_eq!(around.transform(v3(2.0, 1.0, 0.0)), v3(1.0, 2.0, 0.0));
}

#[test]
fn rotation_applies_x_then_y() {
    // A quarter turn about x takes the y axis to z; one about y then takes z to x.
    let m = Matrix4::rotation(v3(1.0, 1.0, 0.0), v3(0.0, 0.0, 1.0));
    assert_eq!(m.transform(v3(0.0, 1.0, 0.0)), v3(1.0, 0.0, 0.0));
}

#[test]
fn transpose_and_new() {
    let e: Vec<Fixed> = (0..16).map(|i| Fixed::from_int(i)).collect();
    let m = Matrix4::new(
        e[0], e[1], e[2], e[3], e[4], e[5], e[6], e[7], e[8], e[9], e[10], e[11], e[12], e[13], e[14], e[15],
    );
    let t = m.transpose();
    assert_eq!(t.e12, e[4]);
    assert_eq!(t.e21, e[1]);
    assert_eq!(t.e34, e[14]);
    assert_eq!(t.transpose(), m);
    let mut i = Matrix4::identity();
    i.mul_assign(m);
    assert_eq!(i, m);
}

#[test]
fn perspective_entries() {
    let m = Matrix4::perspective(fx(2.0), fx(4.0), fx(-1.0), fx(1.0));
    assert_eq!(m.e11, fx(1.0));
    assert_eq!(m.e22, fx(0.5));
    assert_eq!(m.e33, fx(0.0));
    assert_eq!(m.e34, fx(-1.0));
    assert_eq!(m.e43, fx(-1.0));
    assert_eq!(m.e44, fx(0.0));
    assert_eq!(m.transform(v3(1.0, 1.0, -2.0)), v3(0.5, 0.25, -0.5));
}

#[test]
fn from_points_empty_and_single() {
    assert_eq!(BoundRect::from_points(&[]), None);
    let p = v2(1.5, -2.0);
    let r = BoundRect::from_points(&[p]).unwrap();
    assert_eq!(r, BoundRect { min: p, max: p });
    assert!(r.is_empty());
}

#[test]
fn from_points_encloses() {
    let r = BoundRect::from_points(&[v2(1.0, 5.0), v2(-2.0, 3.0), v2(4.0, -1.0)]).unwrap();
    assert_eq!(r, BoundRect::from_bounds(fx(-2.0), fx(-1.0), fx(4.0), fx(5.0)));
    assert!(!r.is_empty());
}

#[test]
fn intersection_laws() {
    let r = BoundRect::from_bounds(fx(0.0), fx(0.0), fx(4.0), fx(3.0));
    let s = BoundRect::from_bounds(fx(2.0), fx(-1.0), fx(6.0), fx(2.0));
    assert_eq!(r.intersection(s), s.intersection(r));
    assert_eq!(r.intersection(s), BoundRect::from_bounds(fx(2.0), fx(0.0), fx(4.0), fx(2.0)));
    assert_eq!(r.intersection(r), r);
    let far = BoundRect::from_bounds(fx(5.0), fx(5.0), fx(6.0), fx(6.0));
    assert!(r.intersection(far).is_empty());
    assert!(BoundRect::from_bounds(fx(0.0), fx(0.0), fx(0.0), fx(1.0)).is_empty());
}

#[test]
fn vec4_to_color_clamps_and_truncates() {
    assert_eq!(vec4_to_color(v4(1.5, -0.5, 0.5, 1.0)), Color(255, 0, 127, 255));
    assert_eq!(vec4_to_color(v4(0.0, 0.25, 0.75, 0.999)), Color(0, 63, 191, 254));
}
