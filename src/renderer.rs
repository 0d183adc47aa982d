//! Projection, culling, clipping and filling of triangles into a framebuffer.

use vstd::prelude::*;
use vstd::arithmetic::div_mod::lemma_fundamental_div_mod;
use vstd::arithmetic::div_mod::lemma_fundamental_div_mod_converse;
use crate::fixed::{Fixed, ONE_RAW, HALF_RAW};
use crate::vec2::Vector2;
use crate::vec3::Vector3;
use crate::vec4::Vector4;
use crate::mat4::{Matrix4, fx};
use crate::bound_rect::{BoundRect, enclosing};
use crate::color::{Color, vec4_to_color, spec_vec4_to_color};

verus! {

/// A corner of a triangle: its position in object space and its color, with
/// channels running from 0 to 1.
#[derive(Clone, Copy, Debug)]
pub struct Vertex {
    pub position: Vector3,
    pub color: Vector4,
}

#[derive(Clone, Copy, Debug)]
pub struct Triangle {
    pub a: Vertex,
    pub b: Vertex,
    pub c: Vertex,
}

/// The rectangle `[0, width] x [0, height]`.
pub open spec fn screen_rect(width: u32, height: u32) -> BoundRect {
    BoundRect::spec_from_bounds(
        fx(0),
        fx(0),
        Fixed::spec_from_int(width as int),
        Fixed::spec_from_int(height as int),
    )
}

/// Screen position of `p` under `m`: `x` and `y` in pixels, `z` the depth after
/// the perspective divide.
pub open spec fn project(m: Matrix4, width: u32, height: u32, p: Vector3) -> Vector3 {
    let v = m.spec_transform(p);
    let one = fx(ONE_RAW);
    let two = Fixed::spec_from_int(2);
    Vector3 {
        x: v.x.spec_add(one).spec_div(two).spec_mul(Fixed::spec_from_int(width as int)),
        y: v.y.spec_add(one).spec_div(two).spec_mul(Fixed::spec_from_int(height as int)),
        z: v.z,
    }
}

/// Whether the projected corners wind counter-clockwise: `(b - a) x (c - a) > 0`.
pub open spec fn front_facing(pa: Vector3, pb: Vector3, pc: Vector3) -> bool {
    let a = pa.spec_vec2();
    let b = pb.spec_vec2();
    let c = pc.spec_vec2();
    b.spec_sub(a).spec_cross(c.spec_sub(a)).raw > 0
}

/// The enclosing box of the projected corners, clipped to the screen.
pub open spec fn clipped_bounds(pa: Vector3, pb: Vector3, pc: Vector3, width: u32, height: u32) -> BoundRect {
    enclosing(seq![pa.spec_vec2(), pb.spec_vec2(), pc.spec_vec2()]).spec_intersection(
        screen_rect(width, height),
    )
}

/// Whether pixel `(x, y)` is scanned for the projected triangle: it faces the
/// viewer, its clipped box is not empty, and the pixel lies in that box with
/// the lower bounds rounded down and the upper bounds rounded up.
pub open spec fn in_scan(pa: Vector3, pb: Vector3, pc: Vector3, width: u32, height: u32, x: int, y: int) -> bool {
    let bb = clipped_bounds(pa, pb, pc, width, height);
    front_facing(pa, pb, pc) && !bb.spec_is_empty() && bb.min.x.spec_floor() <= x < bb.max.x.spec_ceil()
        && bb.min.y.spec_floor() <= y < bb.max.y.spec_ceil()
}

/// The center of pixel `(x, y)`.
pub open spec fn sample_point(x: int, y: int) -> Vector2 {
    Vector2 {
        x: Fixed::spec_from_int(x).spec_add(fx(HALF_RAW)),
        y: Fixed::spec_from_int(y).spec_add(fx(HALF_RAW)),
    }
}

/// Half the signed area of the sub-triangle opposite each corner, taken at the
/// center of pixel `(x, y)` and weighted by that corner's depth.
pub open spec fn raw_weights(pa: Vector3, pb: Vector3, pc: Vector3, x: int, y: int) -> (Fixed, Fixed, Fixed) {
    let a = pa.spec_vec2();
    let b = pb.spec_vec2();
    let c = pc.spec_vec2();
    let p = sample_point(x, y);
    let two = Fixed::spec_from_int(2);
    (
        c.spec_sub(b).spec_cross(p.spec_sub(b)).spec_div(two).spec_mul(pa.z),
        a.spec_sub(c).spec_cross(p.spec_sub(c)).spec_div(two).spec_mul(pb.z),
        b.spec_sub(a).spec_cross(p.spec_sub(a)).spec_div(two).spec_mul(pc.z),
    )
}

/// The color of pixel `(x, y)` inside the projected triangle: the weights are
/// normalized by their sum, the pixel is inside when none is negative, and the
/// corner colors are blended by them. A zero sum leaves the pixel out.
#[verifier::opaque]
pub open spec fn pixel_shade(tri: Triangle, pa: Vector3, pb: Vector3, pc: Vector3, x: int, y: int) -> Option<Color> {
    let (ap, bp, cp) = raw_weights(pa, pb, pc, x, y);
    let sum = ap.spec_add(bp).spec_add(cp);
    if sum.raw == 0 {
        None
    } else {
        let na = ap.spec_div(sum);
        let nb = bp.spec_div(sum);
        let nc = cp.spec_div(sum);
        if na.raw >= 0 && nb.raw >= 0 && nc.raw >= 0 {
            Some(
                spec_vec4_to_color(
                    tri.a.color.spec_scale(na).spec_add(tri.b.color.spec_scale(nb)).spec_add(
                        tri.c.color.spec_scale(nc),
                    ),
                ),
            )
        } else {
            None
        }
    }
}

/// What drawing `tri` under `m` writes at pixel `(x, y)`, if anything.
#[verifier::opaque]
pub open spec fn shade(m: Matrix4, width: u32, height: u32, tri: Triangle, x: int, y: int) -> Option<Color> {
    let pa = project(m, width, height, tri.a.position);
    let pb = project(m, width, height, tri.b.position);
    let pc = project(m, width, height, tri.c.position);
    if in_scan(pa, pb, pc, width, height, x, y) {
        pixel_shade(tri, pa, pb, pc, x, y)
    } else {
        None
    }
}

/// The row-major framebuffer `fb` after drawing `tri` under `m`.
pub open spec fn painted(fb: Seq<Color>, width: u32, height: u32, m: Matrix4, tri: Triangle) -> Seq<Color> {
    Seq::new(
        fb.len(),
        |i: int|
            match shade(m, width, height, tri, i % (width as int), i / (width as int)) {
                Some(c) => c,
                None => fb[i],
            },
    )
}

/// The framebuffer `fb` after drawing the triangles in order, later ones over
/// earlier ones.
pub open spec fn painted_all(fb: Seq<Color>, width: u32, height: u32, m: Matrix4, tris: Seq<Triangle>) -> Seq<Color>
    decreases tris.len(),
{
    if tris.len() == 0 {
        fb
    } else {
        painted(painted_all(fb, width, height, m, tris.drop_last()), width, height, m, tris.last())
    }
}

/// Whether pixel `(px, py)` comes before pixel `(x, y)` in row-major order.
spec fn before(px: int, py: int, x: int, y: int) -> bool {
    py < y || (py == y && px < x)
}

/// Drawing of the pixels that come before `(x, y)` in row-major order.
spec fn painted_before(fb: Seq<Color>, width: u32, height: u32, m: Matrix4, tri: Triangle, y: int, x: int) -> Seq<Color> {
    Seq::new(
        fb.len(),
        |i: int|
            if before(i % (width as int), i / (width as int), x, y) {
                match shade(m, width, height, tri, i % (width as int), i / (width as int)) {
                    Some(c) => c,
                    None => fb[i],
                }
            } else {
                fb[i]
            },
    )
}

proof fn lemma_row_col(w: int, x: int, y: int)
    requires
        0 <= x < w,
        0 <= y,
    ensures
        (y * w + x) / w == y,
        (y * w + x) % w == x,
{
    lemma_fundamental_div_mod_converse(y * w + x, w, y, x);
}

proof fn lemma_index_bound(w: int, h: int, x: int, y: int)
    requires
        0 <= x < w,
        0 <= y < h,
    ensures
        y * w + x < w * h,
{
    assert(y * w + x < w * h) by (nonlinear_arith)
        requires
            0 <= x < w,
            0 <= y < h,
    ;
}

proof fn lemma_split(w: int, i: int)
    requires
        0 < w,
        0 <= i,
    ensures
        i == (i / w) * w + i % w,
        0 <= i % w < w,
        0 <= i / w,
{
    lemma_fundamental_div_mod(i, w);
    vstd::arithmetic::div_mod::lemma_mod_pos_bound(i, w);
    vstd::arithmetic::div_mod::lemma_div_pos_is_pos(i, w);
    vstd::arithmetic::mul::lemma_mul_is_commutative(w, i / w);
}

/// Moving the drawn prefix changes nothing where the two prefixes differ only
/// on pixels that the triangle leaves alone.
proof fn lemma_before_moved(
    fb: Seq<Color>,
    width: u32,
    height: u32,
    m: Matrix4,
    tri: Triangle,
    y1: int,
    x1: int,
    y2: int,
    x2: int,
)
    requires
        width > 0,
        forall|px: int, py: int|
            0 <= px < width && 0 <= py && before(px, py, x1, y1) != before(px, py, x2, y2) ==> shade(
                m,
                width,
                height,
                tri,
                px,
                py,
            ) is None,
    ensures
        painted_before(fb, width, height, m, tri, y1, x1) == painted_before(fb, width, height, m, tri, y2, x2),
{
    assert forall|i: int| 0 <= i < fb.len() implies painted_before(fb, width, height, m, tri, y1, x1)[i]
        == painted_before(fb, width, height, m, tri, y2, x2)[i] by {
        lemma_split(width as int, i);
    }
    assert(painted_before(fb, width, height, m, tri, y1, x1) =~= painted_before(fb, width, height, m, tri, y2, x2));
}

/// Once every pixel that the triangle writes has been passed, the prefix is the
/// whole drawing.
proof fn lemma_before_done(fb: Seq<Color>, width: u32, height: u32, m: Matrix4, tri: Triangle, y: int)
    requires
        width > 0,
        forall|px: int, py: int| 0 <= px < width && y <= py ==> shade(m, width, height, tri, px, py) is None,
    ensures
        painted_before(fb, width, height, m, tri, y, 0) == painted(fb, width, height, m, tri),
{
    assert forall|i: int| 0 <= i < fb.len() implies painted_before(fb, width, height, m, tri, y, 0)[i]
        == painted(fb, width, height, m, tri)[i] by {
        lemma_split(width as int, i);
    }
    assert(painted_before(fb, width, height, m, tri, y, 0) =~= painted(fb, width, height, m, tri));
}

/// Passing pixel `(x, y)` writes its shade there, if it has one.
proof fn lemma_before_step(fb: Seq<Color>, width: u32, height: u32, m: Matrix4, tri: Triangle, y: int, x: int)
    requires
        0 <= x < width,
        0 <= y < height,
        fb.len() == width * height,
    ensures
        painted_before(fb, width, height, m, tri, y, x + 1) == match shade(m, width, height, tri, x, y) {
            Some(c) => painted_before(fb, width, height, m, tri, y, x).update(y * width + x, c),
            None => painted_before(fb, width, height, m, tri, y, x),
        },
{
    let w = width as int;
    lemma_row_col(w, x, y);
    lemma_index_bound(w, height as int, x, y);
    let next = painted_before(fb, width, height, m, tri, y, x + 1);
    let cur = painted_before(fb, width, height, m, tri, y, x);
    let expected = match shade(m, width, height, tri, x, y) {
        Some(c) => cur.update(y * w + x, c),
        None => cur,
    };
    assert forall|i: int| 0 <= i < fb.len() implies next[i] == expected[i] by {
        lemma_split(w, i);
        if i != y * w + x {
            assert(i / w != y || i % w != x);
        }
    }
    assert(next =~= expected);
}

pub struct Renderer {
    dimensions: (u32, u32),
    framebuffer: Vec<Color>,
    perspective: Matrix4,
}

/// Screen position of `p` under `m`.
fn project_point(m: &Matrix4, width: u32, height: u32, p: Vector3) -> (r: Vector3)
    ensures
        r == project(*m, width, height, p),
{
    let v = m.transform(p);
    let one = Fixed::one();
    let two = Fixed::from_int(2);
    Vector3::new(
        v.x.add(one).div(two).mul(Fixed::from_int(width as i64)),
        v.y.add(one).div(two).mul(Fixed::from_int(height as i64)),
        v.z,
    )
}

/// The color of pixel `(x, y)` inside the projected triangle, if it is inside.
fn shade_pixel(tri: &Triangle, pa: Vector3, pb: Vector3, pc: Vector3, x: u32, y: u32) -> (r: Option<Color>)
    ensures
        r == pixel_shade(*tri, pa, pb, pc, x as int, y as int),
{
    reveal(pixel_shade);
    let a = pa.vec2();
    let b = pb.vec2();
    let c = pc.vec2();
    let s1 = b.sub(a);
    let s2 = c.sub(b);
    let s3 = a.sub(c);
    let half = Fixed::half();
    let p = Vector2::new(Fixed::from_int(x as i64).add(half), Fixed::from_int(y as i64).add(half));
    let two = Fixed::from_int(2);
    let apart = s2.cross(p.sub(b)).div(two).mul(pa.z);
    let bpart = s3.cross(p.sub(c)).div(two).mul(pb.z);
    let cpart = s1.cross(p.sub(a)).div(two).mul(pc.z);
    let sum = apart.add(bpart).add(cpart);
    if sum.raw == 0 {
        return None;
    }
    let na = apart.div(sum);
    let nb = bpart.div(sum);
    let nc = cpart.div(sum);
    if na.raw >= 0 && nb.raw >= 0 && nc.raw >= 0 {
        let color = tri.a.color.mul(na).add(tri.b.color.mul(nb)).add(tri.c.color.mul(nc));
        Some(vec4_to_color(color))
    } else {
        None
    }
}

impl Renderer {
    /// Width of the framebuffer in pixels.
    pub closed spec fn width(&self) -> u32 {
        self.dimensions.0
    }

    /// Height of the framebuffer in pixels.
    pub closed spec fn height(&self) -> u32 {
        self.dimensions.1
    }

    /// The framebuffer, row by row.
    pub closed spec fn pixels(&self) -> Seq<Color> {
        self.framebuffer@
    }

    /// The projection applied after each frame's transformation.
    pub closed spec fn projection(&self) -> Matrix4 {
        self.perspective
    }

    /// The color of pixel `(x, y)`.
    pub open spec fn pixel(&self, x: int, y: int) -> Color {
        self.pixels()[y * self.width() + x]
    }

    /// The framebuffer holds one color per pixel.
    pub open spec fn wf(&self) -> bool {
        self.pixels().len() == self.width() * self.height()
    }

    /// A `width` x `height` renderer, all opaque black, whose projection plane
    /// extends `half_extent` on each side of the axis at unit distance (the
    /// tangent of half the field of view).
    pub fn new(width: u32, height: u32, half_extent: Fixed) -> (r: Renderer)
        requires
            width * height <= usize::MAX,
        ensures
            r.wf(),
            r.width() == width,
            r.height() == height,
            r.pixels() == Seq::new((width * height) as nat, |i: int| Color(0, 0, 0, 255)),
            r.projection() == Matrix4::spec_perspective(
                half_extent.spec_mul(Fixed::spec_from_int(2)),
                half_extent.spec_mul(Fixed::spec_from_int(2)),
                Fixed::spec_from_int(-1),
                fx(ONE_RAW),
            ),
    {
        let plane = half_extent.mul(Fixed::from_int(2));
        let perspective = Matrix4::perspective(plane, plane, Fixed::from_int(-1), Fixed::one());
        let n: usize = width as usize * height as usize;
        let mut framebuffer: Vec<Color> = Vec::new();
        let mut i: usize = 0;
        while i < n
            invariant
                i <= n,
                framebuffer@ == Seq::new(i as nat, |k: int| Color(0, 0, 0, 255)),
            decreases n - i,
        {
            framebuffer.push(Color(0, 0, 0, 255));
            i = i + 1;
            proof {
                assert(framebuffer@ =~= Seq::new(i as nat, |k: int| Color(0, 0, 0, 255)));
            }
        }
        Renderer { dimensions: (width, height), framebuffer, perspective }
    }

    pub fn dimensions(&self) -> (r: (u32, u32))
        ensures
            r == (self.width(), self.height()),
    {
        self.dimensions
    }

    /// Sets every pixel to `color`.
    pub fn clear(&mut self, color: Color)
        requires
            old(self).wf(),
        ensures
            final(self).wf(),
            final(self).width() == old(self).width(),
            final(self).height() == old(self).height(),
            final(self).projection() == old(self).projection(),
            final(self).pixels() == Seq::new(old(self).pixels().len(), |i: int| color),
            forall|x: int, y: int|
                0 <= x < old(self).width() && 0 <= y < old(self).height() ==> #[trigger] final(self).pixel(x, y)
                    == color,
    {
        let n = self.framebuffer.len();
        let mut i: usize = 0;
        while i < n
            invariant
                i <= n,
                n == old(self).framebuffer@.len(),
                self.dimensions == old(self).dimensions,
                self.perspective == old(self).perspective,
                self.framebuffer@.len() == n,
                forall|k: int| 0 <= k < i ==> self.framebuffer@[k] == color,
            decreases n - i,
        {
            self.framebuffer.set(i, color);
            i = i + 1;
        }
        proof {
            assert(self.framebuffer@ =~= Seq::new(n as nat, |k: int| color));
            assert forall|x: int, y: int|
                0 <= x < self.width() && 0 <= y < self.height() implies #[trigger] self.pixel(x, y) == color by {
                lemma_index_bound(self.width() as int, self.height() as int, x, y);
            }
        }
    }

    /// Draws one triangle under `m`.
    fn draw_triangle(&mut self, m: &Matrix4, tri: &Triangle)
        requires
            old(self).wf(),
        ensures
            final(self).wf(),
            final(self).width() == old(self).width(),
            final(self).height() == old(self).height(),
            final(self).projection() == old(self).projection(),
            final(self).pixels() == painted(old(self).pixels(), old(self).width(), old(self).height(), *m, *tri),
    {
        let width = self.dimensions.0;
        let height = self.dimensions.1;
        let ghost fb0 = self.framebuffer@;
        let pa = project_point(m, width, height, tri.a.position);
        let pb = project_point(m, width, height, tri.b.position);
        let pc = project_point(m, width, height, tri.c.position);
        proof {
            reveal(shade);
        }
        let a = pa.vec2();
        let b = pb.vec2();
        let c = pc.vec2();
        if !(b.sub(a).cross(c.sub(a)).raw > 0) {
            proof {
                assert(painted(fb0, width, height, *m, *tri) =~= fb0);
            }
            return;
        }
        let screen_bounds = BoundRect::from_bounds(
            Fixed::zero(),
            Fixed::zero(),
            Fixed::from_int(width as i64),
            Fixed::from_int(height as i64),
        );
        let corners = vec![a, b, c];
        proof {
            assert(corners@ =~= seq![pa.spec_vec2(), pb.spec_vec2(), pc.spec_vec2()]);
        }
        let bb = BoundRect::from_points(corners.as_slice()).unwrap().intersection(screen_bounds);
        if bb.is_empty() {
            proof {
                assert(painted(fb0, width, height, *m, *tri) =~= fb0);
            }
            return;
        }
        let x0 = bb.min.x.floor() as u32;
        let y0 = bb.min.y.floor() as u32;
        let x1 = bb.max.x.ceil() as u32;
        let y1 = bb.max.y.ceil() as u32;
        assert(x1 <= width && y1 <= height && x0 <= x1);
        assert forall|px: int, py: int| #[trigger] shade(*m, width, height, *tri, px, py) == (if x0 <= px < x1 && y0
            <= py < y1 {
            pixel_shade(*tri, pa, pb, pc, px, py)
        } else {
            None
        }) by {}
        let mut y: u32 = y0;
        while y < y1
            invariant
                y0 <= y <= y1 <= height,
                x0 <= x1 <= width,
                0 < width,
                self.dimensions == (width, height),
                self.framebuffer@.len() == fb0.len(),
                fb0.len() == width * height,
                self.perspective == old(self).perspective,
                fb0 == old(self).framebuffer@,
                self.framebuffer@ == painted_before(fb0, width, height, *m, *tri, y as int, 0),
                forall|px: int, py: int| #[trigger] shade(*m, width, height, *tri, px, py) == (if x0 <= px < x1
                    && y0 <= py < y1 {
                    pixel_shade(*tri, pa, pb, pc, px, py)
                } else {
                    None
                }),
            decreases y1 - y,
        {
            proof {
                lemma_before_moved(fb0, width, height, *m, *tri, y as int, 0, y as int, x0 as int);
            }
            let mut x: u32 = x0;
            while x < x1
                invariant
                    y0 <= y < y1 <= height,
                    x0 <= x <= x1 <= width,
                    self.dimensions == (width, height),
                    self.framebuffer@.len() == fb0.len(),
                    fb0.len() == width * height,
                    self.perspective == old(self).perspective,
                    self.framebuffer@ == painted_before(fb0, width, height, *m, *tri, y as int, x as int),
                    forall|px: int, py: int| #[trigger] shade(*m, width, height, *tri, px, py) == (if x0 <= px
                        < x1 && y0 <= py < y1 {
                        pixel_shade(*tri, pa, pb, pc, px, py)
                    } else {
                        None
                    }),
                decreases x1 - x,
            {
                proof {
                    lemma_before_step(fb0, width, height, *m, *tri, y as int, x as int);
                }
                match shade_pixel(tri, pa, pb, pc, x, y) {
                    Some(col) => self.set_pixel(x, y, col),
                    None => {},
                }
                x = x + 1;
            }
            proof {
                lemma_before_moved(fb0, width, height, *m, *tri, y as int, x1 as int, y + 1, 0);
            }
            y = y + 1;
        }
        proof {
            lemma_before_done(fb0, width, height, *m, *tri, y1 as int);
        }
    }

    /// Draws the triangles in order under the projection composed with
    /// `transformation`; later triangles cover earlier ones.
    pub fn render(&mut self, transformation: Matrix4, triangles: &[Triangle])
        requires
            old(self).wf(),
        ensures
            final(self).wf(),
            final(self).width() == old(self).width(),
            final(self).height() == old(self).height(),
            final(self).projection() == old(self).projection(),
            final(self).pixels() == painted_all(
                old(self).pixels(),
                old(self).width(),
                old(self).height(),
                old(self).projection().spec_mul(transformation),
                triangles@,
            ),
    {
        let combined = self.perspective.mul(transformation);
        let mut i: usize = 0;
        while i < triangles.len()
            invariant
                i <= triangles@.len(),
                self.wf(),
                self.dimensions == old(self).dimensions,
                self.perspective == old(self).perspective,
                combined == old(self).perspective.spec_mul(transformation),
                self.framebuffer@ == painted_all(
                    old(self).framebuffer@,
                    self.dimensions.0,
                    self.dimensions.1,
                    combined,
                    triangles@.subrange(0, i as int),
                ),
            decreases triangles@.len() - i,
        {
            self.draw_triangle(&combined, &triangles[i]);
            proof {
                assert(triangles@.subrange(0, i as int + 1).drop_last() =~= triangles@.subrange(0, i as int));
            }
            i = i + 1;
        }
        proof {
            assert(triangles@.subrange(0, i as int) =~= triangles@);
        }
    }

    pub fn get_pixel(&self, x: u32, y: u32) -> (r: Color)
        requires
            self.wf(),
            x < self.width(),
            y < self.height(),
        ensures
            r == self.pixel(x as int, y as int),
    {
        let w = self.dimensions.0 as usize;
        proof {
            lemma_index_bound(w as int, self.dimensions.1 as int, x as int, y as int);
            vstd::std_specs::vec::axiom_spec_len(&self.framebuffer);
        }
        self.framebuffer[y as usize * w + x as usize]
    }

    pub fn set_pixel(&mut self, x: u32, y: u32, c: Color)
        requires
            old(self).wf(),
            x < old(self).width(),
            y < old(self).height(),
        ensures
            final(self).wf(),
            final(self).width() == old(self).width(),
            final(self).height() == old(self).height(),
            final(self).projection() == old(self).projection(),
            final(self).pixels() == old(self).pixels().update(y * old(self).width() + x, c),
            final(self).pixel(x as int, y as int) == c,
            forall|x2: int, y2: int|
                0 <= x2 < old(self).width() && 0 <= y2 < old(self).height() && (x2 != x || y2 != y)
                    ==> #[trigger] final(self).pixel(x2, y2) == old(self).pixel(x2, y2),
    {
        let w = self.dimensions.0 as usize;
        proof {
            lemma_index_bound(w as int, self.dimensions.1 as int, x as int, y as int);
            vstd::std_specs::vec::axiom_spec_len(&self.framebuffer);
        }
        self.framebuffer.set(y as usize * w + x as usize, c);
        proof {
            assert forall|x2: int, y2: int|
                0 <= x2 < self.width() && 0 <= y2 < self.height() && (x2 != x || y2 != y) implies #[trigger] self.pixel(
                x2,
                y2,
            ) == old(self).pixel(x2, y2) by {
                lemma_index_bound(w as int, self.height() as int, x2, y2);
                lemma_row_col(w as int, x as int, y as int);
                lemma_row_col(w as int, x2, y2);
            }
        }
    }
}

/// A triangle that does not face the viewer writes no pixel, wherever it lies.
pub proof fn lemma_back_facing_draws_nothing(fb: Seq<Color>, width: u32, height: u32, m: Matrix4, tri: Triangle)
    requires
        !front_facing(
            project(m, width, height, tri.a.position),
            project(m, width, height, tri.b.position),
            project(m, width, height, tri.c.position),
        ),
    ensures
        painted(fb, width, height, m, tri) == fb,
{
    reveal(shade);
    assert(painted(fb, width, height, m, tri) =~= fb);
}

/// Drawing triangles that all face away from the viewer leaves the framebuffer
/// as it was.
pub proof fn lemma_back_facing_all_draw_nothing(
    fb: Seq<Color>,
    width: u32,
    height: u32,
    m: Matrix4,
    tris: Seq<Triangle>,
)
    requires
        forall|k: int|
            0 <= k < tris.len() ==> !front_facing(
                project(m, width, height, #[trigger] tris[k].a.position),
                project(m, width, height, tris[k].b.position),
                project(m, width, height, tris[k].c.position),
            ),
    ensures
        painted_all(fb, width, height, m, tris) == fb,
    decreases tris.len(),
{
    if tris.len() > 0 {
        let rest = tris.drop_last();
        assert forall|k: int| 0 <= k < rest.len() implies !front_facing(
            project(m, width, height, #[trigger] rest[k].a.position),
            project(m, width, height, rest[k].b.position),
            project(m, width, height, rest[k].c.position),
        ) by {
            assert(rest[k] == tris[k]);
        }
        lemma_back_facing_all_draw_nothing(fb, width, height, m, rest);
        assert(tris.last() == tris[tris.len() - 1]);
        lemma_back_facing_draws_nothing(fb, width, height, m, tris.last());
    }
}

/// Whether the three points all lie on the far side of one edge of the
/// `width` x `height` screen (on the edge counts as outside).
pub open spec fn off_screen(pa: Vector3, pb: Vector3, pc: Vector3, width: u32, height: u32) -> bool {
    let w = width * ONE_RAW;
    let h = height * ONE_RAW;
    (pa.x.raw <= 0 && pb.x.raw <= 0 && pc.x.raw <= 0)
        || (pa.x.raw >= w && pb.x.raw >= w && pc.x.raw >= w)
        || (pa.y.raw <= 0 && pb.y.raw <= 0 && pc.y.raw <= 0)
        || (pa.y.raw >= h && pb.y.raw >= h && pc.y.raw >= h)
}

/// A triangle whose projection lies wholly off the screen writes no pixel.
pub proof fn lemma_off_screen_draws_nothing(fb: Seq<Color>, width: u32, height: u32, m: Matrix4, tri: Triangle)
    requires
        off_screen(
            project(m, width, height, tri.a.position),
            project(m, width, height, tri.b.position),
            project(m, width, height, tri.c.position),
            width,
            height,
        ),
    ensures
        painted(fb, width, height, m, tri) == fb,
{
    reveal(shade);
    let pa = project(m, width, height, tri.a.position);
    let pb = project(m, width, height, tri.b.position);
    let pc = project(m, width, height, tri.c.position);
    let s = seq![pa.spec_vec2(), pb.spec_vec2(), pc.spec_vec2()];
    assert(s.drop_last() =~= seq![pa.spec_vec2(), pb.spec_vec2()]);
    assert(s.drop_last().drop_last() =~= seq![pa.spec_vec2()]);
    let e1 = enclosing(seq![pa.spec_vec2()]);
    let e2 = crate::bound_rect::extend(e1, pb.spec_vec2());
    let e3 = crate::bound_rect::extend(e2, pc.spec_vec2());
    assert(enclosing(s.drop_last()) == e2);
    assert(enclosing(s) == e3);
    assert(Fixed::spec_from_int(width as int).raw == width * ONE_RAW);
    assert(Fixed::spec_from_int(height as int).raw == height * ONE_RAW);
    assert(clipped_bounds(pa, pb, pc, width, height).spec_is_empty());
    assert(painted(fb, width, height, m, tri) =~= fb);
}

} // verus!
