use rrasterizer::color::Color;
use rrasterizer::fixed::{Fixed, ONE_RAW};
use rrasterizer::mat4::Matrix4;
use rrasterizer::renderer::{Renderer, Triangle, Vertex};
use rrasterizer::vec3::Vector3;
use rrasterizer::vec4::Vector4;

fn fx(v: f64) -> Fixed {
    Fixed::from_raw((v * ONE_RAW as f64) as i64)
}

fn vertex(x: f64, y: f64, color: (f64, f64, f64, f64)) -> Vertex {
    Vertex {
        position: Vector3::new(fx(x), fx(y), fx(-1.0)),
        color: Vector4::new(fx(color.0), fx(color.1), fx(color.2), fx(color.3)),
    }
}

const RED: (f64, f64, f64, f64) = (1.0, 0.0, 0.0, 1.0);
const BLACK: Color = Color(0, 0, 0, 255);

/// A renderer whose projection maps a point at depth -1 to itself.
fn unit_renderer(width: u32, height: u32) -> Renderer {
    Renderer::new(width, height, fx(1.0))
}

fn pixels(r: &Renderer) -> Vec<Color> {
    let (w, h) = r.dimensions();
    let mut out = Vec::new();
    for y in 0..h {
        for x in 0..w {
            out.push(r.get_pixel(x, y));
        }
    }
    out
}

#[test]
fn new_renderer_is_black() {
    let r = unit_renderer(3, 2);
    assert_eq!(r.dimensions(), (3, 2));
    assert!(pixels(&r).iter().all(|&c| c == BLACK));
    assert_eq!(pixels(&r).len(), 6);
}

#[test]
fn clear_sets_every_pixel() {
    let mut r = unit_renderer(2, 2);
    r.clear(Color(10, 20, 30, 255));
    for y in 0..2 {
        for x in 0..2 {
            assert_eq!(r.get_pixel(x, y), Color(10, 20, 30, 255));
        }
    }
}

#[test]
fn set_pixel_writes_one_pixel() {
    let mut r = unit_renderer(3, 2);
    r.set_pixel(2, 1, Color(1, 2, 3, 4));
    assert_eq!(r.get_pixel(2, 1), Color(1, 2, 3, 4));
    assert_eq!(pixels(&r).iter().filter(|&&c| c == BLACK).count(), 5);
    assert_eq!(pixels(&r)[5], Color(1, 2, 3, 4));
}

#[test]
fn solid_triangle_fills_its_interior() {
    let mut r = unit_renderer(4, 4);
    let tri = Triangle { a: vertex(-0.5, -0.5, RED), b: vertex(0.5, -0.5, RED), c: vertex(0.0, 0.5, RED) };
    r.render(Matrix4::identity(), &[tri]);
    // Screen corners (1, 1), (3, 1) and (2, 3): of all pixel centers only
    // those of (1, 1) and (2, 1) lie inside.
    let red = Color(255, 0, 0, 255);
    assert_eq!(r.get_pixel(1, 1), red);
    assert_eq!(r.get_pixel(2, 1), red);
    for (i, c) in pixels(&r).iter().enumerate() {
        assert!(*c == red || *c == BLACK, "pixel {} is {:?}", i, c);
    }
    assert_eq!(pixels(&r).iter().filter(|&&c| c == red).count(), 2);
}

#[test]
fn back_facing_triangle_draws_nothing() {
    let mut r = unit_renderer(4, 4);
    let tri = Triangle { a: vertex(-0.5, -0.5, RED), b: vertex(0.0, 0.5, RED), c: vertex(0.5, -0.5, RED) };
    r.render(Matrix4::identity(), &[tri]);
    assert!(pixels(&r).iter().all(|&c| c == BLACK));
    let degenerate = Triangle { a: vertex(-0.5, -0.5, RED), b: vertex(0.0, 0.0, RED), c: vertex(0.5, 0.5, RED) };
    r.render(Matrix4::identity(), &[degenerate]);
    assert!(pixels(&r).iter().all(|&c| c == BLACK));
}

#[test]
fn off_screen_triangle_draws_nothing() {
    let mut r = unit_renderer(4, 4);
    let tri = Triangle { a: vertex(1.5, -0.5, RED), b: vertex(2.5, -0.5, RED), c: vertex(2.0, 0.5, RED) };
    r.render(Matrix4::identity(), &[tri]);
    assert!(pixels(&r).iter().all(|&c| c == BLACK));
    let moved = Matrix4::translation(Vector3::new(fx(0.0), fx(-3.0), fx(0.0)));
    let on_screen = Triangle { a: vertex(-0.5, -0.5, RED), b: vertex(0.5, -0.5, RED), c: vertex(0.0, 0.5, RED) };
    r.render(moved, &[on_screen]);
    assert!(pixels(&r).iter().all(|&c| c == BLACK));
}

#[test]
fn later_triangles_cover_earlier_ones() {
    let mut r = unit_renderer(4, 4);
    let blue = (0.0, 0.0, 1.0, 1.0);
    let first = Triangle { a: vertex(-0.5, -0.5, RED), b: vertex(0.5, -0.5, RED), c: vertex(0.0, 0.5, RED) };
    let second = Triangle { a: vertex(-0.5, -0.5, blue), b: vertex(0.5, -0.5, blue), c: vertex(0.0, 0.5, blue) };
    r.render(Matrix4::identity(), &[first, second]);
    assert_eq!(r.get_pixel(1, 1), Color(0, 0, 255, 255));
    assert!(pixels(&r).iter().all(|&c| c != Color(255, 0, 0, 255)));
}

#[test]
fn colors_blend_between_corners() {
    let mut r = unit_renderer(8, 8);
    let tri = Triangle {
        a: vertex(-1.0, -1.0, (1.0, 0.0, 0.0, 1.0)),
        b: vertex(1.0, -1.0, (0.0, 1.0, 0.0, 1.0)),
        c: vertex(-1.0, 1.0, (0.0, 0.0, 1.0, 1.0)),
    };
    r.render(Matrix4::identity(), &[tri]);
    let near_a = r.get_pixel(0, 0);
    let near_b = r.get_pixel(6, 0);
    let near_c = r.get_pixel(0, 6);
    assert!(near_a.0 > 200 && near_a.1 < 40 && near_a.2 < 40, "{:?}", near_a);
    assert!(near_b.1 > 150 && near_b.0 < 60, "{:?}", near_b);
    assert!(near_c.2 > 150 && near_c.0 < 60, "{:?}", near_c);
    assert_eq!(r.get_pixel(7, 7), BLACK);
}
