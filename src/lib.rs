//! A small CPU triangle rasterizer over fixed-point arithmetic: vector and
//! matrix algebra, bounding rectangles, packed colors and a renderer that
//! projects, culls, clips and fills triangles into a framebuffer.

pub mod fixed;
pub mod vec2;
pub mod vec3;
pub mod vec4;
pub mod mat4;
pub mod bound_rect;
pub mod color;
pub mod renderer;
