//! Packed eight-bit colors.

use vstd::prelude::*;
use crate::fixed::{Fixed, ONE_RAW};
use crate::vec4::Vector4;

verus! {

/// Red, green, blue and alpha, one byte each.
#[derive(Clone, Copy, Debug, PartialEq, Eq, PartialOrd, Ord, Hash)]
pub struct Color(pub u8, pub u8, pub u8, pub u8);

/// Raw value of the scalar 255.
pub const FULL_RAW: i64 = 16711680;

/// `v` held within `[lo, hi]`.
pub open spec fn clamped(v: int, lo: int, hi: int) -> int {
    if v < lo {
        lo
    } else if v > hi {
        hi
    } else {
        v
    }
}

/// One channel: scaled by 255, clamped to `[0, 255]`, then truncated.
pub open spec fn channel_of(c: Fixed) -> u8 {
    (clamped(c.spec_mul(Fixed { raw: FULL_RAW }).raw as int, 0, FULL_RAW as int) / (ONE_RAW as int)) as u8
}

pub open spec fn spec_vec4_to_color(v: Vector4) -> Color {
    Color(channel_of(v.x), channel_of(v.y), channel_of(v.z), channel_of(v.w))
}

/// Relies on num::clamp: `input` held within `[min, max]`.
#[verifier::external_body]
fn clamp_raw(input: i64, min: i64, max: i64) -> (r: i64)
    requires
        min <= max,
    ensures
        r == clamped(input as int, min as int, max as int),
{
    num::clamp(input, min, max)
}

fn channel(c: Fixed) -> (r: u8)
    ensures
        r == channel_of(c),
{
    let scaled = c.mul(Fixed::from_raw(FULL_RAW));
    let k = clamp_raw(scaled.raw, 0, FULL_RAW);
    (k / ONE_RAW) as u8
}

/// Quantizes a color whose channels run from 0 to 1.
pub fn vec4_to_color(v: Vector4) -> (r: Color)
    ensures
        r == spec_vec4_to_color(v),
{
    Color(channel(v.x), channel(v.y), channel(v.z), channel(v.w))
}

} // verus!
