//! Signed fixed-point scalar with sixteen fractional bits.
//!
//! Every operation is total: results saturate at `-i64::MAX` and `i64::MAX`
//! (a range that negation maps onto itself), and a division by zero saturates
//! towards the sign of the dividend (zero divided by zero gives zero).

use vstd::prelude::*;
use vstd::arithmetic::div_mod::lemma_fundamental_div_mod;
use vstd::arithmetic::div_mod::lemma_fundamental_div_mod_converse;

verus! {

/// Raw value of the scalar 1.
pub const ONE_RAW: i64 = 65536;

/// Raw value of the scalar 0.5.
pub const HALF_RAW: i64 = 32768;

/// Clamps a mathematical integer into `[-i64::MAX, i64::MAX]`.
pub open spec fn sat(v: int) -> int {
    if v < -i64::MAX {
        -i64::MAX
    } else if v > i64::MAX {
        i64::MAX as int
    } else {
        v
    }
}

/// Raw value of the product of two raw values: rounded down, then saturated.
pub open spec fn mul_raw(a: int, b: int) -> int {
    sat((a * b) / (ONE_RAW as int))
}

/// Raw value of the quotient of two raw values: rounded down, then saturated;
/// a zero divisor gives the bound on the side of the dividend's sign.
pub open spec fn div_raw(n: int, d: int) -> int {
    if d > 0 {
        sat((n * ONE_RAW) / d)
    } else if d < 0 {
        sat((-n * ONE_RAW) / (-d))
    } else if n > 0 {
        i64::MAX as int
    } else if n < 0 {
        -i64::MAX
    } else {
        0
    }
}

/// A number `raw / 65536`. Every operation yields a raw value in
/// `[-i64::MAX, i64::MAX]` (see `wf`).
#[derive(Clone, Copy, Debug, PartialEq, Eq, PartialOrd, Ord, Hash)]
pub struct Fixed {
    pub raw: i64,
}

proof fn lemma_mul_magnitude(a: int, b: int, k: int)
    requires
        0 <= k,
        -k <= a <= k,
        -k <= b <= k,
    ensures
        -(k * k) <= a * b <= k * k,
{
    assert(-(k * k) <= a * b <= k * k) by (nonlinear_arith)
        requires
            0 <= k,
            -k <= a <= k,
            -k <= b <= k,
    ;
}

/// Clamps an `i128` into `[-i64::MAX, i64::MAX]`.
fn saturate(v: i128) -> (r: i64)
    ensures
        r == sat(v as int),
{
    if v < -(i64::MAX as i128) {
        -i64::MAX
    } else if v > i64::MAX as i128 {
        i64::MAX
    } else {
        v as i64
    }
}

/// Division rounded towards negative infinity.
fn floor_div(n: i128, d: i128) -> (r: i128)
    requires
        d > 0,
        n > i128::MIN,
    ensures
        r == n / d,
{
    if n >= 0 {
        n / d
    } else {
        let m: i128 = -n - 1;
        let q: i128 = m / d;
        proof {
            lemma_fundamental_div_mod(m as int, d as int);
            let rem = m as int % d as int;
            assert(0 <= rem < d) by {
                vstd::arithmetic::div_mod::lemma_mod_pos_bound(m as int, d as int);
            }
            assert(n as int == (-(q as int) - 1) * d + (d - rem - 1)) by (nonlinear_arith)
                requires
                    m as int == d * q + rem,
                    m == -n - 1,
            ;
            lemma_fundamental_div_mod_converse(n as int, d as int, -(q as int) - 1, d - rem - 1);
        }
        -q - 1
    }
}

/// Integer square root relied on from num: the largest `r` with `r * r <= x`.
#[verifier::external_body]
fn isqrt(x: u128) -> (r: u128)
    ensures
        r * r <= x,
        x < (r + 1) * (r + 1),
{
    num::integer::sqrt(x)
}

/// A value has one rounded-down square root.
pub proof fn lemma_sqrt_unique(v: Fixed, r1: Fixed, r2: Fixed)
    requires
        r1.is_sqrt_of(v),
        r2.is_sqrt_of(v),
    ensures
        r1 == r2,
{
    if v.raw > 0 {
        let a = r1.raw as int;
        let b = r2.raw as int;
        if a < b {
            assert((a + 1) * (a + 1) <= b * b) by (nonlinear_arith)
                requires
                    0 <= a,
                    a + 1 <= b,
            ;
        } else if b < a {
            assert((b + 1) * (b + 1) <= a * a) by (nonlinear_arith)
                requires
                    0 <= b,
                    b + 1 <= a,
            ;
        }
    }
}

impl Fixed {
    pub open spec fn spec_from_int(i: int) -> Fixed {
        Fixed { raw: sat(i * ONE_RAW) as i64 }
    }

    pub open spec fn spec_add(self, o: Fixed) -> Fixed {
        Fixed { raw: sat(self.raw + o.raw) as i64 }
    }

    pub open spec fn spec_sub(self, o: Fixed) -> Fixed {
        Fixed { raw: sat(self.raw - o.raw) as i64 }
    }

    pub open spec fn spec_mul(self, o: Fixed) -> Fixed {
        Fixed { raw: mul_raw(self.raw as int, o.raw as int) as i64 }
    }

    pub open spec fn spec_div(self, o: Fixed) -> Fixed {
        Fixed { raw: div_raw(self.raw as int, o.raw as int) as i64 }
    }

    pub open spec fn spec_neg(self) -> Fixed {
        Fixed { raw: sat(-self.raw) as i64 }
    }

    /// The greatest integer not above the value.
    pub open spec fn spec_floor(self) -> int {
        (self.raw as int) / (ONE_RAW as int)
    }

    /// The least integer not below the value.
    pub open spec fn spec_ceil(self) -> int {
        -((-(self.raw as int)) / (ONE_RAW as int))
    }

    /// Square root of the value, rounded down; zero for a negative value.
    pub open spec fn is_sqrt_of(self, v: Fixed) -> bool {
        if v.raw <= 0 {
            self.raw == 0
        } else {
            self.raw >= 0 && self.raw * self.raw <= v.raw * ONE_RAW
                && v.raw * ONE_RAW < (self.raw + 1) * (self.raw + 1)
        }
    }

    /// The square root of the value, rounded down (zero for a value not above
    /// zero).
    pub open spec fn spec_sqrt(self) -> Fixed {
        choose|r: Fixed| r.is_sqrt_of(self)
    }

    /// Whether the raw value lies in the range that the operations keep.
    pub open spec fn wf(self) -> bool {
        self.raw >= -i64::MAX
    }

    /// The number `raw / 65536`, with `i64::MIN` taken to `-i64::MAX`.
    pub fn from_raw(raw: i64) -> (r: Fixed)
        ensures
            r.raw == sat(raw as int),
            r.wf(),
    {
        Fixed { raw: saturate(raw as i128) }
    }

    pub fn zero() -> (r: Fixed)
        ensures
            r.raw == 0,
    {
        Fixed { raw: 0 }
    }

    pub fn one() -> (r: Fixed)
        ensures
            r.raw == ONE_RAW,
    {
        Fixed { raw: ONE_RAW }
    }

    pub fn half() -> (r: Fixed)
        ensures
            r.raw == HALF_RAW,
    {
        Fixed { raw: HALF_RAW }
    }

    /// The whole number `i`, saturated.
    pub fn from_int(i: i64) -> (r: Fixed)
        ensures
            r == Fixed::spec_from_int(i as int),
    {
        let w: i128 = i as i128;
        Fixed { raw: saturate(w * 65536) }
    }

    pub fn add(self, o: Fixed) -> (r: Fixed)
        ensures
            r == self.spec_add(o),
    {
        Fixed { raw: saturate(self.raw as i128 + o.raw as i128) }
    }

    pub fn sub(self, o: Fixed) -> (r: Fixed)
        ensures
            r == self.spec_sub(o),
    {
        Fixed { raw: saturate(self.raw as i128 - o.raw as i128) }
    }

    pub fn mul(self, o: Fixed) -> (r: Fixed)
        ensures
            r == self.spec_mul(o),
    {
        let a: i128 = self.raw as i128;
        let b: i128 = o.raw as i128;
        proof {
            lemma_mul_magnitude(a as int, b as int, 0x8000_0000_0000_0000);
            assert(0x8000_0000_0000_0000 * 0x8000_0000_0000_0000 == 0x4000_0000_0000_0000_0000_0000_0000_0000int);
        }
        let p: i128 = a * b;
        Fixed { raw: saturate(floor_div(p, ONE_RAW as i128)) }
    }

    pub fn div(self, o: Fixed) -> (r: Fixed)
        ensures
            r == self.spec_div(o),
    {
        let w: i128 = self.raw as i128;
        let n: i128 = w * 65536;
        let d: i128 = o.raw as i128;
        if d > 0 {
            Fixed { raw: saturate(floor_div(n, d)) }
        } else if d < 0 {
            Fixed { raw: saturate(floor_div(-n, -d)) }
        } else if n > 0 {
            Fixed { raw: i64::MAX }
        } else if n < 0 {
            Fixed { raw: -i64::MAX }
        } else {
            Fixed { raw: 0 }
        }
    }

    pub fn neg(self) -> (r: Fixed)
        ensures
            r == self.spec_neg(),
    {
        Fixed { raw: saturate(-(self.raw as i128)) }
    }

    pub fn lt(self, o: Fixed) -> (r: bool)
        ensures
            r == (self.raw < o.raw),
    {
        self.raw < o.raw
    }

    pub fn floor(self) -> (r: i64)
        ensures
            r == self.spec_floor(),
    {
        floor_div(self.raw as i128, ONE_RAW as i128) as i64
    }

    pub fn ceil(self) -> (r: i64)
        ensures
            r == self.spec_ceil(),
    {
        let q: i128 = floor_div(-(self.raw as i128), ONE_RAW as i128);
        (-q) as i64
    }

    /// Square root, rounded down; a negative value gives zero.
    pub fn sqrt(self) -> (r: Fixed)
        ensures
            r.is_sqrt_of(self),
            r == self.spec_sqrt(),
    {
        let r = self.sqrt_floor();
        proof {
            lemma_sqrt_unique(self, r, self.spec_sqrt());
        }
        r
    }

    fn sqrt_floor(self) -> (r: Fixed)
        ensures
            r.is_sqrt_of(self),
    {
        if self.raw <= 0 {
            Fixed { raw: 0 }
        } else {
            let w: u128 = self.raw as u128;
            let x: u128 = w * 65536;
            let s: u128 = isqrt(x);
            proof {
                if s >= 0x100_0000_0000 {
                    assert(s * s >= 0x100_0000_0000 * 0x100_0000_0000) by (nonlinear_arith)
                        requires
                            s >= 0x100_0000_0000,
                    ;
                }
                assert(s < 0x100_0000_0000);
            }
            Fixed { raw: s as i64 }
        }
    }
}

} // verus!
