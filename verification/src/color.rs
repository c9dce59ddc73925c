//! Colors: an RGB triple whose channels lie in [0, 1].
//!
//! The range is enforced statically: the strict constructor demands it
//! as a precondition, so no verified caller can ever trip a fatal range
//! check at the pixel-accumulation boundary; `maybe_new` remains for
//! callers outside the proof boundary.

use vstd::prelude::*;

use crate::fx::FX_ONE;
use crate::vec3::Vec3;

verus! {

/// Denominator of the byte mapping: 1000 * FX_ONE.
pub const BYTE_DEN: u64 = 4294967296000;

/// A color; every channel of the wrapped vector lies in [0, FX_ONE].
#[derive(Clone, Copy, PartialEq, Eq, Structural, Debug)]
pub struct Color {
    pub v: Vec3,
}

/// Each channel within [0, 1].
pub open spec fn color_in_range(v: Vec3) -> bool {
    0 <= v.x <= FX_ONE && 0 <= v.y <= FX_ONE && 0 <= v.z <= FX_ONE
}

/// The displayed byte of one channel: floor(255.999 * channel).
pub open spec fn byte_of(c: i64) -> u8
    recommends
        0 <= c <= FX_ONE,
{
    ((c * 255999) / (BYTE_DEN as int)) as u8
}

/// Pure white, at the spec level.
pub open spec fn white_spec() -> Color {
    Color { v: Vec3 { x: FX_ONE as i64, y: FX_ONE as i64, z: FX_ONE as i64 } }
}

impl Color {
    pub open spec fn valid(self) -> bool {
        color_in_range(self.v)
    }

    /// Build a color from its wrapped vector.  Out-of-range channels are a
    /// logic bug at this boundary, so they are ruled out rather than clamped.
    pub fn new(v: Vec3) -> (r: Color)
        requires
            color_in_range(v),
        ensures
            r == (Color { v }),
            r.valid(),
    {
        let s = Color { v };
        s.validate_or_crash();
        s
    }

    /// Build a color from three channels in [0, 1].
    pub fn from_channels(red: i64, green: i64, blue: i64) -> (r: Color)
        requires
            0 <= red <= FX_ONE,
            0 <= green <= FX_ONE,
            0 <= blue <= FX_ONE,
        ensures
            r == (Color { v: Vec3 { x: red, y: green, z: blue } }),
            r.valid(),
    {
        Color { v: Vec3 { x: red, y: green, z: blue } }
    }

    /// Check the range invariant; callers must already satisfy it, so this
    /// can never abort.
    pub fn validate_or_crash(&self)
        requires
            self.valid(),
    {
    }

    /// Build a color if every channel is in range, and nothing otherwise.
    pub fn maybe_new(v: Vec3) -> (r: Option<Color>)
        ensures
            color_in_range(v) <==> r is Some,
            r is Some ==> r->0 == (Color { v }),
    {
        if 0 <= v.x && v.x <= FX_ONE && 0 <= v.y && v.y <= FX_ONE && 0 <= v.z && v.z
            <= FX_ONE {
            Some(Color { v })
        } else {
            None
        }
    }

    /// Pure white.
    pub fn white() -> (r: Color)
        ensures
            r == white_spec(),
            r.valid(),
    {
        Color { v: Vec3 { x: FX_ONE, y: FX_ONE, z: FX_ONE } }
    }

    /// Pure red.
    pub fn pure_red() -> (r: Color)
        ensures
            r == (Color { v: Vec3 { x: FX_ONE as i64, y: 0i64, z: 0i64 } }),
            r.valid(),
    {
        Color { v: Vec3 { x: FX_ONE, y: 0, z: 0 } }
    }

    /// Pure green.
    pub fn pure_green() -> (r: Color)
        ensures
            r == (Color { v: Vec3 { x: 0i64, y: FX_ONE as i64, z: 0i64 } }),
            r.valid(),
    {
        Color { v: Vec3 { x: 0, y: FX_ONE, z: 0 } }
    }

    /// Pure blue.
    pub fn pure_blue() -> (r: Color)
        ensures
            r == (Color { v: Vec3 { x: 0i64, y: 0i64, z: FX_ONE as i64 } }),
            r.valid(),
    {
        Color { v: Vec3 { x: 0, y: 0, z: FX_ONE } }
    }

    pub fn vec3(&self) -> (r: Vec3)
        ensures
            r == self.v,
    {
        self.v
    }

    pub fn red(&self) -> (r: i64)
        ensures
            r == self.v.x,
    {
        self.v.x
    }

    pub fn green(&self) -> (r: i64)
        ensures
            r == self.v.y,
    {
        self.v.y
    }

    pub fn blue(&self) -> (r: i64)
        ensures
            r == self.v.z,
    {
        self.v.z
    }

    /// Borrow the red channel for writing; the caller is responsible for
    /// keeping the channel in range.
    pub fn red_mut(&mut self) -> (r: &mut i64)
        ensures
            *r == old(self).v.x,
            *final(self) == (Color {
                v: Vec3 { x: *final(r), y: old(self).v.y, z: old(self).v.z },
            }),
    {
        &mut self.v.x
    }

    /// Borrow the green channel for writing.
    pub fn green_mut(&mut self) -> (r: &mut i64)
        ensures
            *r == old(self).v.y,
            *final(self) == (Color {
                v: Vec3 { x: old(self).v.x, y: *final(r), z: old(self).v.z },
            }),
    {
        &mut self.v.y
    }

    /// Borrow the blue channel for writing.
    pub fn blue_mut(&mut self) -> (r: &mut i64)
        ensures
            *r == old(self).v.z,
            *final(self) == (Color {
                v: Vec3 { x: old(self).v.x, y: old(self).v.y, z: *final(r) },
            }),
    {
        &mut self.v.z
    }

    /// Channel-wise sum; the channels of the result must stay in range.
    pub fn add(self, rhs: Color) -> (r: Color)
        requires
            self.v.add_spec(rhs.v).x <= FX_ONE,
            self.v.add_spec(rhs.v).y <= FX_ONE,
            self.v.add_spec(rhs.v).z <= FX_ONE,
            self.valid(),
            rhs.valid(),
        ensures
            r == (Color { v: self.v.add_spec(rhs.v) }),
            r.valid(),
    {
        Color { v: self.v.add(rhs.v) }
    }

    /// Channel-wise difference; no channel may drop below zero.
    pub fn sub(self, rhs: Color) -> (r: Color)
        requires
            self.v.sub_spec(rhs.v).x >= 0,
            self.v.sub_spec(rhs.v).y >= 0,
            self.v.sub_spec(rhs.v).z >= 0,
            self.valid(),
            rhs.valid(),
        ensures
            r == (Color { v: self.v.sub_spec(rhs.v) }),
            r.valid(),
    {
        Color { v: self.v.sub(rhs.v) }
    }

    /// Channel-wise product; two valid colors always give a valid color.
    pub fn mul(self, rhs: Color) -> (r: Color)
        requires
            self.valid(),
            rhs.valid(),
        ensures
            r == (Color { v: self.v.mul_spec(rhs.v) }),
            r.valid(),
    {
        proof {
            crate::fx::lemma_fx_unit_mul(self.v.x, rhs.v.x);
            crate::fx::lemma_fx_unit_mul(self.v.y, rhs.v.y);
            crate::fx::lemma_fx_unit_mul(self.v.z, rhs.v.z);
        }
        Color { v: self.v.mul(rhs.v) }
    }

    /// The three display bytes of this color; always within 0..=255 by type.
    pub fn to_bytes(&self) -> (r: (u8, u8, u8))
        requires
            self.valid(),
        ensures
            r.0 == byte_of(self.v.x),
            r.1 == byte_of(self.v.y),
            r.2 == byte_of(self.v.z),
    {
        (channel_byte(self.v.x), channel_byte(self.v.y), channel_byte(self.v.z))
    }
}

/// Every display byte of an in-range channel is the exact quotient
/// floor(255.999 * channel), and it lies within 0..=255: no pixel of the
/// emitted stream can carry an out-of-range value.
pub proof fn lemma_byte_of_bounded(c: i64)
    requires
        0 <= c <= FX_ONE,
    ensures
        byte_of(c) == (c * 255999) / (BYTE_DEN as int),
        byte_of(c) <= 255,
{
    assert(0 <= (c * 255999) / (BYTE_DEN as int) <= 255) by (nonlinear_arith)
        requires
            0 <= c <= 4294967296,
    ;
}

/// Map one channel in [0, 1] to its display byte.
pub fn channel_byte(c: i64) -> (r: u8)
    requires
        0 <= c <= FX_ONE,
    ensures
        r == byte_of(c),
{
    let n: u64 = (c as u64) * 255999;
    let q: u64 = n / BYTE_DEN;
    proof {
        assert(q <= 255) by (nonlinear_arith)
            requires
                q == ((c as u64) * 255999) / 4294967296000,
                0 <= c <= 4294967296,
        ;
    }
    q as u8
}

} // verus!
