//! 8-bit-per-channel RGB color values.
//!
//! Arithmetic on colors clamps each channel to `[0, 255]` (never wraps), and
//! a color packs into the low 24 bits of a `u32` as `r<<16 | g<<8 | b`.

use vstd::prelude::*;
use crate::fixed::FX_ONE;
use crate::fixed::fx_bounded;
use crate::fixed::fx_wide_to_raw;

verus! {

/// An RGB value with three unsigned 8-bit channels.
#[derive(Debug, Clone, Copy, PartialEq, Eq, Structural)]
pub struct Color {
    pub r: u8,
    pub g: u8,
    pub b: u8,
}

/// Clamp of an unbounded channel value to `[0, 255]`.
pub open spec fn clamp255(v: int) -> int {
    if v < 0 {
        0
    } else if v > 255 {
        255
    } else {
        v
    }
}

/// One channel of a color scaled by the fixed-point factor `s`,
/// truncated and clamped to `[0, 255]`.
pub open spec fn spec_scale_channel(c: u8, s: i64) -> int {
    clamp255(fx_wide_to_raw((c as int) * (s as int)))
}

/// A color scaled channel-wise by the fixed-point factor `s`.
pub open spec fn spec_scale(c: Color, s: i64) -> Color {
    Color {
        r: spec_scale_channel(c.r, s) as u8,
        g: spec_scale_channel(c.g, s) as u8,
        b: spec_scale_channel(c.b, s) as u8,
    }
}

/// A fixed-point interpolation factor clamped to `[0, 1]`.
pub open spec fn spec_clamp01(t: i64) -> int {
    if t < 0 {
        0
    } else if t > FX_ONE {
        FX_ONE as int
    } else {
        t as int
    }
}

/// One channel interpolated from `a` toward `b` by the clamped factor `t`.
pub open spec fn spec_lerp_channel(a: u8, b: u8, t: i64) -> int {
    clamp255(a + fx_wide_to_raw((b - a) * spec_clamp01(t)))
}

/// Linear interpolation between two colors by a fixed-point factor,
/// channel by channel; the factor is clamped to `[0, 1]`.
pub open spec fn spec_lerp(a: Color, b: Color, t: i64) -> Color {
    Color {
        r: spec_lerp_channel(a.r, b.r, t) as u8,
        g: spec_lerp_channel(a.g, b.g, t) as u8,
        b: spec_lerp_channel(a.b, b.b, t) as u8,
    }
}

/// The packed 24-bit form of three channels: `r<<16 | g<<8 | b`.
pub open spec fn spec_pack(r: u8, g: u8, b: u8) -> u32 {
    ((r as u32) << 16) | ((g as u32) << 8) | (b as u32)
}

fn scale_channel(c: u8, s: i64) -> (r: u8)
    requires
        fx_bounded(s),
    ensures
        r == spec_scale_channel(c, s),
{
    if s <= 0 {
        assert((c as int) * (s as int) <= 0) by (nonlinear_arith)
            requires
                0 <= c,
                s <= 0;
        0
    } else {
        assert(0 <= (c as int) * (s as int) <= 255 * 0x4000_0000) by (nonlinear_arith)
            requires
                0 <= c <= 255,
                0 < s <= 0x4000_0000;
        let v: i64 = (c as i64) * s;
        let q: u64 = (v as u64) / 65536;
        if q > 255 {
            255
        } else {
            q as u8
        }
    }
}

fn lerp_channel(a: u8, b: u8, t: i64) -> (r: u8)
    ensures
        r == spec_lerp_channel(a, b, t),
{
    let tc: i64 = if t < 0 {
        0
    } else if t > FX_ONE {
        FX_ONE
    } else {
        t
    };
    let d: i64 = (b as i64) - (a as i64);
    assert(-(255 * 65536) <= d * tc <= 255 * 65536) by (nonlinear_arith)
        requires
            -255 <= d <= 255,
            0 <= tc <= 65536;
    let p: i64 = d * tc;
    let neg: bool = p < 0;
    let m: u64 = if neg {
        (-p) as u64
    } else {
        p as u64
    };
    let q: i64 = (m / 65536) as i64;
    let off: i64 = if neg {
        -q
    } else {
        q
    };
    let v: i64 = (a as i64) + off;
    if v < 0 {
        0
    } else if v > 255 {
        255
    } else {
        v as u8
    }
}

impl Color {
    /// A color from its three channels.
    pub fn new(r: u8, g: u8, b: u8) -> (c: Color)
        ensures
            c == (Color { r, g, b }),
    {
        Color { r, g, b }
    }

    /// The color with all channels zero.
    pub fn black() -> (c: Color)
        ensures
            c == (Color { r: 0u8, g: 0u8, b: 0u8 }),
    {
        Color { r: 0, g: 0, b: 0 }
    }

    /// The packed 24-bit representation `r<<16 | g<<8 | b`.
    pub fn to_hex(&self) -> (h: u32)
        ensures
            h == spec_pack(self.r, self.g, self.b),
    {
        ((self.r as u32) << 16) | ((self.g as u32) << 8) | (self.b as u32)
    }

    /// Brightness scaling by a fixed-point factor: each channel is scaled
    /// independently, truncated, and clamped to `[0, 255]` (never wrapped).
    pub fn scale(&self, s: i64) -> (c: Color)
        requires
            fx_bounded(s),
        ensures
            c == spec_scale(*self, s),
    {
        Color {
            r: scale_channel(self.r, s),
            g: scale_channel(self.g, s),
            b: scale_channel(self.b, s),
        }
    }

    /// Linear interpolation from `self` toward `other` by the fixed-point
    /// factor `t`, which is clamped to `[0, 1]`.
    pub fn lerp(&self, other: &Color, t: i64) -> (c: Color)
        ensures
            c == spec_lerp(*self, *other, t),
    {
        Color {
            r: lerp_channel(self.r, other.r, t),
            g: lerp_channel(self.g, other.g, t),
            b: lerp_channel(self.b, other.b, t),
        }
    }
}

/// Scaling a color keeps every channel in `[0, 255]` and is monotonic in the
/// factor: for `0 <= s1 <= s2`, each channel of `c` scaled by `s1` is at most
/// the same channel of `c` scaled by `s2`.
pub proof fn lemma_scale_monotonic(c: Color, s1: i64, s2: i64)
    requires
        0 <= s1 <= s2,
    ensures
        0 <= spec_scale(c, s1).r <= 255,
        0 <= spec_scale(c, s1).g <= 255,
        0 <= spec_scale(c, s1).b <= 255,
        spec_scale(c, s1).r <= spec_scale(c, s2).r,
        spec_scale(c, s1).g <= spec_scale(c, s2).g,
        spec_scale(c, s1).b <= spec_scale(c, s2).b,
{
    lemma_scale_channel_monotonic(c.r, s1, s2);
    lemma_scale_channel_monotonic(c.g, s1, s2);
    lemma_scale_channel_monotonic(c.b, s1, s2);
}

proof fn lemma_scale_channel_monotonic(ch: u8, s1: i64, s2: i64)
    requires
        0 <= s1 <= s2,
    ensures
        spec_scale_channel(ch, s1) <= spec_scale_channel(ch, s2),
{
    assert(0 <= (ch as int) * (s1 as int) && (ch as int) * (s1 as int) <= (ch as int) * (
    s2 as int)) by (nonlinear_arith)
        requires
            0 <= ch,
            0 <= s1 <= s2,
    ;
    let p1 = (ch as int) * (s1 as int);
    let p2 = (ch as int) * (s2 as int);
    assert(p1 / 65536 <= p2 / 65536) by {
        vstd::arithmetic::div_mod::lemma_div_is_ordered(p1, p2, 65536);
    }
}

} // verus!
