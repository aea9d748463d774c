//! 8-bit RGBA colours and the conversion from fixed-point linear colour
//! vectors.

use vstd::prelude::*;
use crate::fx;
use crate::fx::FX_ONE;
use crate::vec3::Vec3;

verus! {

#[derive(Clone, Copy, Debug, PartialEq, Eq, Structural)]
pub struct Color {
    pub r: u8,
    pub g: u8,
    pub b: u8,
    pub a: u8,
}

impl Color {
    pub fn new(r: u8, g: u8, b: u8, a: u8) -> (c: Color)
        ensures
            c == (Color { r, g, b, a }),
    {
        Color { r, g, b, a }
    }
}

/// One 0..1 fixed-point channel scaled to an 8-bit channel: multiplied by 255,
/// clamped into `[0, 255]`, truncated.
pub open spec fn spec_channel_to_u8(v: i64) -> u8 {
    (fx::spec_clamp(fx::spec_mul(v, (255 * FX_ONE) as i64), 0, (255 * FX_ONE) as i64) as int
        / FX_ONE as int) as u8
}

/// A 0..1 linear colour vector quantized to 8-bit RGBA with full alpha.
pub open spec fn spec_vector3_to_color(v: Vec3) -> Color {
    Color {
        r: spec_channel_to_u8(v.x),
        g: spec_channel_to_u8(v.y),
        b: spec_channel_to_u8(v.z),
        a: 255,
    }
}

fn channel_to_u8(v: i64) -> (r: u8)
    ensures
        r == spec_channel_to_u8(v),
{
    let scaled = fx::fx_mul(v, 255 * FX_ONE);
    let clamped = fx::fx_clamp(scaled, 0, 255 * FX_ONE);
    ((clamped as u64) / 1_000_000u64) as u8
}

/// Quantizes a linear colour vector (components in the 0..1 band, out-of-band
/// values clamped) to an output RGBA colour.
pub fn vector3_to_color(v: Vec3) -> (c: Color)
    ensures
        c == spec_vector3_to_color(v),
{
    Color {
        r: channel_to_u8(v.x),
        g: channel_to_u8(v.y),
        b: channel_to_u8(v.z),
        a: 255,
    }
}

/// The channel scaling the framebuffer applies when dimming a colour:
/// each RGB channel multiplied by a fixed-point factor and capped at 255,
/// alpha kept.
pub open spec fn spec_color_scaled(c: Color, factor: i64) -> Color {
    Color {
        r: scaled_channel(c.r, factor),
        g: scaled_channel(c.g, factor),
        b: scaled_channel(c.b, factor),
        a: c.a,
    }
}

pub open spec fn scaled_channel(ch: u8, factor: i64) -> u8 {
    (fx::spec_clamp(fx::spec_mul((ch * FX_ONE) as i64, factor), 0, (255 * FX_ONE) as i64) as int
        / FX_ONE as int) as u8
}

pub trait ColorOps: Sized {
    /// Model of [`ColorOps::mult_fx`] at the specification level.
    spec fn spec_mult_fx(self, factor: i64) -> Self;

    /// Scales the RGB channels by a fixed-point factor, capped at channel
    /// range; alpha is kept.
    fn mult_fx(&self, factor: i64) -> (r: Self)
        ensures
            r == self.spec_mult_fx(factor),
    ;
}

impl ColorOps for Color {
    open spec fn spec_mult_fx(self, factor: i64) -> Color {
        spec_color_scaled(self, factor)
    }

    fn mult_fx(&self, factor: i64) -> (r: Color)
        ensures
            r == self.spec_mult_fx(factor),
    {
        Color {
            r: mult_channel(self.r, factor),
            g: mult_channel(self.g, factor),
            b: mult_channel(self.b, factor),
            a: self.a,
        }
    }
}

fn mult_channel(ch: u8, factor: i64) -> (r: u8)
    ensures
        r == scaled_channel(ch, factor),
{
    let wide: i64 = (ch as i64) * FX_ONE;
    let scaled = fx::fx_mul(wide, factor);
    let clamped = fx::fx_clamp(scaled, 0, 255 * FX_ONE);
    ((clamped as u64) / 1_000_000u64) as u8
}

} // verus!
