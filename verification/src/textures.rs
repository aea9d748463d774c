//! Decoded RGBA8 texture buffers with nearest-neighbour, wrapping UV
//! sampling.  Decoding an image file is I/O and happens outside the library;
//! a texture enters through [`Texture::new`] as plain width, height and bytes.

use vstd::prelude::*;
use crate::color::Color;
use crate::fx;
use crate::fx::FX_ONE;

verus! {

#[derive(Clone, Debug)]
pub struct Texture {
    pub width: u32,
    pub height: u32,
    /// Flat RGBA8 buffer, row-major, four bytes per pixel.
    pub data: Vec<u8>,
}

/// Fractional part of a fixed-point value: the representative of `a` modulo
/// 1.0 lying in `[0, 1)`.  This is how UV coordinates wrap.
pub open spec fn spec_fract(a: i64) -> i64 {
    fx::spec_emod(a, FX_ONE)
}

/// `a * FX_ONE` rounded to the nearest integer texel index (half rounds up),
/// for nonnegative `a`.
pub open spec fn spec_round_to_index(t: int) -> int {
    (t + 500_000) / (FX_ONE as int)
}

impl Texture {
    /// A texture is a buffer of exactly `width * height` RGBA8 pixels with
    /// both dimensions positive.
    pub open spec fn wf(self) -> bool {
        &&& self.width >= 1
        &&& self.height >= 1
        &&& self.data@.len() == self.width * self.height * 4
    }

    /// Texel column sampled for wrapped coordinate `u`: nearest index to
    /// `u * (width - 1)`, kept inside the row.
    pub open spec fn spec_sample_x(self, u: i64) -> int {
        let t = spec_fract(u) * ((self.width - 1) as int);
        let r = spec_round_to_index(t);
        if r > self.width - 1 { self.width - 1 } else { r }
    }

    /// Texel row sampled for wrapped coordinate `v`; `v` grows upward while
    /// rows grow downward, so the coordinate is flipped first.
    pub open spec fn spec_sample_y(self, v: i64) -> int {
        let t = (FX_ONE - spec_fract(v)) * ((self.height - 1) as int);
        let r = spec_round_to_index(t);
        if r > self.height - 1 { self.height - 1 } else { r }
    }

    /// The colour [`Texture::sample`] returns: the RGBA bytes of the nearest
    /// texel to the wrapped UV coordinates.
    pub open spec fn spec_sample(self, u: i64, v: i64) -> Color {
        let idx = (self.spec_sample_y(v) * self.width + self.spec_sample_x(u)) * 4;
        Color {
            r: self.data@[idx],
            g: self.data@[idx + 1],
            b: self.data@[idx + 2],
            a: self.data@[idx + 3],
        }
    }

    /// Wraps a decoded RGBA8 buffer.  The caller (the asset loader) must have
    /// checked the buffer length against the dimensions; a missing or corrupt
    /// asset is fatal at startup, not recovered here.
    pub fn new(width: u32, height: u32, data: Vec<u8>) -> (t: Texture)
        requires
            width >= 1,
            height >= 1,
            data@.len() == width * height * 4,
        ensures
            t == (Texture { width, height, data }),
            t.wf(),
    {
        Texture { width, height, data }
    }

    /// Samples the colour at normalized UV coordinates with wrapping and
    /// nearest-neighbour filtering.
    pub fn sample(&self, uv: (i64, i64)) -> (c: Color)
        requires
            self.wf(),
        ensures
            c == self.spec_sample(uv.0, uv.1),
    {
        let (u, v) = uv;
        let uw = fract(u);
        let vw = fract(v);

        let x: u64 = round_index(uw, self.width);
        let yt: i64 = FX_ONE - vw;
        let y: u64 = round_index(yt, self.height);

        let len: usize = self.data.len();
        proof {
            assert((y as int) * (self.width as int) + (x as int) < (self.width as int) * (
            self.height as int)) by (nonlinear_arith)
                requires
                    x as int <= self.width as int - 1,
                    y as int <= self.height as int - 1,
                    self.width as int >= 1,
                    self.height as int >= 1,
            ;
            assert((self.width as int) * (self.height as int) * 4 == len);
        }
        let idx: usize = ((y * (self.width as u64) + x) * 4) as usize;
        Color {
            r: self.data[idx],
            g: self.data[idx + 1],
            b: self.data[idx + 2],
            a: self.data[idx + 3],
        }
    }

    /// The texture rotated half a turn: texel `(x, y)` moves to
    /// `(width-1-x, height-1-y)`.
    pub fn rotated_180(self) -> (t: Texture)
        requires
            self.wf(),
        ensures
            t.width == self.width,
            t.height == self.height,
            t.wf(),
            forall|x: int, y: int, c: int|
                0 <= x < self.width && 0 <= y < self.height && 0 <= c < 4
                    ==> t.data@[4 * ((self.height - 1 - y) * self.width + (self.width - 1 - x))
                    + c] == #[trigger] self.data@[4 * (y * self.width + x) + c],
    {
        let width = self.width;
        let height = self.height;
        let rotated = rotate180_rgba(width, height, self.data);
        Texture { width, height, data: rotated }
    }
}

/// Relies on `image::imageops::rotate180` (with `RgbaImage::from_raw` /
/// `into_raw` converting between the flat buffer and the crate's image type):
/// it moves the RGBA texel at `(x, y)` of a `width x height` buffer to
/// `(width-1-x, height-1-y)` and keeps the dimensions.
#[verifier::external_body]
fn rotate180_rgba(width: u32, height: u32, data: Vec<u8>) -> (r: Vec<u8>)
    requires
        width >= 1,
        height >= 1,
        data@.len() == width * height * 4,
    ensures
        r@.len() == data@.len(),
        forall|x: int, y: int, c: int|
            0 <= x < width && 0 <= y < height && 0 <= c < 4
                ==> r@[4 * ((height - 1 - y) * width + (width - 1 - x)) + c] == #[trigger] data@[4
                * (y * width + x) + c],
{
    let img = image::RgbaImage::from_raw(width, height, data).unwrap();
    image::imageops::rotate180(&img).into_raw()
}

/// Wrapped fractional part of a fixed-point coordinate, in `[0, FX_ONE)`.
fn fract(a: i64) -> (r: i64)
    ensures
        r == spec_fract(a),
        0 <= r < FX_ONE,
{
    fx::fx_emod(a, FX_ONE)
}

/// Index of the texel nearest to `t * (extent - 1)`, clamped into the extent.
fn round_index(t: i64, extent: u32) -> (r: u64)
    requires
        extent >= 1,
        0 <= t <= FX_ONE,
    ensures
        r == ({
            let raw = (t as int) * ((extent - 1) as int);
            let rounded = spec_round_to_index(raw);
            if rounded > extent - 1 { (extent - 1) as int } else { rounded }
        }),
        r <= extent - 1,
{
    proof {
        assert((t as int) * ((extent - 1) as int) <= 1_000_000 * 0xFFFF_FFFFu64) by (nonlinear_arith)
            requires
                0 <= t <= 1_000_000,
                0 <= extent - 1 <= 0xFFFF_FFFFu64,
        ;
    }
    let raw: u64 = (t as u64) * ((extent - 1) as u64);
    let rounded: u64 = (raw + 500_000) / 1_000_000;
    if rounded > (extent - 1) as u64 {
        (extent - 1) as u64
    } else {
        rounded
    }
}

} // verus!
