//! Shading parameters of a surface and the resolution of its colour at a hit
//! point.

use vstd::prelude::*;
use crate::color;
use crate::color::Color;
pub use crate::color::vector3_to_color;
use crate::fx;
use crate::fx::FX_ONE;
use crate::texture_manager::TextureManager;
use crate::vec3::Vec3;

verus! {

#[derive(Clone, Copy, Debug)]
pub struct Material {
    /// Flat base colour, used when no texture resolves.
    pub diffuse: Vec3,
    /// Blend weights: diffuse, specular, reflective, transmissive.  They are
    /// used directly as coefficients and are not validated to sum to one.
    pub albedo: [i64; 4],
    /// Specular (Phong) exponent.
    pub specular: u32,
    pub refractive_index: i64,
    /// Identifier of the texture in the registry, if the surface is textured.
    pub texture_key: Option<char>,
}

/// Pixel coordinate for a UV component: the coordinate scaled over the texel
/// range `0 ..= extent-1` and clamped into it.
pub open spec fn spec_tex_coord(a: i64, extent: u32) -> u32 {
    (fx::spec_clamp(
        fx::spec_mul(a, (((extent - 1) as int) * FX_ONE) as i64),
        0,
        (((extent - 1) as int) * FX_ONE) as i64,
    ) as int / (FX_ONE as int)) as u32
}

/// The colour [`Material::color_at`] resolves: the registry texel for the
/// material's texture at the UV coordinates, or the quantized flat base
/// colour when the material is untextured or its key is unregistered.
pub open spec fn spec_color_at(m: Material, tm: TextureManager, u: i64, v: i64) -> Color {
    match m.texture_key {
        Some(k) => match tm.spec_lookup(k) {
            Some(tex) => tm.spec_get_pixel_color(
                k,
                spec_tex_coord(u, tex.width),
                spec_tex_coord(fx::spec_sub(FX_ONE, v), tex.height),
            ),
            None => color::spec_vector3_to_color(m.diffuse),
        },
        None => color::spec_vector3_to_color(m.diffuse),
    }
}

impl Material {
    /// A textured material.
    pub fn with_texture(
        diffuse: Vec3,
        specular: u32,
        albedo: [i64; 4],
        refractive_index: i64,
        key: char,
    ) -> (m: Material)
        ensures
            m == (Material { diffuse, albedo, specular, refractive_index, texture_key: Some(key) }),
    {
        Material { diffuse, albedo, specular, refractive_index, texture_key: Some(key) }
    }

    /// Resolves the surface colour at UV coordinates in `[0, 1]` through the
    /// registry, falling back to the flat base colour.
    pub fn color_at(&self, tm: &TextureManager, u: i64, v: i64) -> (c: Color)
        requires
            tm.wf(),
        ensures
            c == spec_color_at(*self, *tm, u, v),
    {
        if let Some(k) = self.texture_key {
            if let Some(tex) = tm.get(k) {
                proof {
                    crate::texture_manager::lemma_wf_lookup(*tm, k);
                }
                let tx: u32 = tex_coord(u, tex.width);
                let yv: i64 = fx::fx_sub(FX_ONE, v);
                let ty: u32 = tex_coord(yv, tex.height);
                return tm.get_pixel_color(k, tx, ty);
            }
        }
        color::vector3_to_color(self.diffuse)
    }
}

/// Scales a UV component over a texel range and clamps it into the range.
fn tex_coord(a: i64, extent: u32) -> (r: u32)
    requires
        extent >= 1,
    ensures
        r == spec_tex_coord(a, extent),
{
    let em1: i64 = (extent - 1) as i64;
    let range: i64 = em1 * FX_ONE;
    let scaled = fx::fx_mul(a, range);
    let clamped = fx::fx_clamp(scaled, 0, range);
    (((clamped as u64) / 1_000_000u64)) as u32
}

} // verus!
