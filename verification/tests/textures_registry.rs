use diorama::color::{Color, ColorOps};
use diorama::fx::FX_ONE;
use diorama::material::{vector3_to_color, Material};
use diorama::texture_manager::TextureManager;
use diorama::textures::Texture;
use diorama::vec3::Vec3;

/// A 2x2 texture with four distinct texels (RGBA rows top to bottom):
/// (10,11,12,13) (20,21,22,23) / (30,31,32,33) (40,41,42,43).
fn quad_texture() -> Texture {
    let data: Vec<u8> = vec![
        10, 11, 12, 13, 20, 21, 22, 23, //
        30, 31, 32, 33, 40, 41, 42, 43,
    ];
    Texture::new(2, 2, data)
}

#[test]
fn sampling_hits_the_nearest_texel_with_v_flipped() {
    let tex = quad_texture();
    // v near 1 is the top row, v near 0 the bottom one.
    assert_eq!(tex.sample((0, 999_999)), Color::new(10, 11, 12, 13));
    assert_eq!(tex.sample((FX_ONE - 1, 999_999)), Color::new(20, 21, 22, 23));
    assert_eq!(tex.sample((0, 0)), Color::new(30, 31, 32, 33));
    assert_eq!(tex.sample((999_999, 1)), Color::new(40, 41, 42, 43));
}

#[test]
fn sampling_wraps_coordinates_outside_the_unit_band() {
    let tex = quad_texture();
    // Whole units wrap away, and u = -0.25 wraps to 0.75.
    assert_eq!(tex.sample((FX_ONE, FX_ONE)), tex.sample((0, 0)));
    assert_eq!(tex.sample((-250_000, 0)), tex.sample((750_000, 0)));
    assert_eq!(tex.sample((2_250_000, 500_000)), tex.sample((250_000, 500_000)));
}

#[test]
fn rotation_reverses_the_texel_grid() {
    let tex = quad_texture();
    let rot = tex.clone().rotated_180();
    assert_eq!(rot.width, 2);
    assert_eq!(rot.height, 2);
    // Texel (0,0) lands at (1,1) and so on: the flat buffer reverses in
    // pixel-sized blocks.
    assert_eq!(
        rot.data,
        vec![
            40, 41, 42, 43, 30, 31, 32, 33, //
            20, 21, 22, 23, 10, 11, 12, 13,
        ]
    );
}

#[test]
fn registry_resolves_and_replaces_keys() {
    let mut tm = TextureManager::default();
    tm.add_texture('a', quad_texture());
    assert_eq!(tm.get_pixel_color('a', 0, 0), Color::new(10, 11, 12, 13));
    assert_eq!(tm.get_pixel_color('a', 1, 1), Color::new(40, 41, 42, 43));
    // Coordinates beyond the texture clamp to its edge.
    assert_eq!(tm.get_pixel_color('a', 9, 9), Color::new(40, 41, 42, 43));
    // Inserting the same key again replaces the texture.
    let solid = Texture::new(1, 1, vec![7, 8, 9, 255]);
    tm.add_texture('a', solid);
    assert_eq!(tm.get_pixel_color('a', 0, 0), Color::new(7, 8, 9, 255));
}

#[test]
fn unknown_key_yields_debug_magenta() {
    let tm = TextureManager::new();
    assert_eq!(tm.get_pixel_color('x', 0, 0), Color::new(255, 0, 255, 255));
}

#[test]
fn textured_material_resolves_through_the_registry() {
    let mut tm = TextureManager::new();
    tm.add_texture('t', quad_texture());
    let mat = Material::with_texture(Vec3::new(FX_ONE, 0, 0), 10, [FX_ONE, 0, 0, 0], 0, 't');
    // (u, v) = (0, 1): top-left texel.
    assert_eq!(mat.color_at(&tm, 0, FX_ONE), Color::new(10, 11, 12, 13));
    // (u, v) = (1, 0): bottom-right texel.
    assert_eq!(mat.color_at(&tm, FX_ONE, 0), Color::new(40, 41, 42, 43));
}

#[test]
fn untextured_key_falls_back_to_flat_base_color() {
    let tm = TextureManager::new();
    let mat = Material::with_texture(Vec3::new(FX_ONE, 500_000, 0), 10, [FX_ONE, 0, 0, 0], 0, 'z');
    assert_eq!(mat.color_at(&tm, 0, 0), Color::new(255, 127, 0, 255));
}

#[test]
fn color_quantization_clamps_and_truncates() {
    assert_eq!(vector3_to_color(Vec3::new(500_000, FX_ONE, 2 * FX_ONE)), Color::new(127, 255, 255, 255));
    assert_eq!(vector3_to_color(Vec3::new(-FX_ONE, 0, FX_ONE)), Color::new(0, 0, 255, 255));
}

#[test]
fn color_scaling_caps_channels() {
    let c = Color::new(100, 200, 30, 77);
    let scaled = c.mult_fx(2 * FX_ONE);
    assert_eq!(scaled, Color::new(200, 255, 60, 77));
    let dimmed = c.mult_fx(500_000);
    assert_eq!(dimmed, Color::new(50, 100, 15, 77));
}
