use diorama::camera::Camera;
use diorama::color::Color;
use diorama::cube::Cube;
use diorama::fx::FX_ONE;
use diorama::light::Light;
use diorama::material::Material;
use diorama::ray_intersect::RayIntersect;
use diorama::render::{cast_ray, cast_shadow, procedural_sky, render, render_pixel};
use diorama::texture_manager::TextureManager;
use diorama::vec3::Vec3;

fn white_light_at(position: Vec3, intensity: i64) -> Light {
    Light::new(position, Color::new(255, 255, 255, 255), intensity)
}

fn matte() -> Material {
    Material::with_texture(Vec3::new(500_000, 500_000, 500_000), 10, [900_000, 100_000, 0, 0], 0, 'w')
}

fn mirror() -> Material {
    Material::with_texture(Vec3::new(FX_ONE, FX_ONE, FX_ONE), 50, [0, 0, FX_ONE, 0], 0, 'q')
}

#[test]
fn sky_gradient_bands_are_exact() {
    // Straight up: t = 1, the blue band.
    assert_eq!(procedural_sky(Vec3::new(0, FX_ONE, 0)), Vec3::new(300_000, 500_000, FX_ONE));
    // Straight down: t = 0, pure green start of the ground ramp.
    assert_eq!(procedural_sky(Vec3::new(0, -FX_ONE, 0)), Vec3::new(100_000, 600_000, 200_000));
    // Level: t = 0.5, inside the ground-to-white ramp with k = 0.909090.
    let level = procedural_sky(Vec3::new(FX_ONE, 0, 0));
    let k: i64 = 909_090;
    let expect = Vec3::new(100_000, 600_000, 200_000)
        .scale(FX_ONE - k)
        .add(Vec3::new(FX_ONE, FX_ONE, FX_ONE).scale(k));
    assert_eq!(level, expect);
}

#[test]
fn ray_missing_every_object_returns_sky() {
    let objects = vec![Cube::new(Vec3::zero(), FX_ONE, matte())];
    let light = white_light_at(Vec3::new(FX_ONE, -FX_ONE, 5 * FX_ONE), 1_500_000);
    let tm = TextureManager::new();
    let origin = Vec3::new(5 * FX_ONE, 0, 5 * FX_ONE);
    let direction = Vec3::new(0, 0, -FX_ONE);
    let c = cast_ray(&origin, &direction, &objects, &light, &tm, 0);
    assert_eq!(c, procedural_sky(direction));
}

#[test]
fn beyond_depth_cutoff_only_the_sky_contributes() {
    // Two fully mirrored cubes facing each other: the recursion must stop at
    // the cutoff rather than bounce forever.
    let objects = vec![
        Cube::new(Vec3::new(0, 0, -2 * FX_ONE), FX_ONE, mirror()),
        Cube::new(Vec3::new(0, 0, 2 * FX_ONE), FX_ONE, mirror()),
    ];
    let light = white_light_at(Vec3::new(0, 5 * FX_ONE, 0), FX_ONE);
    let tm = TextureManager::new();
    let origin = Vec3::new(0, 0, 0);
    let direction = Vec3::new(0, 0, -FX_ONE);
    // Terminates and yields a colour.
    let _ = cast_ray(&origin, &direction, &objects, &light, &tm, 0);
    // At any depth beyond the cutoff the result is exactly the sky.
    let deep = cast_ray(&origin, &direction, &objects, &light, &tm, 4);
    assert_eq!(deep, procedural_sky(direction));
    let deeper = cast_ray(&origin, &direction, &objects, &light, &tm, 17);
    assert_eq!(deeper, procedural_sky(direction));
}

#[test]
fn shadow_is_exactly_zero_without_occluder_and_one_with() {
    let floor = Cube::new(Vec3::zero(), FX_ONE, matte());
    let objects = vec![floor];
    let light = white_light_at(Vec3::new(0, 5 * FX_ONE, 0), 1_500_000);
    // Hit the cube's top face from above.
    let origin = Vec3::new(0, 5 * FX_ONE, 0);
    let direction = Vec3::new(0, -FX_ONE, 0);
    let hit = floor.ray_intersect(&origin, &direction);
    assert!(hit.is_intersecting);
    assert_eq!(cast_shadow(&hit, &light, &objects), 0);

    // A cube strictly between the hit point and the light casts full shadow.
    let occluder = Cube::new(Vec3::new(0, 2 * FX_ONE, 0), FX_ONE, matte());
    let occluded = vec![floor, occluder];
    assert_eq!(cast_shadow(&hit, &light, &occluded), FX_ONE);
}

#[test]
fn lit_face_is_brighter_than_shadowed_one() {
    let floor = Cube::new(Vec3::zero(), FX_ONE, matte());
    let light = white_light_at(Vec3::new(0, 5 * FX_ONE, 0), 1_500_000);
    let tm = TextureManager::new();
    let origin = Vec3::new(0, 5 * FX_ONE, 0);
    let direction = Vec3::new(0, -FX_ONE, 0);

    let lit = cast_ray(&origin, &direction, &vec![floor], &light, &tm, 0);
    let occluder = Cube::new(Vec3::new(0, 2 * FX_ONE, 0), FX_ONE, matte());
    let hit = floor.ray_intersect(&origin, &direction);
    let shadowed = cast_shadow(&hit, &light, &vec![floor, occluder]);
    assert_eq!(shadowed, FX_ONE);
    // With the light fully shadowed the local term vanishes; the lit face
    // keeps a positive diffuse contribution.
    assert!(lit.x > 0 && lit.y > 0 && lit.z > 0);
}

#[test]
fn end_to_end_render_is_deterministic() {
    // Three materials: opaque rough, semi-reflective, glass.
    let rough = Material::with_texture(
        Vec3::new(800_000, 300_000, 300_000),
        10,
        [900_000, 100_000, 0, 0],
        0,
        'r',
    );
    let semi = Material::with_texture(
        Vec3::new(300_000, 300_000, 800_000),
        50,
        [600_000, 300_000, 400_000, 0],
        0,
        's',
    );
    let glass = Material::with_texture(
        Vec3::new(FX_ONE, FX_ONE, FX_ONE),
        125,
        [0, 500_000, 100_000, 800_000],
        1_500_000,
        'g',
    );
    let objects = vec![
        Cube::new(Vec3::new(0, 0, 0), FX_ONE, rough),
        Cube::new(Vec3::new(1_500_000, 0, 0), FX_ONE, semi),
        Cube::new(Vec3::new(-1_500_000, 0, 0), FX_ONE, glass),
    ];
    let camera = Camera::new(
        Vec3::new(0, 0, 5 * FX_ONE),
        Vec3::zero(),
        Vec3::new(0, FX_ONE, 0),
    );
    let light = white_light_at(Vec3::new(FX_ONE, -FX_ONE, 5 * FX_ONE), 1_500_000);
    let tm = TextureManager::new();

    let first = render(4, 4, &objects, &camera, &light, &tm);
    let second = render(4, 4, &objects, &camera, &light, &tm);
    assert_eq!(first.len(), 16);
    assert_eq!(first, second);
    // Pixels agree with the one-pixel entry point, whatever the order they
    // are computed in.
    for idx in 0..16usize {
        let x = (idx % 4) as u32;
        let y = (idx / 4) as u32;
        assert_eq!(first[idx], render_pixel(4, 4, &objects, &camera, &light, &tm, x, y));
    }
}

#[test]
fn head_on_phong_shading_has_the_exact_expected_value() {
    // One cube, light and viewer both straight ahead of the front face, no
    // shadow, no reflection, no refraction: the whole colour is the Phong
    // term and can be computed by hand.
    let rough = Material::with_texture(
        Vec3::new(800_000, 300_000, 300_000),
        10,
        [900_000, 100_000, 0, 0],
        0,
        'r',
    );
    let objects = vec![Cube::new(Vec3::zero(), FX_ONE, rough)];
    let light = white_light_at(Vec3::new(0, 0, 5 * FX_ONE), 1_500_000);
    let tm = TextureManager::new();
    let origin = Vec3::new(0, 0, 5 * FX_ONE);
    let direction = Vec3::new(0, 0, -FX_ONE);
    let c = cast_ray(&origin, &direction, &objects, &light, &tm, 0);
    // Base colour quantizes to (204, 76, 76) and comes back as
    // (0.8, 0.298039, 0.298039); diffuse and specular intensities are both
    // exactly 1.5; the albedo blend gives 0.9 * diffuse + 0.1 * specular.
    assert_eq!(c, Vec3::new(1_230_000, 552_352, 552_352));
}

#[test]
fn center_pixel_sees_the_rough_cube() {
    let rough = Material::with_texture(
        Vec3::new(800_000, 300_000, 300_000),
        10,
        [900_000, 100_000, 0, 0],
        0,
        'r',
    );
    let objects = vec![Cube::new(Vec3::zero(), FX_ONE, rough)];
    let camera = Camera::new(
        Vec3::new(0, 0, 5 * FX_ONE),
        Vec3::zero(),
        Vec3::new(0, FX_ONE, 0),
    );
    let light = white_light_at(Vec3::new(0, 0, 5 * FX_ONE), 1_500_000);
    let tm = TextureManager::new();
    // An odd resolution has no exact center row; use the near-axis ray.
    let direction = Vec3::new(0, 0, -FX_ONE);
    let c = cast_ray(&camera.eye, &direction, &objects, &light, &tm, 0);
    // Head-on lit red-ish cube: red channel dominates and nothing is sky.
    assert!(c.x > c.y && c.x > c.z);
    assert_ne!(c, procedural_sky(direction));
}
