use diorama::cube::Cube;
use diorama::fx::FX_ONE;
use diorama::material::Material;
use diorama::ray_intersect::{CubeFace, Intersect, RayIntersect};
use diorama::vec3::Vec3;

fn plain_material() -> Material {
    Material::with_texture(Vec3::new(500_000, 500_000, 500_000), 10, [900_000, 100_000, 0, 0], 0, 'w')
}

fn unit_cube_at_origin() -> Cube {
    Cube::new(Vec3::zero(), FX_ONE, plain_material())
}

#[test]
fn slab_hit_on_front_face() {
    let cube = unit_cube_at_origin();
    let origin = Vec3::new(0, 0, 5 * FX_ONE);
    let direction = Vec3::new(0, 0, -FX_ONE);
    let hit = cube.ray_intersect(&origin, &direction);
    assert!(hit.is_intersecting);
    assert_eq!(hit.distance, 4_500_000);
    assert_eq!(hit.point, Vec3::new(0, 0, 500_000));
    assert_eq!(hit.normal, Vec3::new(0, 0, FX_ONE));
    assert_eq!(hit.face, CubeFace::Front);
    assert!(0 <= hit.u && hit.u <= FX_ONE);
    assert!(0 <= hit.v && hit.v <= FX_ONE);
    assert_eq!(hit.u, 500_000);
    assert_eq!(hit.v, 500_000);
}

#[test]
fn parallel_ray_outside_extent_misses() {
    let cube = unit_cube_at_origin();
    // Travels along -z but stands five units off on x: outside the x slab.
    let origin = Vec3::new(5 * FX_ONE, 0, 5 * FX_ONE);
    let direction = Vec3::new(0, 0, -FX_ONE);
    let miss = cube.ray_intersect(&origin, &direction);
    assert!(!miss.is_intersecting);
    assert_eq!(miss.distance, 0);
}

#[test]
fn box_entirely_behind_origin_misses() {
    let cube = unit_cube_at_origin();
    let origin = Vec3::new(0, 0, 5 * FX_ONE);
    // Pointing away from the cube.
    let direction = Vec3::new(0, 0, FX_ONE);
    let miss = cube.ray_intersect(&origin, &direction);
    assert!(!miss.is_intersecting);
}

#[test]
fn edge_hit_resolves_to_first_face_in_precedence() {
    let cube = unit_cube_at_origin();
    // The hit point lies exactly on the edge shared by the Left and Bottom
    // faces: Left is tested first and wins.
    let origin = Vec3::new(-500_000, -500_000, 5 * FX_ONE);
    let direction = Vec3::new(0, 0, -FX_ONE);
    let hit = cube.ray_intersect(&origin, &direction);
    assert!(hit.is_intersecting);
    assert_eq!(hit.face, CubeFace::Left);
    // Same input, same face: the tie-break is deterministic.
    let again = cube.ray_intersect(&origin, &direction);
    assert_eq!(again.face, hit.face);
    assert_eq!(again.point, hit.point);
}

#[test]
fn edge_hit_right_beats_top() {
    let cube = unit_cube_at_origin();
    let origin = Vec3::new(500_000, 500_000, 5 * FX_ONE);
    let direction = Vec3::new(0, 0, -FX_ONE);
    let hit = cube.ray_intersect(&origin, &direction);
    assert!(hit.is_intersecting);
    assert_eq!(hit.face, CubeFace::Right);
}

#[test]
fn side_hit_maps_uv_from_the_non_normal_axes() {
    let cube = unit_cube_at_origin();
    let origin = Vec3::new(-5 * FX_ONE, 250_000, -250_000);
    let direction = Vec3::new(FX_ONE, 0, 0);
    let hit = cube.ray_intersect(&origin, &direction);
    assert!(hit.is_intersecting);
    assert_eq!(hit.face, CubeFace::Left);
    assert_eq!(hit.normal, Vec3::new(-FX_ONE, 0, 0));
    // Left projects z to u and y to v.
    assert_eq!(hit.u, 250_000);
    assert_eq!(hit.v, 750_000);
}

#[test]
fn zero_size_cube_degenerates_to_a_point() {
    // A zero-size box is not guarded against: a ray through its center
    // still reports a hit there, with zero-extent UV projections.
    let cube = Cube::new(Vec3::zero(), 0, plain_material());
    let origin = Vec3::new(0, 0, 5 * FX_ONE);
    let direction = Vec3::new(0, 0, -FX_ONE);
    let hit = cube.ray_intersect(&origin, &direction);
    assert!(hit.is_intersecting);
    assert_eq!(hit.distance, 5 * FX_ONE);
    assert_eq!(hit.point, Vec3::zero());
    assert_eq!(hit.face, CubeFace::Left);
    assert_eq!(hit.u, 0);
    assert_eq!(hit.v, 0);
}

#[test]
fn empty_intersection_is_flagged_not_hit() {
    let empty = Intersect::empty();
    assert!(!empty.is_intersecting);
    assert_eq!(empty.distance, 0);
    assert_eq!(empty.point, Vec3::zero());
}

#[test]
fn vector_algebra_basics() {
    let a = Vec3::new(FX_ONE, 2 * FX_ONE, 3 * FX_ONE);
    let b = Vec3::new(4 * FX_ONE, 5 * FX_ONE, 6 * FX_ONE);
    assert_eq!(a.add(b), Vec3::new(5 * FX_ONE, 7 * FX_ONE, 9 * FX_ONE));
    assert_eq!(a.sub(b), Vec3::new(-3 * FX_ONE, -3 * FX_ONE, -3 * FX_ONE));
    assert_eq!(a.dot(b), 32 * FX_ONE);
    assert_eq!(a.cross(b), Vec3::new(-3 * FX_ONE, 6 * FX_ONE, -3 * FX_ONE));
    assert_eq!(Vec3::new(3 * FX_ONE, 4 * FX_ONE, 0).length(), 5 * FX_ONE);
    assert_eq!(
        Vec3::new(3 * FX_ONE, 4 * FX_ONE, 0).normalized(),
        Vec3::new(600_000, 800_000, 0)
    );
    assert_eq!(Vec3::zero().normalized(), Vec3::zero());
}
