//! The intersection record shared by all geometry, the face tags of a cube,
//! and the capability a shape offers to the ray tracer.

use vstd::prelude::*;
use crate::fx::FX_ONE;
use crate::material::Material;
use crate::vec3::Vec3;

verus! {

/// The six faces of an axis-aligned cube.
#[derive(Clone, Copy, Debug, PartialEq, Eq, Structural)]
pub enum CubeFace {
    Front,
    Back,
    Left,
    Right,
    Top,
    Bottom,
}

/// Result of a ray/shape intersection test: hit flag, hit point, outward
/// face normal, parametric distance along the ray, a snapshot of the
/// material, face-local UV coordinates and the face tag.
#[derive(Clone, Copy, Debug)]
pub struct Intersect {
    pub point: Vec3,
    pub normal: Vec3,
    pub distance: i64,
    pub is_intersecting: bool,
    pub material: Material,
    pub u: i64,
    pub v: i64,
    pub face: CubeFace,
}

/// The sentinel record for "no hit": all-zero geometry, a black untextured
/// material, and the `Front` tag as a placeholder.
pub open spec fn spec_empty_intersect() -> Intersect {
    Intersect {
        point: Vec3 { x: 0, y: 0, z: 0 },
        normal: Vec3 { x: 0, y: 0, z: 0 },
        distance: 0,
        is_intersecting: false,
        material: Material {
            diffuse: Vec3 { x: 0, y: 0, z: 0 },
            albedo: [0i64, 0i64, 0i64, 0i64],
            specular: 0,
            refractive_index: FX_ONE,
            texture_key: Some('b'),
        },
        u: 0,
        v: 0,
        face: CubeFace::Front,
    }
}

impl Intersect {
    /// A filled record; the hit flag is set.
    pub fn new(
        point: Vec3,
        normal: Vec3,
        distance: i64,
        material: Material,
        u: i64,
        v: i64,
        face: CubeFace,
    ) -> (r: Intersect)
        ensures
            r == (Intersect { point, normal, distance, is_intersecting: true, material, u, v, face }),
    {
        Intersect { point, normal, distance, is_intersecting: true, material, u, v, face }
    }

    /// The "no hit" sentinel.
    pub fn empty() -> (r: Intersect)
        ensures
            r == spec_empty_intersect(),
    {
        Intersect {
            point: Vec3::zero(),
            normal: Vec3::zero(),
            distance: 0,
            is_intersecting: false,
            material: Material::with_texture(Vec3::zero(), 0, [0i64, 0i64, 0i64, 0i64], FX_ONE, 'b'),
            u: 0,
            v: 0,
            face: CubeFace::Front,
        }
    }
}

/// A shape the ray tracer can scan: one operation, deciding whether and
/// where a ray meets the shape.
pub trait RayIntersect {
    /// Model of [`RayIntersect::ray_intersect`] at the specification level.
    spec fn spec_ray_intersect(self, ray_origin: Vec3, ray_direction: Vec3) -> Intersect;

    fn ray_intersect(&self, ray_origin: &Vec3, ray_direction: &Vec3) -> (r: Intersect)
        ensures
            r == self.spec_ray_intersect(*ray_origin, *ray_direction),
    ;
}

} // verus!
