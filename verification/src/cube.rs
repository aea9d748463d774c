//! Axis-aligned cubes and the slab ray-intersection algorithm with face and
//! UV attribution.

use vstd::prelude::*;
use crate::fx;
use crate::fx::FX_ONE;
use crate::material::Material;
use crate::ray_intersect::{CubeFace, Intersect, RayIntersect, spec_empty_intersect};
use crate::vec3;
use crate::vec3::Vec3;

verus! {

/// Absolute tolerance for classifying which boundary plane a hit point lies
/// on (`1e-4` in fixed point).
pub const EPSILON: i64 = 100;

#[derive(Clone, Copy, Debug)]
pub struct Cube {
    pub center: Vec3,
    /// Edge length, uniform in all axes.
    pub size: i64,
    pub material: Material,
}

/// Entry/exit distances of the ray against one axis slab `[mn, mx]`.
/// A ray parallel to the slab (`d == 0`) either misses outright (`None`)
/// or never leaves the slab, which the whole-line interval encodes.
pub open spec fn spec_axis_slab(o: i64, d: i64, mn: i64, mx: i64) -> Option<(i64, i64)> {
    if d == 0 {
        if o < mn || o > mx {
            None
        } else {
            Some((i64::MIN, i64::MAX))
        }
    } else {
        let t1 = fx::spec_div(fx::spec_sub(mn, o), d);
        let t2 = fx::spec_div(fx::spec_sub(mx, o), d);
        if t1 > t2 {
            Some((t2, t1))
        } else {
            Some((t1, t2))
        }
    }
}

/// Lower corner of the cube.
pub open spec fn spec_cube_min(c: Cube) -> Vec3 {
    let half = fx::spec_mul(c.size, 500_000);
    vec3::spec_vsub(c.center, Vec3 { x: half, y: half, z: half })
}

/// Upper corner of the cube.
pub open spec fn spec_cube_max(c: Cube) -> Vec3 {
    let half = fx::spec_mul(c.size, 500_000);
    vec3::spec_vadd(c.center, Vec3 { x: half, y: half, z: half })
}

/// The parametric distance at which the ray meets the cube, if it does:
/// the three per-axis intervals intersected, the entry distance preferred
/// when it lies ahead of the origin, the exit distance otherwise, and the
/// whole hit rejected when even that lies behind.
pub open spec fn spec_cube_hit_t(c: Cube, o: Vec3, d: Vec3) -> Option<i64> {
    let mn = spec_cube_min(c);
    let mx = spec_cube_max(c);
    match spec_axis_slab(o.x, d.x, mn.x, mx.x) {
        None => None,
        Some((txmin, txmax)) => match spec_axis_slab(o.y, d.y, mn.y, mx.y) {
            None => None,
            Some((tymin, tymax)) => if txmin > tymax || tymin > txmax {
                None
            } else {
                let t0 = if tymin > txmin { tymin } else { txmin };
                let t1 = if tymax < txmax { tymax } else { txmax };
                match spec_axis_slab(o.z, d.z, mn.z, mx.z) {
                    None => None,
                    Some((tzmin, tzmax)) => if t0 > tzmax || tzmin > t1 {
                        None
                    } else {
                        let tmin = if tzmin > t0 { tzmin } else { t0 };
                        let tmax = if tzmax < t1 { tzmax } else { t1 };
                        let t = if tmin > 0 { tmin } else { tmax };
                        if t < 0 {
                            None
                        } else {
                            Some(t)
                        }
                    },
                }
            },
        },
    }
}

/// Face attribution at a hit point: each boundary plane is tested within
/// [`EPSILON`] in the fixed order Left, Right, Bottom, Top, Back, with Front
/// the remaining case; the first match wins, which settles hits on edges and
/// corners.  Each face projects its two non-normal axes to UV, normalized by
/// the extent (a zero extent yields UV 0).
pub open spec fn spec_face_attrs(p: Vec3, mn: Vec3, mx: Vec3) -> (Vec3, CubeFace, i64, i64) {
    let ux = fx::spec_div0(fx::spec_sub(p.x, mn.x), fx::spec_sub(mx.x, mn.x));
    let uy = fx::spec_div0(fx::spec_sub(p.y, mn.y), fx::spec_sub(mx.y, mn.y));
    let uz = fx::spec_div0(fx::spec_sub(p.z, mn.z), fx::spec_sub(mx.z, mn.z));
    if fx::spec_abs(fx::spec_sub(p.x, mn.x)) < EPSILON {
        (Vec3 { x: (-FX_ONE) as i64, y: 0, z: 0 }, CubeFace::Left, uz, uy)
    } else if fx::spec_abs(fx::spec_sub(p.x, mx.x)) < EPSILON {
        (Vec3 { x: FX_ONE, y: 0, z: 0 }, CubeFace::Right, uz, uy)
    } else if fx::spec_abs(fx::spec_sub(p.y, mn.y)) < EPSILON {
        (Vec3 { x: 0, y: (-FX_ONE) as i64, z: 0 }, CubeFace::Bottom, ux, uz)
    } else if fx::spec_abs(fx::spec_sub(p.y, mx.y)) < EPSILON {
        (Vec3 { x: 0, y: FX_ONE, z: 0 }, CubeFace::Top, ux, uz)
    } else if fx::spec_abs(fx::spec_sub(p.z, mn.z)) < EPSILON {
        (Vec3 { x: 0, y: 0, z: (-FX_ONE) as i64 }, CubeFace::Back, ux, uy)
    } else {
        (Vec3 { x: 0, y: 0, z: FX_ONE }, CubeFace::Front, ux, uy)
    }
}

/// The full intersection record [`Cube::ray_intersect`] returns.
pub open spec fn spec_cube_intersect(c: Cube, o: Vec3, d: Vec3) -> Intersect {
    match spec_cube_hit_t(c, o, d) {
        None => spec_empty_intersect(),
        Some(t) => {
            let mn = spec_cube_min(c);
            let mx = spec_cube_max(c);
            let p = vec3::spec_vadd(o, vec3::spec_vscale(d, t));
            let (normal, face, u, v) = spec_face_attrs(p, mn, mx);
            Intersect {
                point: p,
                normal,
                distance: t,
                is_intersecting: true,
                material: c.material,
                u,
                v,
                face,
            }
        },
    }
}

/// A ray that runs parallel to some axis while its origin lies outside the
/// cube's extent on that axis cannot cross the cube: the test reports a
/// miss, never a poisoned hit.
pub proof fn lemma_parallel_outside_misses(c: Cube, o: Vec3, d: Vec3)
    requires
        (d.x == 0 && (o.x < spec_cube_min(c).x || o.x > spec_cube_max(c).x)) || (d.y == 0 && (o.y
            < spec_cube_min(c).y || o.y > spec_cube_max(c).y)) || (d.z == 0 && (o.z
            < spec_cube_min(c).z || o.z > spec_cube_max(c).z)),
    ensures
        !spec_cube_intersect(c, o, d).is_intersecting,
        spec_cube_intersect(c, o, d) == spec_empty_intersect(),
{
}

/// Face attribution is settled by the fixed precedence order: a hit point
/// within the tolerance of an earlier-tested plane takes that plane's face,
/// whatever later planes it also grazes.  The same point always resolves to
/// the same face.
pub proof fn lemma_face_precedence(p: Vec3, mn: Vec3, mx: Vec3)
    ensures
        fx::spec_abs(fx::spec_sub(p.x, mn.x)) < EPSILON ==> spec_face_attrs(p, mn, mx).1
            == CubeFace::Left,
        fx::spec_abs(fx::spec_sub(p.x, mn.x)) >= EPSILON && fx::spec_abs(fx::spec_sub(p.x, mx.x))
            < EPSILON ==> spec_face_attrs(p, mn, mx).1 == CubeFace::Right,
        fx::spec_abs(fx::spec_sub(p.x, mn.x)) >= EPSILON && fx::spec_abs(fx::spec_sub(p.x, mx.x))
            >= EPSILON && fx::spec_abs(fx::spec_sub(p.y, mn.y)) < EPSILON ==> spec_face_attrs(
            p,
            mn,
            mx,
        ).1 == CubeFace::Bottom,
        fx::spec_abs(fx::spec_sub(p.x, mn.x)) >= EPSILON && fx::spec_abs(fx::spec_sub(p.x, mx.x))
            >= EPSILON && fx::spec_abs(fx::spec_sub(p.y, mn.y)) >= EPSILON && fx::spec_abs(
            fx::spec_sub(p.y, mx.y),
        ) < EPSILON ==> spec_face_attrs(p, mn, mx).1 == CubeFace::Top,
        fx::spec_abs(fx::spec_sub(p.x, mn.x)) >= EPSILON && fx::spec_abs(fx::spec_sub(p.x, mx.x))
            >= EPSILON && fx::spec_abs(fx::spec_sub(p.y, mn.y)) >= EPSILON && fx::spec_abs(
            fx::spec_sub(p.y, mx.y),
        ) >= EPSILON && fx::spec_abs(fx::spec_sub(p.z, mn.z)) < EPSILON ==> spec_face_attrs(
            p,
            mn,
            mx,
        ).1 == CubeFace::Back,
        fx::spec_abs(fx::spec_sub(p.x, mn.x)) >= EPSILON && fx::spec_abs(fx::spec_sub(p.x, mx.x))
            >= EPSILON && fx::spec_abs(fx::spec_sub(p.y, mn.y)) >= EPSILON && fx::spec_abs(
            fx::spec_sub(p.y, mx.y),
        ) >= EPSILON && fx::spec_abs(fx::spec_sub(p.z, mn.z)) >= EPSILON ==> spec_face_attrs(
            p,
            mn,
            mx,
        ).1 == CubeFace::Front,
{
}

impl Cube {
    pub fn new(center: Vec3, size: i64, material: Material) -> (c: Cube)
        ensures
            c == (Cube { center, size, material }),
    {
        Cube { center, size, material }
    }
}

/// Entry/exit distances of the ray against one axis slab, or `None` for a
/// parallel ray outside it.
fn axis_slab(o: i64, d: i64, mn: i64, mx: i64) -> (r: Option<(i64, i64)>)
    ensures
        r == spec_axis_slab(o, d, mn, mx),
{
    if d == 0 {
        if o < mn || o > mx {
            None
        } else {
            Some((i64::MIN, i64::MAX))
        }
    } else {
        let t1 = fx::fx_div(fx::fx_sub(mn, o), d);
        let t2 = fx::fx_div(fx::fx_sub(mx, o), d);
        if t1 > t2 {
            Some((t2, t1))
        } else {
            Some((t1, t2))
        }
    }
}

impl RayIntersect for Cube {
    open spec fn spec_ray_intersect(self, ray_origin: Vec3, ray_direction: Vec3) -> Intersect {
        spec_cube_intersect(self, ray_origin, ray_direction)
    }

    /// Slab intersection: the ray's entry/exit interval is intersected over
    /// the three axis slabs; an empty interval or a box entirely behind the
    /// origin is a miss.  On a hit the face is attributed by plane proximity
    /// in fixed precedence order.
    fn ray_intersect(&self, ray_origin: &Vec3, ray_direction: &Vec3) -> (r: Intersect)
        ensures
            r == self.spec_ray_intersect(*ray_origin, *ray_direction),
            r.is_intersecting <==> spec_cube_hit_t(*self, *ray_origin, *ray_direction) is Some,
            r.is_intersecting ==> r.distance >= 0 && r.material == self.material,
            !r.is_intersecting ==> r == spec_empty_intersect(),
    {
        let o = *ray_origin;
        let d = *ray_direction;
        let half = fx::fx_mul(self.size, 500_000);
        let half_v = Vec3 { x: half, y: half, z: half };
        let mn = self.center.sub(half_v);
        let mx = self.center.add(half_v);

        let (mut tmin, mut tmax) = match axis_slab(o.x, d.x, mn.x, mx.x) {
            Some(i) => i,
            None => {
                return Intersect::empty();
            },
        };
        let (tymin, tymax) = match axis_slab(o.y, d.y, mn.y, mx.y) {
            Some(i) => i,
            None => {
                return Intersect::empty();
            },
        };
        if tmin > tymax || tymin > tmax {
            return Intersect::empty();
        }
        if tymin > tmin {
            tmin = tymin;
        }
        if tymax < tmax {
            tmax = tymax;
        }

        let (tzmin, tzmax) = match axis_slab(o.z, d.z, mn.z, mx.z) {
            Some(i) => i,
            None => {
                return Intersect::empty();
            },
        };
        if tmin > tzmax || tzmin > tmax {
            return Intersect::empty();
        }
        if tzmin > tmin {
            tmin = tzmin;
        }
        if tzmax < tmax {
            tmax = tzmax;
        }

        let t = if tmin > 0 { tmin } else { tmax };
        if t < 0 {
            return Intersect::empty();
        }

        let point = o.add(d.scale(t));

        let ux = fx::fx_div0(fx::fx_sub(point.x, mn.x), fx::fx_sub(mx.x, mn.x));
        let uy = fx::fx_div0(fx::fx_sub(point.y, mn.y), fx::fx_sub(mx.y, mn.y));
        let uz = fx::fx_div0(fx::fx_sub(point.z, mn.z), fx::fx_sub(mx.z, mn.z));

        let (normal, face, u, v) = if fx::fx_abs(fx::fx_sub(point.x, mn.x)) < EPSILON {
            (Vec3::new(-FX_ONE, 0, 0), CubeFace::Left, uz, uy)
        } else if fx::fx_abs(fx::fx_sub(point.x, mx.x)) < EPSILON {
            (Vec3::new(FX_ONE, 0, 0), CubeFace::Right, uz, uy)
        } else if fx::fx_abs(fx::fx_sub(point.y, mn.y)) < EPSILON {
            (Vec3::new(0, -FX_ONE, 0), CubeFace::Bottom, ux, uz)
        } else if fx::fx_abs(fx::fx_sub(point.y, mx.y)) < EPSILON {
            (Vec3::new(0, FX_ONE, 0), CubeFace::Top, ux, uz)
        } else if fx::fx_abs(fx::fx_sub(point.z, mn.z)) < EPSILON {
            (Vec3::new(0, 0, -FX_ONE), CubeFace::Back, ux, uy)
        } else {
            (Vec3::new(0, 0, FX_ONE), CubeFace::Front, ux, uy)
        };

        Intersect::new(point, normal, t, self.material, u, v, face)
    }
}

} // verus!
