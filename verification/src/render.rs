//! Shading and light transport: the procedural sky, shadow test, Phong
//! shading, recursive reflection and refraction with a hard depth cutoff,
//! and the per-pixel primary-ray generation.

use vstd::prelude::*;
use crate::camera;
use crate::camera::Camera;
use crate::color;
use crate::color::Color;
use crate::cube::{Cube, spec_cube_intersect};
use crate::fx;
use crate::fx::FX_ONE;
use crate::light::Light;
use crate::material;
use crate::ray_intersect::{Intersect, RayIntersect, spec_empty_intersect};
use crate::texture_manager::TextureManager;
use crate::trig;
use crate::vec3;
use crate::vec3::Vec3;

verus! {

/// Offset applied to secondary-ray origins along the surface normal, so a
/// ray leaving a surface cannot immediately hit it again through rounding.
pub const ORIGIN_BIAS: i64 = 100;

/// Recursion bound: rays deeper than this return the sky directly.
pub const MAX_DEPTH: u32 = 3;

/// The sky gradient: green ground band, white horizon haze, blue sky,
/// blended by the normalized direction's upward component through linear
/// ramps.
pub open spec fn spec_procedural_sky(dir: Vec3) -> Vec3 {
    let d = vec3::spec_normalized(dir);
    let t = fx::spec_mul(fx::spec_add(d.y, FX_ONE), 500_000);
    let green = Vec3 { x: 100_000, y: 600_000, z: 200_000 };
    let white = Vec3 { x: FX_ONE, y: FX_ONE, z: FX_ONE };
    let blue = Vec3 { x: 300_000, y: 500_000, z: FX_ONE };
    if t < 540_000 {
        let k = fx::spec_div(t, 550_000);
        vec3::spec_vadd(
            vec3::spec_vscale(green, fx::spec_sub(FX_ONE, k)),
            vec3::spec_vscale(white, k),
        )
    } else if t < 550_000 {
        white
    } else if t < 800_000 {
        let k = fx::spec_div(fx::spec_sub(t, 550_000), 250_000);
        vec3::spec_vadd(
            vec3::spec_vscale(white, fx::spec_sub(FX_ONE, k)),
            vec3::spec_vscale(blue, k),
        )
    } else {
        blue
    }
}

/// Secondary-ray origin: the hit point pushed [`ORIGIN_BIAS`] along the
/// normal, on whichever side the new ray continues.
pub open spec fn spec_offset_origin(it: Intersect, direction: Vec3) -> Vec3 {
    let offset = vec3::spec_vscale(it.normal, ORIGIN_BIAS);
    if vec3::spec_dot(direction, it.normal) < 0 {
        vec3::spec_vsub(it.point, offset)
    } else {
        vec3::spec_vadd(it.point, offset)
    }
}

/// Mirror reflection of `incident` about `normal`.
pub open spec fn spec_reflect(incident: Vec3, normal: Vec3) -> Vec3 {
    vec3::spec_vsub(
        incident,
        vec3::spec_vscale(
            vec3::spec_vscale(normal, (2 * FX_ONE) as i64),
            vec3::spec_dot(incident, normal),
        ),
    )
}

/// Snell refraction of `incident` through a surface with the given index,
/// entering or exiting by the sign of the incidence cosine; `None` on total
/// internal reflection (a zero index, whose ratio diverges, refracts
/// nothing either).
pub open spec fn spec_refract(incident: Vec3, normal: Vec3, refractive_index: i64) -> Option<
    Vec3,
> {
    let cosi0 = fx::spec_min(fx::spec_max(vec3::spec_dot(incident, normal), (-FX_ONE) as i64), FX_ONE);
    let (cosi, etai, etat, n) = if cosi0 > 0 {
        (cosi0, refractive_index, FX_ONE, vec3::spec_vneg(normal))
    } else {
        (fx::spec_neg(cosi0), FX_ONE, refractive_index, normal)
    };
    if etat == 0 {
        None
    } else {
        let eta = fx::spec_div(etai, etat);
        let k = fx::spec_sub(
            FX_ONE,
            fx::spec_mul(fx::spec_mul(eta, eta), fx::spec_sub(FX_ONE, fx::spec_mul(cosi, cosi))),
        );
        if k < 0 {
            None
        } else {
            Some(
                vec3::spec_vadd(
                    vec3::spec_vscale(incident, eta),
                    vec3::spec_vscale(n, fx::spec_sub(fx::spec_mul(eta, cosi), fx::spec_sqrt(k))),
                ),
            )
        }
    }
}

/// Iterated fixed-point power with a natural exponent, for the Phong
/// specular term.
pub open spec fn spec_pow(base: i64, e: nat) -> i64
    decreases e,
{
    if e == 0 {
        FX_ONE
    } else {
        fx::spec_mul(spec_pow(base, (e - 1) as nat), base)
    }
}

/// One 8-bit channel as a 0..1 fixed-point value.
pub open spec fn spec_channel_unit(ch: u8) -> i64 {
    fx::spec_div(((ch as int) * FX_ONE) as i64, (255 * FX_ONE) as i64)
}

/// An 8-bit colour as a 0..1 linear vector (alpha dropped).
pub open spec fn spec_color_unit(c: Color) -> Vec3 {
    Vec3 { x: spec_channel_unit(c.r), y: spec_channel_unit(c.g), z: spec_channel_unit(c.b) }
}

/// Whether `c` stands between the shadow-ray origin and the light: the
/// shadow ray meets it at a distance short of the light.
pub open spec fn spec_occludes(c: Cube, origin: Vec3, dir: Vec3, light_distance: i64) -> bool {
    let s = spec_cube_intersect(c, origin, dir);
    s.is_intersecting && s.distance < light_distance
}

/// What [`cast_shadow`] returns: full shadow (one) exactly when some cube
/// occludes the light from the hit point, none (zero) otherwise.  Shadows
/// are binary; there is no partial occlusion.
pub open spec fn spec_cast_shadow(it: Intersect, light: Light, scene: Seq<Cube>) -> i64 {
    let rel = vec3::spec_vsub(light.position, it.point);
    let light_dir = vec3::spec_normalized(rel);
    let light_distance = vec3::spec_length(rel);
    let origin = spec_offset_origin(it, light_dir);
    if exists|i: int|
        0 <= i < scene.len() && #[trigger] spec_occludes(scene[i], origin, light_dir, light_distance) {
        FX_ONE
    } else {
        0
    }
}

/// The nearest-hit scan from object `i` on, carrying the best record and
/// its distance: each object's intersection replaces the best exactly when
/// it hits strictly nearer.
pub open spec fn spec_scan(
    scene: Seq<Cube>,
    o: Vec3,
    d: Vec3,
    i: int,
    best: Intersect,
    zbuffer: i64,
) -> Intersect
    decreases scene.len() - i,
{
    if i < 0 || i >= scene.len() {
        best
    } else {
        let s = spec_cube_intersect(scene[i], o, d);
        if s.is_intersecting && s.distance < zbuffer {
            spec_scan(scene, o, d, i + 1, s, s.distance)
        } else {
            spec_scan(scene, o, d, i + 1, best, zbuffer)
        }
    }
}

/// The nearest intersection of the ray with the scene, or the empty record.
pub open spec fn spec_nearest(scene: Seq<Cube>, o: Vec3, d: Vec3) -> Intersect {
    spec_scan(scene, o, d, 0, spec_empty_intersect(), i64::MAX)
}

/// The colour [`cast_ray`] computes.  Beyond the depth cutoff, and on a
/// miss, it is the sky for the ray's direction; otherwise Phong shading at
/// the nearest hit, shadow-attenuated, plus the recursive reflection and
/// refraction contributions blended by the albedo weights.
pub open spec fn spec_cast_ray(
    o: Vec3,
    d: Vec3,
    scene: Seq<Cube>,
    light: Light,
    tm: TextureManager,
    depth: u32,
) -> Vec3
    decreases 4int - depth,
{
    if depth > MAX_DEPTH {
        spec_procedural_sky(d)
    } else {
        let it = spec_nearest(scene, o, d);
        if !it.is_intersecting {
            spec_procedural_sky(d)
        } else {
            let light_dir = vec3::spec_normalized(vec3::spec_vsub(light.position, it.point));
            let view_dir = vec3::spec_normalized(vec3::spec_vsub(o, it.point));
            let reflect_dir = vec3::spec_normalized(
                spec_reflect(vec3::spec_vneg(light_dir), it.normal),
            );
            let shadow_intensity = spec_cast_shadow(it, light, scene);
            let light_intensity = fx::spec_mul(
                light.intensity,
                fx::spec_sub(FX_ONE, shadow_intensity),
            );
            let diffuse_intensity = fx::spec_mul(
                fx::spec_max(vec3::spec_dot(it.normal, light_dir), 0),
                light_intensity,
            );
            let tex_v3 = spec_color_unit(material::spec_color_at(it.material, tm, it.u, it.v));
            let diffuse = vec3::spec_vscale(tex_v3, diffuse_intensity);
            let specular_intensity = fx::spec_mul(
                spec_pow(
                    fx::spec_max(vec3::spec_dot(view_dir, reflect_dir), 0),
                    it.material.specular as nat,
                ),
                light_intensity,
            );
            let specular = vec3::spec_vscale(spec_color_unit(light.color), specular_intensity);
            let albedo = it.material.albedo;
            let phong = vec3::spec_vadd(
                vec3::spec_vscale(diffuse, albedo[0]),
                vec3::spec_vscale(specular, albedo[1]),
            );
            let reflectivity = albedo[2];
            let reflect_color = if reflectivity > 0 {
                let rdir = vec3::spec_normalized(spec_reflect(d, it.normal));
                let rorig = spec_offset_origin(it, rdir);
                spec_cast_ray(rorig, rdir, scene, light, tm, (depth + 1) as u32)
            } else {
                Vec3 { x: 0, y: 0, z: 0 }
            };
            let transparency = albedo[3];
            let refract_color = if transparency > 0 {
                match spec_refract(d, it.normal, it.material.refractive_index) {
                    Some(refr_dir) => {
                        let rorig = spec_offset_origin(it, refr_dir);
                        spec_cast_ray(rorig, refr_dir, scene, light, tm, (depth + 1) as u32)
                    },
                    None => {
                        let rdir = vec3::spec_normalized(spec_reflect(d, it.normal));
                        let rorig = spec_offset_origin(it, rdir);
                        spec_cast_ray(rorig, rdir, scene, light, tm, (depth + 1) as u32)
                    },
                }
            } else {
                Vec3 { x: 0, y: 0, z: 0 }
            };
            vec3::spec_vadd(
                vec3::spec_vadd(
                    vec3::spec_vscale(
                        phong,
                        fx::spec_sub(fx::spec_sub(FX_ONE, reflectivity), transparency),
                    ),
                    vec3::spec_vscale(reflect_color, reflectivity),
                ),
                vec3::spec_vscale(refract_color, transparency),
            )
        }
    }
}

/// Beyond the depth cutoff the transport contributes exactly the sky colour
/// for the ray's direction: recursion terminates at the cutoff whatever the
/// scene, however mirrored.
pub proof fn lemma_cast_ray_depth_cutoff(
    o: Vec3,
    d: Vec3,
    scene: Seq<Cube>,
    light: Light,
    tm: TextureManager,
    depth: u32,
)
    requires
        depth > MAX_DEPTH,
    ensures
        spec_cast_ray(o, d, scene, light, tm, depth) == spec_procedural_sky(d),
{
}

/// With no cube standing between the hit point and the light the shadow
/// intensity is exactly zero; with any occluder strictly short of the light
/// on the shadow ray it is exactly one.
pub proof fn lemma_shadow_binary(it: Intersect, light: Light, scene: Seq<Cube>)
    ensures
        (forall|i: int|
            0 <= i < scene.len() ==> !#[trigger] spec_occludes(
                scene[i],
                spec_offset_origin(
                    it,
                    vec3::spec_normalized(vec3::spec_vsub(light.position, it.point)),
                ),
                vec3::spec_normalized(vec3::spec_vsub(light.position, it.point)),
                vec3::spec_length(vec3::spec_vsub(light.position, it.point)),
            )) ==> spec_cast_shadow(it, light, scene) == 0,
        (exists|i: int|
            0 <= i < scene.len() && #[trigger] spec_occludes(
                scene[i],
                spec_offset_origin(
                    it,
                    vec3::spec_normalized(vec3::spec_vsub(light.position, it.point)),
                ),
                vec3::spec_normalized(vec3::spec_vsub(light.position, it.point)),
                vec3::spec_length(vec3::spec_vsub(light.position, it.point)),
            )) ==> spec_cast_shadow(it, light, scene) == FX_ONE,
{
}

/// A scan whose remaining objects all miss keeps the record it carries.
proof fn lemma_scan_all_miss(
    scene: Seq<Cube>,
    o: Vec3,
    d: Vec3,
    i: int,
    best: Intersect,
    zbuffer: i64,
)
    requires
        forall|j: int|
            i <= j < scene.len() ==> !(#[trigger] spec_cube_intersect(scene[j], o, d)).is_intersecting,
    ensures
        spec_scan(scene, o, d, i, best, zbuffer) == best,
    decreases scene.len() - i,
{
    if 0 <= i < scene.len() {
        lemma_scan_all_miss(scene, o, d, i + 1, best, zbuffer);
    }
}

/// A ray that meets no cube of the scene yields exactly the sky colour for
/// its direction.
pub proof fn lemma_miss_gives_sky(
    o: Vec3,
    d: Vec3,
    scene: Seq<Cube>,
    light: Light,
    tm: TextureManager,
    depth: u32,
)
    requires
        forall|i: int|
            0 <= i < scene.len() ==> !(#[trigger] spec_cube_intersect(scene[i], o, d)).is_intersecting,
    ensures
        spec_cast_ray(o, d, scene, light, tm, depth) == spec_procedural_sky(d),
{
    if depth <= MAX_DEPTH {
        lemma_scan_all_miss(scene, o, d, 0, spec_empty_intersect(), i64::MAX);
    }
}

/// The sky colour for a ray that hits nothing.
pub fn procedural_sky(dir: Vec3) -> (c: Vec3)
    ensures
        c == spec_procedural_sky(dir),
{
    let d = dir.normalized();
    let t = fx::fx_mul(fx::fx_add(d.y, FX_ONE), 500_000);
    let green = Vec3::new(100_000, 600_000, 200_000);
    let white = Vec3::new(FX_ONE, FX_ONE, FX_ONE);
    let blue = Vec3::new(300_000, 500_000, FX_ONE);
    if t < 540_000 {
        let k = fx::fx_div(t, 550_000);
        green.scale(fx::fx_sub(FX_ONE, k)).add(white.scale(k))
    } else if t < 550_000 {
        white
    } else if t < 800_000 {
        let k = fx::fx_div(fx::fx_sub(t, 550_000), 250_000);
        white.scale(fx::fx_sub(FX_ONE, k)).add(blue.scale(k))
    } else {
        blue
    }
}

/// Pushes a secondary ray's origin off the surface along the normal.
pub fn offset_origin(intersect: &Intersect, direction: &Vec3) -> (o: Vec3)
    ensures
        o == spec_offset_origin(*intersect, *direction),
{
    let offset = intersect.normal.scale(ORIGIN_BIAS);
    if direction.dot(intersect.normal) < 0 {
        intersect.point.sub(offset)
    } else {
        intersect.point.add(offset)
    }
}

/// Mirror reflection of `incident` about `normal`.
pub fn reflect(incident: &Vec3, normal: &Vec3) -> (r: Vec3)
    ensures
        r == spec_reflect(*incident, *normal),
{
    incident.sub(normal.scale(2 * FX_ONE).scale(incident.dot(*normal)))
}

/// Snell refraction, or `None` on total internal reflection.
pub fn refract(incident: &Vec3, normal: &Vec3, refractive_index: i64) -> (r: Option<Vec3>)
    ensures
        r == spec_refract(*incident, *normal, refractive_index),
{
    let cosi0 = fx::fx_min(fx::fx_max(incident.dot(*normal), -FX_ONE), FX_ONE);
    let (cosi, etai, etat, n) = if cosi0 > 0 {
        (cosi0, refractive_index, FX_ONE, normal.neg())
    } else {
        (fx::fx_neg(cosi0), FX_ONE, refractive_index, *normal)
    };
    if etat == 0 {
        return None;
    }
    let eta = fx::fx_div(etai, etat);
    let k = fx::fx_sub(
        FX_ONE,
        fx::fx_mul(fx::fx_mul(eta, eta), fx::fx_sub(FX_ONE, fx::fx_mul(cosi, cosi))),
    );
    if k < 0 {
        None
    } else {
        Some(incident.scale(eta).add(n.scale(fx::fx_sub(fx::fx_mul(eta, cosi), fx::fx_sqrt(k)))))
    }
}

/// Iterated fixed-point power.
fn fx_pow(base: i64, e: u32) -> (r: i64)
    ensures
        r == spec_pow(base, e as nat),
{
    let mut acc: i64 = FX_ONE;
    let mut i: u32 = 0;
    while i < e
        invariant
            i <= e,
            acc == spec_pow(base, i as nat),
        decreases e - i,
    {
        acc = fx::fx_mul(acc, base);
        i = i + 1;
    }
    acc
}

/// One 8-bit channel as a 0..1 fixed-point value.
fn channel_unit(ch: u8) -> (r: i64)
    ensures
        r == spec_channel_unit(ch),
{
    fx::fx_div((ch as i64) * FX_ONE, 255 * FX_ONE)
}

/// An 8-bit colour as a 0..1 linear vector.
fn color_unit(c: Color) -> (r: Vec3)
    ensures
        r == spec_color_unit(c),
{
    Vec3 { x: channel_unit(c.r), y: channel_unit(c.g), z: channel_unit(c.b) }
}

/// Tests whether anything occludes the light from the hit point: one ray
/// from the biased hit point toward the light, stopping at the first cube
/// met short of the light.  Exactly zero with a free line to the light,
/// exactly one otherwise.
pub fn cast_shadow(intersect: &Intersect, light: &Light, objects: &Vec<Cube>) -> (r: i64)
    ensures
        r == spec_cast_shadow(*intersect, *light, objects@),
        r == 0 || r == FX_ONE,
{
    let rel = light.position.sub(intersect.point);
    let light_dir = rel.normalized();
    let light_distance = rel.length();

    let shadow_ray_origin = offset_origin(intersect, &light_dir);

    let n = objects.len();
    let mut i: usize = 0;
    while i < n
        invariant
            i <= n,
            n == objects@.len(),
            forall|j: int|
                0 <= j < i ==> !#[trigger] spec_occludes(
                    objects@[j],
                    shadow_ray_origin,
                    light_dir,
                    light_distance,
                ),
        decreases n - i,
    {
        let shadow_intersect = objects[i].ray_intersect(&shadow_ray_origin, &light_dir);
        if shadow_intersect.is_intersecting && shadow_intersect.distance < light_distance {
            proof {
                assert(spec_occludes(objects@[i as int], shadow_ray_origin, light_dir,
                    light_distance));
            }
            return FX_ONE;
        }
        i = i + 1;
    }
    0
}

/// Traces a ray through the scene: nearest hit, local Phong shading with a
/// binary shadow, then recursive reflection and refraction until the depth
/// cutoff, where the sky takes over.
pub fn cast_ray(
    ray_origin: &Vec3,
    ray_direction: &Vec3,
    objects: &Vec<Cube>,
    light: &Light,
    tm: &TextureManager,
    depth: u32,
) -> (c: Vec3)
    requires
        tm.wf(),
    ensures
        c == spec_cast_ray(*ray_origin, *ray_direction, objects@, *light, *tm, depth),
        depth > MAX_DEPTH ==> c == spec_procedural_sky(*ray_direction),
    decreases 4int - depth,
{
    if depth > MAX_DEPTH {
        return procedural_sky(*ray_direction);
    }

    let o = *ray_origin;
    let d = *ray_direction;

    let mut intersect = Intersect::empty();
    let mut zbuffer: i64 = i64::MAX;

    let n = objects.len();
    let mut i: usize = 0;
    while i < n
        invariant
            i <= n,
            n == objects@.len(),
            spec_scan(objects@, o, d, i as int, intersect, zbuffer) == spec_nearest(objects@, o, d),
        decreases n - i,
    {
        let s = objects[i].ray_intersect(&o, &d);
        if s.is_intersecting && s.distance < zbuffer {
            zbuffer = s.distance;
            intersect = s;
        }
        i = i + 1;
    }
    proof {
        assert(intersect == spec_nearest(objects@, o, d));
    }

    if !intersect.is_intersecting {
        return procedural_sky(d);
    }

    let light_dir = light.position.sub(intersect.point).normalized();
    let view_dir = o.sub(intersect.point).normalized();
    let reflect_dir = reflect(&light_dir.neg(), &intersect.normal).normalized();

    let shadow_intensity = cast_shadow(&intersect, light, objects);
    let light_intensity = fx::fx_mul(light.intensity, fx::fx_sub(FX_ONE, shadow_intensity));

    let diffuse_intensity = fx::fx_mul(
        fx::fx_max(intersect.normal.dot(light_dir), 0),
        light_intensity,
    );

    let tex_color = intersect.material.color_at(tm, intersect.u, intersect.v);
    let tex_v3 = color_unit(tex_color);
    let diffuse = tex_v3.scale(diffuse_intensity);

    let specular_intensity = fx::fx_mul(
        fx_pow(fx::fx_max(view_dir.dot(reflect_dir), 0), intersect.material.specular),
        light_intensity,
    );
    let specular = color_unit(light.color).scale(specular_intensity);

    let albedo = intersect.material.albedo;
    let phong_color = diffuse.scale(albedo[0]).add(specular.scale(albedo[1]));

    let reflectivity = albedo[2];
    let reflect_color = if reflectivity > 0 {
        let rdir = reflect(&d, &intersect.normal).normalized();
        let rorig = offset_origin(&intersect, &rdir);
        cast_ray(&rorig, &rdir, objects, light, tm, depth + 1)
    } else {
        Vec3::zero()
    };

    let transparency = albedo[3];
    let refract_color = if transparency > 0 {
        if let Some(refr_dir) = refract(&d, &intersect.normal, intersect.material.refractive_index) {
            let rorig = offset_origin(&intersect, &refr_dir);
            cast_ray(&rorig, &refr_dir, objects, light, tm, depth + 1)
        } else {
            let rdir = reflect(&d, &intersect.normal).normalized();
            let rorig = offset_origin(&intersect, &rdir);
            cast_ray(&rorig, &rdir, objects, light, tm, depth + 1)
        }
    } else {
        Vec3::zero()
    };

    phong_color.scale(fx::fx_sub(fx::fx_sub(FX_ONE, reflectivity), transparency)).add(
        reflect_color.scale(reflectivity),
    ).add(refract_color.scale(transparency))
}

/// Vertical field of view (pi/3 in fixed-point radians).
pub const FOV_FX: i64 = 1_047_198;

/// The colour of one pixel of a `width x height` frame: a camera-space ray
/// through the pixel from field of view and aspect ratio, turned into world
/// space by the camera basis, traced by [`spec_cast_ray`] at depth zero and
/// quantized.
pub open spec fn spec_render_pixel(
    width: u32,
    height: u32,
    scene: Seq<Cube>,
    cam: Camera,
    light: Light,
    tm: TextureManager,
    x: u32,
    y: u32,
) -> Color {
    let width_f = ((width as int) * FX_ONE) as i64;
    let height_f = ((height as int) * FX_ONE) as i64;
    let aspect_ratio = fx::spec_div(width_f, height_f);
    let perspective_scale = trig::spec_tan(fx::spec_mul(FOV_FX, 500_000));
    let sx0 = fx::spec_sub(
        fx::spec_div(fx::spec_mul((2 * FX_ONE) as i64, ((x as int) * FX_ONE) as i64), width_f),
        FX_ONE,
    );
    let sy0 = fx::spec_add(
        fx::spec_neg(
            fx::spec_div(fx::spec_mul((2 * FX_ONE) as i64, ((y as int) * FX_ONE) as i64), height_f),
        ),
        FX_ONE,
    );
    let sx = fx::spec_mul(fx::spec_mul(sx0, aspect_ratio), perspective_scale);
    let sy = fx::spec_mul(sy0, perspective_scale);
    let ray_direction = vec3::spec_normalized(Vec3 { x: sx, y: sy, z: (-FX_ONE) as i64 });
    let rotated = camera::spec_basis_change(cam, ray_direction);
    color::spec_vector3_to_color(spec_cast_ray(cam.eye, rotated, scene, light, tm, 0))
}

/// Computes the colour of the pixel at `(x, y)` of a `width x height`
/// frame.  Pixels are independent: a caller may compute them in any order
/// or in parallel and obtain the same frame.
pub fn render_pixel(
    width: u32,
    height: u32,
    objects: &Vec<Cube>,
    camera: &Camera,
    light: &Light,
    tm: &TextureManager,
    x: u32,
    y: u32,
) -> (c: Color)
    requires
        width >= 1,
        height >= 1,
        tm.wf(),
    ensures
        c == spec_render_pixel(width, height, objects@, *camera, *light, *tm, x, y),
{
    let width_f: i64 = (width as i64) * FX_ONE;
    let height_f: i64 = (height as i64) * FX_ONE;
    let aspect_ratio = fx::fx_div(width_f, height_f);
    let perspective_scale = trig::tan_fx(fx::fx_mul(FOV_FX, 500_000));

    let sx0 = fx::fx_sub(
        fx::fx_div(fx::fx_mul(2 * FX_ONE, (x as i64) * FX_ONE), width_f),
        FX_ONE,
    );
    let sy0 = fx::fx_add(
        fx::fx_neg(fx::fx_div(fx::fx_mul(2 * FX_ONE, (y as i64) * FX_ONE), height_f)),
        FX_ONE,
    );
    let sx = fx::fx_mul(fx::fx_mul(sx0, aspect_ratio), perspective_scale);
    let sy = fx::fx_mul(sy0, perspective_scale);

    let ray_direction = Vec3::new(sx, sy, -FX_ONE).normalized();
    let rotated_direction = camera.basis_change(&ray_direction);

    let pixel_color = cast_ray(&camera.eye, &rotated_direction, objects, light, tm, 0);
    color::vector3_to_color(pixel_color)
}

/// Renders a full frame, row-major: one colour per pixel, each exactly the
/// pixel [`spec_render_pixel`] gives, so two renderings of one scene agree
/// bit for bit.
pub fn render(
    width: u32,
    height: u32,
    objects: &Vec<Cube>,
    camera: &Camera,
    light: &Light,
    tm: &TextureManager,
) -> (pixels: Vec<Color>)
    requires
        width >= 1,
        height >= 1,
        (width as int) * (height as int) <= usize::MAX,
        tm.wf(),
    ensures
        pixels@.len() == (width as int) * (height as int),
        forall|i: int|
            0 <= i < pixels@.len() ==> #[trigger] pixels@[i] == spec_render_pixel(
                width,
                height,
                objects@,
                *camera,
                *light,
                *tm,
                (i % (width as int)) as u32,
                (i / (width as int)) as u32,
            ),
{
    let w: usize = width as usize;
    let total: usize = w * (height as usize);
    let mut pixels: Vec<Color> = Vec::new();
    let mut idx: usize = 0;
    while idx < total
        invariant
            pixels@.len() == idx,
            idx <= total,
            forall|i: int|
                0 <= i < idx ==> #[trigger] pixels@[i] == spec_render_pixel(
                    width,
                    height,
                    objects@,
                    *camera,
                    *light,
                    *tm,
                    (i % (width as int)) as u32,
                    (i / (width as int)) as u32,
                ),
        decreases total - idx,
    {
        let x: usize = idx % w;
        let y: usize = idx / w;
        proof {
            vstd::arithmetic::div_mod::lemma_multiply_divide_lt(
                idx as int,
                width as int,
                height as int,
            );
        }
        let c = render_pixel(width, height, objects, camera, light, tm, x as u32, y as u32);
        pixels.push(c);
        idx = idx + 1;
    }
    pixels
}

} // verus!
