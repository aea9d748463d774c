//! The orbital camera: eye, look-at center and an orthonormal basis derived
//! from them, with orbit (yaw/pitch) and radial zoom about the center.

use vstd::prelude::*;
use crate::fx;
use crate::fx::FX_ONE;
use crate::trig;
use crate::vec3;
use crate::vec3::Vec3;

verus! {

/// The pitch band the orbit clamps into: just under a quarter turn either
/// way, keeping the eye off the poles where yaw degenerates.
pub const PITCH_LIMIT: i64 = 1_500_000;

/// Smallest eye-to-center distance the zoom allows.
pub const ZOOM_MIN: i64 = FX_ONE;

/// Largest eye-to-center distance the zoom allows.
pub const ZOOM_MAX: i64 = 100 * FX_ONE;

#[derive(Clone, Copy, Debug)]
pub struct Camera {
    /// Camera position in world coordinates.
    pub eye: Vec3,
    /// Point the camera looks at.
    pub center: Vec3,
    /// Up direction; re-orthogonalized against forward and right.
    pub up: Vec3,
    /// Direction the camera faces, derived from eye and center.
    pub forward: Vec3,
    /// Right direction, perpendicular to forward and up.
    pub right: Vec3,
}

/// The basis [`Camera::update_basis_vectors`] derives: forward toward the
/// center, right the normalized cross of forward with the incoming up, up
/// re-orthogonalized as right cross forward.
pub open spec fn spec_basis_forward(eye: Vec3, center: Vec3) -> Vec3 {
    vec3::spec_normalized(vec3::spec_vsub(center, eye))
}

pub open spec fn spec_basis_right(eye: Vec3, center: Vec3, up: Vec3) -> Vec3 {
    vec3::spec_normalized(vec3::spec_cross(spec_basis_forward(eye, center), up))
}

pub open spec fn spec_basis_up(eye: Vec3, center: Vec3, up: Vec3) -> Vec3 {
    vec3::spec_cross(spec_basis_right(eye, center, up), spec_basis_forward(eye, center))
}

/// The pitch angle an orbit steers to: the eye's current pitch plus the
/// delta, clamped into the pitch band.
pub open spec fn spec_orbit_pitch(cam: Camera, delta_pitch: i64) -> i64 {
    let rel = vec3::spec_vsub(cam.eye, cam.center);
    let radius = vec3::spec_length(rel);
    let current = trig::spec_asin(fx::spec_div0(rel.y, radius));
    fx::spec_clamp(fx::spec_add(current, delta_pitch), (-PITCH_LIMIT) as i64, PITCH_LIMIT)
}

/// The yaw angle an orbit steers to.
pub open spec fn spec_orbit_yaw(cam: Camera, delta_yaw: i64) -> i64 {
    let rel = vec3::spec_vsub(cam.eye, cam.center);
    fx::spec_add(trig::spec_atan2(rel.z, rel.x), delta_yaw)
}

/// The eye position an orbit moves to: the spherical coordinates
/// (radius, yaw, pitch) turned back into a relative position.
pub open spec fn spec_orbit_eye(cam: Camera, delta_yaw: i64, delta_pitch: i64) -> Vec3 {
    let rel = vec3::spec_vsub(cam.eye, cam.center);
    let radius = vec3::spec_length(rel);
    let yaw = spec_orbit_yaw(cam, delta_yaw);
    let pitch = spec_orbit_pitch(cam, delta_pitch);
    let cos_pitch = trig::spec_cos(pitch);
    let new_rel = Vec3 {
        x: fx::spec_mul(fx::spec_mul(radius, cos_pitch), trig::spec_cos(yaw)),
        y: fx::spec_mul(radius, trig::spec_sin(pitch)),
        z: fx::spec_mul(fx::spec_mul(radius, cos_pitch), trig::spec_sin(yaw)),
    };
    vec3::spec_vadd(cam.center, new_rel)
}

/// The eye-to-center distance a zoom steers to: the current distance scaled
/// by the factor and clamped into the zoom band.
pub open spec fn spec_zoom_distance(cam: Camera, factor: i64) -> i64 {
    let rel = vec3::spec_vsub(cam.eye, cam.center);
    fx::spec_clamp(fx::spec_mul(vec3::spec_length(rel), factor), ZOOM_MIN, ZOOM_MAX)
}

/// The eye position a zoom moves to.
pub open spec fn spec_zoom_eye(cam: Camera, factor: i64) -> Vec3 {
    let rel = vec3::spec_vsub(cam.eye, cam.center);
    vec3::spec_vadd(
        cam.center,
        vec3::spec_vscale(vec3::spec_normalized(rel), spec_zoom_distance(cam, factor)),
    )
}

/// The world-space direction [`Camera::basis_change`] maps a camera-space
/// direction to: `v.x * right + v.y * up - v.z * forward` (the camera looks
/// down its own negative z axis).
pub open spec fn spec_basis_change(cam: Camera, v: Vec3) -> Vec3 {
    Vec3 {
        x: fx::spec_sub(
            fx::spec_add(fx::spec_mul(v.x, cam.right.x), fx::spec_mul(v.y, cam.up.x)),
            fx::spec_mul(v.z, cam.forward.x),
        ),
        y: fx::spec_sub(
            fx::spec_add(fx::spec_mul(v.x, cam.right.y), fx::spec_mul(v.y, cam.up.y)),
            fx::spec_mul(v.z, cam.forward.y),
        ),
        z: fx::spec_sub(
            fx::spec_add(fx::spec_mul(v.x, cam.right.z), fx::spec_mul(v.y, cam.up.z)),
            fx::spec_mul(v.z, cam.forward.z),
        ),
    }
}

impl Camera {
    /// A camera at `eye` looking at `center`, with its basis derived.
    pub fn new(eye: Vec3, center: Vec3, up: Vec3) -> (cam: Camera)
        ensures
            cam.eye == eye,
            cam.center == center,
            cam.forward == spec_basis_forward(eye, center),
            cam.right == spec_basis_right(eye, center, up),
            cam.up == spec_basis_up(eye, center, up),
    {
        let mut camera = Camera { eye, center, up, forward: Vec3::zero(), right: Vec3::zero() };
        camera.update_basis_vectors();
        camera
    }

    /// Recomputes the orthonormal basis from eye, center and the current up.
    /// Must follow any mutation of eye, center or up.
    pub fn update_basis_vectors(&mut self)
        ensures
            final(self).eye == old(self).eye,
            final(self).center == old(self).center,
            final(self).forward == spec_basis_forward(old(self).eye, old(self).center),
            final(self).right == spec_basis_right(old(self).eye, old(self).center, old(self).up),
            final(self).up == spec_basis_up(old(self).eye, old(self).center, old(self).up),
    {
        self.forward = self.center.sub(self.eye).normalized();
        self.right = self.forward.cross(self.up).normalized();
        self.up = self.right.cross(self.forward);
    }

    /// Orbits the eye about the center: the eye's spherical coordinates
    /// shift by the yaw and pitch deltas, the pitch clamped into the pitch
    /// band, and the basis is recomputed.
    pub fn orbit(&mut self, yaw: i64, pitch: i64)
        ensures
            final(self).eye == spec_orbit_eye(*old(self), yaw, pitch),
            final(self).center == old(self).center,
            final(self).forward == spec_basis_forward(final(self).eye, old(self).center),
            final(self).right == spec_basis_right(final(self).eye, old(self).center, old(self).up),
            final(self).up == spec_basis_up(final(self).eye, old(self).center, old(self).up),
    {
        let relative_pos = self.eye.sub(self.center);
        let radius = relative_pos.length();

        let current_yaw = trig::atan2_fx(relative_pos.z, relative_pos.x);
        let current_pitch = trig::asin_fx(fx::fx_div0(relative_pos.y, radius));

        let new_yaw = fx::fx_add(current_yaw, yaw);
        let new_pitch = fx::fx_clamp(fx::fx_add(current_pitch, pitch), -PITCH_LIMIT, PITCH_LIMIT);

        let cos_pitch = trig::cos_fx(new_pitch);
        let new_relative_pos = Vec3::new(
            fx::fx_mul(fx::fx_mul(radius, cos_pitch), trig::cos_fx(new_yaw)),
            fx::fx_mul(radius, trig::sin_fx(new_pitch)),
            fx::fx_mul(fx::fx_mul(radius, cos_pitch), trig::sin_fx(new_yaw)),
        );

        self.eye = self.center.add(new_relative_pos);
        self.update_basis_vectors();
    }

    /// Scales the eye-to-center distance by `factor` (below one zooms in,
    /// above one out), clamped into the zoom band, and recomputes the basis.
    pub fn zoom(&mut self, factor: i64)
        ensures
            final(self).eye == spec_zoom_eye(*old(self), factor),
            final(self).center == old(self).center,
            final(self).forward == spec_basis_forward(final(self).eye, old(self).center),
            final(self).right == spec_basis_right(final(self).eye, old(self).center, old(self).up),
            final(self).up == spec_basis_up(final(self).eye, old(self).center, old(self).up),
    {
        let relative_pos = self.eye.sub(self.center);
        let distance = relative_pos.length();

        let new_distance = fx::fx_clamp(fx::fx_mul(distance, factor), ZOOM_MIN, ZOOM_MAX);
        let new_relative_pos = relative_pos.normalized().scale(new_distance);

        self.eye = self.center.add(new_relative_pos);
        self.update_basis_vectors();
    }

    /// Maps a camera-space direction to world space through the basis.  The
    /// only place camera-space rays become world-space rays.
    pub fn basis_change(&self, v: &Vec3) -> (r: Vec3)
        ensures
            r == spec_basis_change(*self, *v),
    {
        Vec3 {
            x: fx::fx_sub(
                fx::fx_add(fx::fx_mul(v.x, self.right.x), fx::fx_mul(v.y, self.up.x)),
                fx::fx_mul(v.z, self.forward.x),
            ),
            y: fx::fx_sub(
                fx::fx_add(fx::fx_mul(v.x, self.right.y), fx::fx_mul(v.y, self.up.y)),
                fx::fx_mul(v.z, self.forward.y),
            ),
            z: fx::fx_sub(
                fx::fx_add(fx::fx_mul(v.x, self.right.z), fx::fx_mul(v.y, self.up.z)),
                fx::fx_mul(v.z, self.forward.z),
            ),
        }
    }
}

/// However large the accumulated deltas, the pitch an orbit steers the eye
/// by stays inside the pitch band: the eye is always rebuilt from a clamped
/// pitch angle.
pub proof fn lemma_orbit_pitch_clamped(cam: Camera, delta_pitch: i64)
    ensures
        -PITCH_LIMIT <= spec_orbit_pitch(cam, delta_pitch) <= PITCH_LIMIT,
{
}

/// However often a zoom is repeated, the distance it rebuilds the eye at
/// stays inside the zoom band: below one unit it is pushed back up, above a
/// hundred it is pulled back down.
pub proof fn lemma_zoom_distance_clamped(cam: Camera, factor: i64)
    ensures
        ZOOM_MIN <= spec_zoom_distance(cam, factor) <= ZOOM_MAX,
{
}

/// The forward basis vector has unit length up to four millionths whenever
/// the eye keeps at least one unit's distance from the center: normalization
/// can round a vector slightly inside the unit sphere but never outside it
/// (see [`vec3::lemma_normalized_length_le_one`] and
/// [`vec3::lemma_normalized_length_almost_one`]; the right vector is an
/// output of the same normalization).
pub proof fn lemma_forward_nearly_unit(eye: Vec3, center: Vec3)
    requires
        FX_ONE <= vec3::spec_length(vec3::spec_vsub(center, eye)),
        vec3::spec_length(vec3::spec_vsub(center, eye)) < i64::MAX,
    ensures
        FX_ONE - 4 <= vec3::spec_length(spec_basis_forward(eye, center)) <= FX_ONE,
{
    vec3::lemma_normalized_length_le_one(vec3::spec_vsub(center, eye));
    vec3::lemma_normalized_length_almost_one(vec3::spec_vsub(center, eye));
}

/// In exact integer arithmetic the cross product is orthogonal to both of
/// its operands.  The executable basis differs from these exact products
/// only by the fixed-point truncation of each component, so its pairwise
/// dot products vanish up to that rounding (checked numerically in tests).
pub proof fn lemma_cross_orthogonal(a: Vec3, b: Vec3)
    ensures
        (a.y * b.z - a.z * b.y) * a.x + (a.z * b.x - a.x * b.z) * a.y + (a.x * b.y - a.y * b.x)
            * a.z == 0,
        (a.y * b.z - a.z * b.y) * b.x + (a.z * b.x - a.x * b.z) * b.y + (a.x * b.y - a.y * b.x)
            * b.z == 0,
{
    assert((a.y * b.z - a.z * b.y) * a.x + (a.z * b.x - a.x * b.z) * a.y + (a.x * b.y - a.y * b.x)
        * a.z == 0) by (nonlinear_arith);
    assert((a.y * b.z - a.z * b.y) * b.x + (a.z * b.x - a.x * b.z) * b.y + (a.x * b.y - a.y * b.x)
        * b.z == 0) by (nonlinear_arith);
}

} // verus!
