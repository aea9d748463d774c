use diorama::camera::Camera;
use diorama::fx::FX_ONE;
use diorama::vec3::Vec3;

fn diorama_camera() -> Camera {
    Camera::new(
        Vec3::new(0, 15 * FX_ONE, 30 * FX_ONE),
        Vec3::new(5 * FX_ONE, 5 * FX_ONE, 5 * FX_ONE),
        Vec3::new(0, FX_ONE, 0),
    )
}

const LENGTH_TOL: i64 = 3_000;
const DOT_TOL: i64 = 6_000;

fn assert_orthonormal(cam: &Camera) {
    assert!((cam.forward.length() - FX_ONE).abs() < LENGTH_TOL);
    assert!((cam.right.length() - FX_ONE).abs() < LENGTH_TOL);
    assert!((cam.up.length() - FX_ONE).abs() < LENGTH_TOL);
    assert!(cam.forward.dot(cam.right).abs() < DOT_TOL);
    assert!(cam.forward.dot(cam.up).abs() < DOT_TOL);
    assert!(cam.right.dot(cam.up).abs() < DOT_TOL);
}

#[test]
fn basis_stays_orthonormal_under_orbit_and_zoom() {
    let mut cam = diorama_camera();
    assert_orthonormal(&cam);
    let yaw_step: i64 = 31_416; // pi/100
    for i in 0..12 {
        match i % 4 {
            0 => cam.orbit(yaw_step, 0),
            1 => cam.orbit(0, -yaw_step),
            2 => cam.zoom(950_000),
            _ => cam.orbit(-yaw_step, yaw_step),
        }
        assert_orthonormal(&cam);
    }
}

#[test]
fn basis_of_axis_aligned_camera_is_exact() {
    let cam = Camera::new(
        Vec3::new(0, 0, 5 * FX_ONE),
        Vec3::zero(),
        Vec3::new(0, FX_ONE, 0),
    );
    assert_eq!(cam.forward, Vec3::new(0, 0, -FX_ONE));
    assert_eq!(cam.right, Vec3::new(FX_ONE, 0, 0));
    assert_eq!(cam.up, Vec3::new(0, FX_ONE, 0));
    // The camera looks down its own -z: that axis maps onto forward.
    assert_eq!(cam.basis_change(&Vec3::new(0, 0, -FX_ONE)), Vec3::new(0, 0, -FX_ONE));
    assert_eq!(cam.basis_change(&Vec3::new(FX_ONE, 0, 0)), Vec3::new(FX_ONE, 0, 0));
}

#[test]
fn repeated_orbit_never_exceeds_pitch_band() {
    let mut cam = diorama_camera();
    for _ in 0..25 {
        cam.orbit(0, 300_000);
        let rel = cam.eye.sub(cam.center);
        let radius = rel.length();
        assert!(radius > 0);
        // sin(1.5) = 0.997495: the implied pitch never crosses the band,
        // up to the rounding of the reconstruction.
        let ratio = (rel.y as i128 * FX_ONE as i128 / radius as i128) as i64;
        assert!(ratio.abs() <= 998_500);
    }
    for _ in 0..50 {
        cam.orbit(0, -300_000);
        let rel = cam.eye.sub(cam.center);
        let ratio = (rel.y as i128 * FX_ONE as i128 / rel.length() as i128) as i64;
        assert!(ratio.abs() <= 998_500);
    }
}

#[test]
fn repeated_zoom_in_stops_at_one_unit() {
    let mut cam = diorama_camera();
    for _ in 0..20 {
        cam.zoom(500_000);
        let d = cam.eye.sub(cam.center).length();
        assert!(d >= FX_ONE - 5_000);
    }
    let d = cam.eye.sub(cam.center).length();
    assert!(d <= FX_ONE + 5_000);
}

#[test]
fn repeated_zoom_out_stops_at_hundred_units() {
    let mut cam = diorama_camera();
    for _ in 0..20 {
        cam.zoom(2_000_000);
        let d = cam.eye.sub(cam.center).length();
        assert!(d <= 100 * FX_ONE + 5_000);
    }
    let d = cam.eye.sub(cam.center).length();
    assert!(d >= 100 * FX_ONE - 5_000);
}

#[test]
fn orbit_keeps_the_radius() {
    let mut cam = diorama_camera();
    let before = cam.eye.sub(cam.center).length();
    cam.orbit(314_159, -150_000);
    let after = cam.eye.sub(cam.center).length();
    assert!((after - before).abs() < before / 100);
}
