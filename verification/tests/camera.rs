use simple_fps::camera::CameraController;
use simple_fps::geometry::Vec3;

#[test]
fn pitch_never_leaves_the_quarter_turn() {
    let mut cam = CameraController::default();
    // Hammer the camera with large swings in both directions: the pitch
    // must stay clamped whatever accumulates.
    let swings: [i64; 7] = [400000, -100000, 2500000, -9000000, 123456, 700000, -50];
    for d in swings {
        cam.rotate(0, d);
        assert!(-90000 <= cam.pitch && cam.pitch <= 90000);
    }
    cam.rotate(0, 10000000);
    assert_eq!(cam.pitch, 90000);
    cam.rotate(0, -10000000000);
    assert_eq!(cam.pitch, -90000);
}

#[test]
fn yaw_wraps_around_the_full_turn() {
    let mut cam = CameraController::default();
    cam.rotate(350000, 0);
    assert_eq!(cam.yaw, 350000);
    cam.rotate(20000, 0);
    assert_eq!(cam.yaw, 10000);
    cam.rotate(-30000, 0);
    assert_eq!(cam.yaw, 340000);
}

#[test]
fn align_keeps_direction_at_zero_yaw() {
    let cam = CameraController::default();
    let v = cam.align_to_direction(Vec3 { x: 250, y: 0, z: 100 });
    assert_eq!(v, Vec3 { x: 250, y: 0, z: 100 });
}

#[test]
fn align_turns_with_the_yaw() {
    let mut cam = CameraController::default();
    cam.rotate(90000, 0);
    // Looking along positive x: local forward becomes world +x.
    let v = cam.align_to_direction(Vec3 { x: 0, y: 0, z: 250 });
    assert_eq!(v, Vec3 { x: 250, y: 0, z: 0 });
    // Pitch must not affect horizontal alignment.
    cam.rotate(0, 45000);
    let w = cam.align_to_direction(Vec3 { x: 0, y: 0, z: 250 });
    assert_eq!(w, v);
}

#[test]
fn forward_follows_yaw_and_pitch() {
    let mut cam = CameraController::default();
    assert_eq!(cam.forward_direction(), Vec3 { x: 0, y: 0, z: 1000 });
    cam.rotate(90000, 0);
    assert_eq!(cam.forward_direction(), Vec3 { x: 1000, y: 0, z: 0 });
    cam.rotate(-90000, -90000);
    assert_eq!(cam.forward_direction(), Vec3 { x: 0, y: 1000, z: 0 });
}
