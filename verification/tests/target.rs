use simple_fps::geometry::Vec3;
use simple_fps::target::{Motion, Target};

#[test]
fn ray_through_the_center_hits() {
    // A target two units up; a ray from ten units away straight at it.
    let t = Target::new(Vec3 { x: 0, y: 2000, z: 0 }, Motion::Stationary);
    let origin = Vec3 { x: 10000, y: 2000, z: 0 };
    let direction = Vec3 { x: -1000, y: 0, z: 0 };
    assert!(t.check_shot(origin, direction));
}

#[test]
fn ray_one_unit_high_misses() {
    // The same ray a unit higher passes a full unit from the center,
    // well beyond the fifth-of-a-unit hit radius.
    let t = Target::new(Vec3 { x: 0, y: 2000, z: 0 }, Motion::Stationary);
    let origin = Vec3 { x: 10000, y: 3000, z: 0 };
    let direction = Vec3 { x: -1000, y: 0, z: 0 };
    assert!(!t.check_shot(origin, direction));
}

#[test]
fn ray_within_radius_hits() {
    let t = Target::new(Vec3 { x: 0, y: 2000, z: 0 }, Motion::Stationary);
    let origin = Vec3 { x: 10000, y: 2150, z: 0 };
    let direction = Vec3 { x: -1000, y: 0, z: 0 };
    assert!(t.check_shot(origin, direction));
}

#[test]
fn ray_ignores_direction_sign() {
    // The test is a distance around the whole line, not a half ray.
    let t = Target::new(Vec3 { x: 0, y: 2000, z: 0 }, Motion::Stationary);
    let origin = Vec3 { x: 10000, y: 2000, z: 0 };
    let direction = Vec3 { x: 1000, y: 0, z: 0 };
    assert!(t.check_shot(origin, direction));
}

#[test]
fn stationary_target_stays_put() {
    let mut t = Target::new(Vec3 { x: 100, y: 200, z: 300 }, Motion::Stationary);
    t.update();
    t.update();
    assert_eq!(t.instance_controller.position, Vec3 { x: 100, y: 200, z: 300 });
    assert_eq!(t.count, 2);
}

#[test]
fn sway_starts_at_its_base() {
    let mut t = Target::new(
        Vec3 { x: 0, y: 2000, z: 0 },
        Motion::SwayY { amplitude: 2000, base: 3000 },
    );
    // Frame zero: the sine of zero degrees, so the base height.
    t.update();
    assert_eq!(t.instance_controller.position, Vec3 { x: 0, y: 3000, z: 0 });
}

#[test]
fn sway_peaks_a_quarter_cycle_in() {
    let mut t = Target::new(
        Vec3 { x: 0, y: 2000, z: 0 },
        Motion::SwayY { amplitude: 2000, base: 3000 },
    );
    for _ in 0..91 {
        t.update();
    }
    // Frame 90 was the quarter cycle: base plus the full amplitude.
    assert_eq!(t.instance_controller.position.y, 5000);
}

#[test]
fn weave_holds_its_depth() {
    let mut t = Target::new(
        Vec3 { x: 0, y: 2000, z: 35000 },
        Motion::Weave { x_step: 51000, y_step: 79000, y_base: 2500, z: 35000, slowdown: 40 },
    );
    for _ in 0..10 {
        t.update();
    }
    // The phase is still zero for the first forty frames.
    assert_eq!(t.instance_controller.position, Vec3 { x: 0, y: 2500, z: 35000 });
}
