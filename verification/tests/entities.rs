use simple_fps::floor::Floor;
use simple_fps::geometry::Vec3;
use simple_fps::instance::UvRect;
use simple_fps::message::Message;
use simple_fps::reticle::Reticle;

#[test]
fn floor_is_emitted_once() {
    let mut f = Floor::new(40000, 80000);
    let first = f.get_instance_controller();
    assert!(first.is_some());
    let ic = first.unwrap();
    assert_eq!(ic.scale, Vec3 { x: 40000, y: 1000, z: 80000 });
    assert_eq!(f.get_instance_controller(), None);
}

#[test]
fn reticle_is_emitted_once() {
    let mut r = Reticle::new();
    let first = r.get_instance_controller();
    assert!(first.is_some());
    let ic = first.unwrap();
    assert_eq!(ic.scale, Vec3 { x: 200000, y: 200000, z: 1000 });
    assert_eq!(ic.uv, UvRect { x: 0, y: 750, w: 250, h: 250 });
    assert_eq!(r.get_instance_controller(), None);
}

#[test]
fn message_height_keeps_the_strip_aspect() {
    // A strip using eight tenths of the texture across: the quad is
    // 125/800 of its width high.
    let m = Message::new(0, 0, 240000, UvRect { x: 0, y: 375, w: 800, h: 125 });
    assert_eq!(m.get_height(), 240000 * 125 / 800);
}

#[test]
fn message_is_emitted_once_and_again_after_moving() {
    let mut m = Message::new(0, 5000, 300000, UvRect { x: 0, y: 125, w: 1000, h: 125 });
    let first = m.get_instance_controller();
    assert!(first.is_some());
    assert_eq!(first.unwrap().position, Vec3 { x: 0, y: 5000, z: 0 });
    assert_eq!(m.get_instance_controller(), None);
    m.set_position(0, -2000);
    let again = m.get_instance_controller();
    assert!(again.is_some());
    assert_eq!(again.unwrap().position, Vec3 { x: 0, y: -2000, z: 0 });
}
