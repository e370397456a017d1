use simple_fps::geometry::{Vec2, Vec3};
use simple_fps::wall::Wall;

fn square_wall() -> Wall {
    // Centered at the origin, no rotation, ten units wide and deep: with
    // the one-unit margin the outline reaches six units out each way.
    Wall::new(
        Vec3 { x: 0, y: 0, z: 0 },
        0,
        Vec3 { x: 10000, y: 1000, z: 10000 },
    )
}

#[test]
fn wall_outline_corners() {
    let w = square_wall();
    assert_eq!(w.vertices[0], Vec2 { x: -6000, y: -6000 });
    assert_eq!(w.vertices[1], Vec2 { x: 6000, y: -6000 });
    assert_eq!(w.vertices[2], Vec2 { x: 6000, y: 6000 });
    assert_eq!(w.vertices[3], Vec2 { x: -6000, y: 6000 });
    assert_eq!(w.vertices[4], w.vertices[0]);
    assert_eq!(w.edges[0], Vec2 { x: 12000, y: 0 });
    assert_eq!(w.edges[1], Vec2 { x: 0, y: 12000 });
}

#[test]
fn rotated_wall_outline_corners() {
    // A quarter turn swaps the roles of width and depth.
    let w = Wall::new(
        Vec3 { x: 0, y: 0, z: 0 },
        90000,
        Vec3 { x: 10000, y: 1000, z: 2000 },
    );
    // Local (-6000, -2000) turns into (-2000, 6000).
    assert_eq!(w.vertices[0], Vec2 { x: -2000, y: 6000 });
    // Local (6000, -2000) turns into (-2000, -6000).
    assert_eq!(w.vertices[1], Vec2 { x: -2000, y: -6000 });
}

#[test]
fn head_on_collision_stops_the_move() {
    let w = square_wall();
    // Approaching the south face head on: the whole velocity is along
    // the wall normal and is removed.
    let position = Vec3 { x: 0, y: 0, z: -7000 };
    let velocity = Vec3 { x: 0, y: 0, z: 2000 };
    let adjusted = w.check_collision(position, velocity);
    assert_eq!(adjusted, Vec3 { x: 0, y: 0, z: 0 });
}

#[test]
fn grazing_collision_slides_along_the_wall() {
    let w = square_wall();
    // Moving diagonally into the south face: the normal component goes,
    // the sideways component survives.
    let position = Vec3 { x: 0, y: 0, z: -7000 };
    let velocity = Vec3 { x: 1000, y: 0, z: 2000 };
    let adjusted = w.check_collision(position, velocity);
    assert_eq!(adjusted, Vec3 { x: 1000, y: 0, z: 0 });
}

#[test]
fn move_that_stays_outside_passes_through() {
    let w = square_wall();
    // The new position stays outside the outline: the velocity comes
    // back unchanged.
    let position = Vec3 { x: 0, y: 0, z: -7000 };
    let velocity = Vec3 { x: 0, y: 0, z: 500 };
    let adjusted = w.check_collision(position, velocity);
    assert_eq!(adjusted, velocity);
    // Movement away from the wall too.
    let away = Vec3 { x: 0, y: 0, z: -2000 };
    assert_eq!(w.check_collision(position, away), away);
}

#[test]
fn vertical_component_is_untouched() {
    let w = square_wall();
    let position = Vec3 { x: 0, y: 1500, z: -7000 };
    let velocity = Vec3 { x: 0, y: 300, z: 2000 };
    let adjusted = w.check_collision(position, velocity);
    assert_eq!(adjusted, Vec3 { x: 0, y: 300, z: 0 });
}

#[test]
fn wall_instance_is_emitted_once() {
    let mut w = square_wall();
    let first = w.get_instance_controller();
    assert!(first.is_some());
    let ic = first.unwrap();
    assert_eq!(ic.position, Vec3 { x: 0, y: 0, z: 0 });
    assert_eq!(ic.scale, Vec3 { x: 10000, y: 1000, z: 10000 });
    assert_eq!(w.get_instance_controller(), None);
}
