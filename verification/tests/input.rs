use simple_fps::input::{InputManager, PressingInput};

#[test]
fn fresh_press_counts_one() {
    let mut m = InputManager::new((0, 0));
    assert_eq!(m.get().pressing.get(&PressingInput::KeyW), 0);
    m.update_key_state(PressingInput::KeyW, true);
    assert_eq!(m.get().pressing.get(&PressingInput::KeyW), 1);
    // A repeated press event while held does not restart the counter.
    m.update_key_state(PressingInput::KeyW, true);
    assert_eq!(m.get().pressing.get(&PressingInput::KeyW), 1);
    m.update_key_state(PressingInput::KeyW, false);
    assert_eq!(m.get().pressing.get(&PressingInput::KeyW), 0);
}

#[test]
fn held_keys_age_each_frame() {
    let mut m = InputManager::new((0, 0));
    m.update_key_state(PressingInput::KeyE, true);
    m.go_next();
    assert_eq!(m.get().pressing.get(&PressingInput::KeyE), 2);
    m.go_next();
    assert_eq!(m.get().pressing.get(&PressingInput::KeyE), 3);
    // Released keys stay at zero.
    assert_eq!(m.get().pressing.get(&PressingInput::KeyA), 0);
}

#[test]
fn mouse_button_follows_the_same_rule() {
    let mut m = InputManager::new((0, 0));
    m.update_mouse_state(true);
    assert_eq!(m.get().pressing.get(&PressingInput::MouseLeft), 1);
    m.update_mouse_state(false);
    assert_eq!(m.get().pressing.get(&PressingInput::MouseLeft), 0);
}

#[test]
fn cursor_movement_accumulates_until_the_frame_ends() {
    let mut m = InputManager::new((100, 100));
    m.update_cursor_state(130, 80);
    m.update_cursor_state(150, 90);
    assert_eq!(m.get().moving.x, 50);
    assert_eq!(m.get().moving.y, -10);
    m.go_next();
    assert_eq!(m.get().moving.x, 0);
    assert_eq!(m.get().moving.y, 0);
    // The frame boundary keeps the cursor position itself.
    m.update_cursor_state(160, 90);
    assert_eq!(m.get().moving.x, 10);
}

#[test]
fn set_cursor_position_records_no_movement() {
    let mut m = InputManager::new((0, 0));
    m.set_cursor_position((500, 500));
    assert_eq!(m.get().moving.x, 0);
    m.update_cursor_state(510, 500);
    assert_eq!(m.get().moving.x, 10);
}
