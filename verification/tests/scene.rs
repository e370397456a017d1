use simple_fps::geometry::Vec3;
use simple_fps::input::{InputStates, MovingInputState, PressingInputStates};
use simple_fps::target::{Motion, Target};
use simple_fps::render::RenderRequest;
use simple_fps::scene::game::{GameSceneState, State};
use simple_fps::scene::{Scene, SceneManager};

fn idle_input() -> InputStates {
    InputStates {
        pressing: PressingInputStates {
            key_w: 0,
            key_a: 0,
            key_s: 0,
            key_d: 0,
            key_e: 0,
            mouse_left: 0,
        },
        moving: MovingInputState { x: 0, y: 0 },
    }
}

fn confirm_input() -> InputStates {
    let mut input = idle_input();
    input.pressing.key_e = 1;
    input
}

#[test]
fn window_creation_starts_the_title_scene() {
    let mut manager = SceneManager::new();
    assert!(matches!(manager.scene, Scene::PrepareScene));
    manager.on_window_created(800000, 600000);
    assert!(matches!(manager.scene, Scene::TitleScene(_)));
}

#[test]
fn confirm_edge_starts_the_game_and_creation_becomes_inert() {
    let mut manager = SceneManager::new();
    manager.on_window_created(800000, 600000);
    let mut requests: Vec<RenderRequest> = Vec::new();
    manager.update(&confirm_input(), &mut requests);
    assert!(matches!(manager.scene, Scene::GameScene(_)));
    // A second window-created call after the transition is a no-op.
    manager.on_window_created(1024000, 768000);
    assert!(matches!(manager.scene, Scene::GameScene(_)));
    if let Scene::GameScene(g) = &manager.scene {
        assert_eq!(g.width, 800000);
        assert_eq!(g.height, 600000);
    }
}

#[test]
fn held_confirm_does_not_start_the_game() {
    let mut manager = SceneManager::new();
    manager.on_window_created(800000, 600000);
    let mut held = idle_input();
    held.pressing.key_e = 5;
    let mut requests: Vec<RenderRequest> = Vec::new();
    manager.update(&held, &mut requests);
    assert!(matches!(manager.scene, Scene::TitleScene(_)));
}

#[test]
fn prepare_scene_ignores_updates() {
    let mut manager = SceneManager::new();
    let mut requests: Vec<RenderRequest> = Vec::new();
    manager.update(&confirm_input(), &mut requests);
    assert!(matches!(manager.scene, Scene::PrepareScene));
    assert_eq!(requests.len(), 0);
}

#[test]
fn title_frame_emits_message_then_ui_draw() {
    let mut manager = SceneManager::new();
    manager.on_window_created(800000, 600000);
    let mut requests: Vec<RenderRequest> = Vec::new();
    manager.update(&idle_input(), &mut requests);
    assert_eq!(requests.len(), 2);
    match &requests[0] {
        RenderRequest::UpdateUiInstances(v) => {
            assert_eq!(v.len(), 1);
            assert!(v[0].is_some());
        },
        _ => panic!("expected a UI instance update"),
    }
    match &requests[1] {
        RenderRequest::DrawUi(d) => {
            assert!(d.clear_color.is_some());
            assert_eq!(d.instance_indices, vec![(0, 1)]);
        },
        _ => panic!("expected a UI draw"),
    }
    // The next title frame skips the unchanged message upload.
    let mut requests2: Vec<RenderRequest> = Vec::new();
    manager.update(&idle_input(), &mut requests2);
    match &requests2[0] {
        RenderRequest::UpdateUiInstances(v) => assert!(v[0].is_none()),
        _ => panic!("expected a UI instance update"),
    }
}

#[test]
fn score_counts_down_and_finishes_the_game() {
    let mut g = GameSceneState::new(800000, 600000);
    g.score = 2;
    let input = idle_input();
    assert!(matches!(g.state, State::Game));
    let r1 = g.update_game(&input);
    assert!(r1.is_none());
    assert_eq!(g.score, 1);
    assert!(matches!(g.state, State::Game));
    let r2 = g.update_game(&input);
    assert!(r2.is_none());
    assert_eq!(g.score, 0);
    assert!(matches!(g.state, State::End));
    assert!(g.message.is_some());
    assert!(g.indication.is_some());
    // A third frame runs through the end sub-state: the score stays
    // clamped at zero and the sub-state holds.
    let mut requests: Vec<RenderRequest> = Vec::new();
    let r3 = g.update(&input, &mut requests);
    assert!(r3.is_none());
    assert_eq!(g.score, 0);
    assert!(matches!(g.state, State::End));
}

#[test]
fn restart_press_returns_to_the_title() {
    let mut g = GameSceneState::new(800000, 600000);
    g.score = 1;
    let mut requests: Vec<RenderRequest> = Vec::new();
    g.update(&idle_input(), &mut requests);
    assert!(matches!(g.state, State::End));
    let next = g.update_end(&confirm_input());
    assert!(matches!(next, Some(Scene::TitleScene(_))));
}

#[test]
fn game_frame_emits_the_six_requests_in_order() {
    let mut g = GameSceneState::new(800000, 600000);
    let mut requests: Vec<RenderRequest> = Vec::new();
    g.update(&idle_input(), &mut requests);
    assert_eq!(requests.len(), 6);
    assert!(matches!(requests[0], RenderRequest::UpdateCamera(_)));
    assert!(matches!(requests[1], RenderRequest::DrawSkybox));
    match &requests[2] {
        RenderRequest::UpdateWorldInstances(w) => {
            // Eight wall slots, the floor slot, five target slots: all
            // filled on the first frame.
            assert_eq!(w.len(), 14);
            assert!(w.iter().all(|s| s.is_some()));
        },
        _ => panic!("expected a world instance update"),
    }
    match &requests[3] {
        RenderRequest::DrawWorld(d) => {
            assert_eq!(d.instance_indices.len(), 2);
            assert_eq!(d.instance_indices[1].1, 9);
            assert_eq!(d.instance_indices[1].2, 14);
        },
        _ => panic!("expected a world draw"),
    }
    match &requests[4] {
        RenderRequest::UpdateUiInstances(u) => {
            // The reticle and the four score digits.
            assert_eq!(u.len(), 5);
            assert!(u.iter().all(|s| s.is_some()));
        },
        _ => panic!("expected a UI instance update"),
    }
    match &requests[5] {
        RenderRequest::DrawUi(d) => {
            assert!(d.clear_color.is_none());
            assert_eq!(d.instance_indices, vec![(0, 5)]);
        },
        _ => panic!("expected a UI draw"),
    }
    // The second frame skips every static upload.
    let mut requests2: Vec<RenderRequest> = Vec::new();
    g.update(&idle_input(), &mut requests2);
    match &requests2[2] {
        RenderRequest::UpdateWorldInstances(w) => {
            assert!(w[0..9].iter().all(|s| s.is_none()));
            assert!(w[9..14].iter().all(|s| s.is_some()));
        },
        _ => panic!("expected a world instance update"),
    }
}

#[test]
fn movement_is_blocked_by_the_southern_inner_wall() {
    let mut g = GameSceneState::new(800000, 600000);
    // Drive forward (toward positive z) for many frames: the camera
    // starts at z = -35 units and the inner wall at z = -20 units
    // stands in the way of the straight path at x = 0.
    let mut forward = idle_input();
    forward.pressing.key_w = 1;
    for _ in 0..200 {
        let mut requests: Vec<RenderRequest> = Vec::new();
        g.update(&forward, &mut requests);
    }
    let p = g.camera_controller.position;
    // 200 frames at a quarter unit per frame would have crossed the
    // wall long ago; the wall's margin holds the camera in front of it.
    assert!(p.z < -20000);
    assert_eq!(p.x, 0);
    assert_eq!(p.y, 1500);
}

#[test]
fn shooting_removes_the_aimed_target() {
    let mut g = GameSceneState::new(800000, 600000);
    g.score = 1000;
    // Aim from the start position straight along positive z: the weaving
    // target at (0, 2, 35) sits 2 units high on that line; the camera is
    // at height 1.5, so aim is off by half a unit -- instead shoot the
    // target at the origin side: first hoist the camera pitch so the aim
    // line passes within the hit radius of the target at (0, 2, 0).
    // Simpler: place a fresh stationary target on the exact aim line.
    g.targets.push(Target::new(Vec3 { x: 0, y: 1500, z: 10000 }, Motion::Stationary));
    let before = g.targets.len();
    let mut shoot = idle_input();
    shoot.pressing.mouse_left = 1;
    let mut requests: Vec<RenderRequest> = Vec::new();
    g.update(&shoot, &mut requests);
    assert_eq!(g.targets.len(), before - 1);
    // Holding the trigger does not fire again.
    let held_before = g.targets.len();
    shoot.pressing.mouse_left = 2;
    let mut requests2: Vec<RenderRequest> = Vec::new();
    g.update(&shoot, &mut requests2);
    assert_eq!(g.targets.len(), held_before);
}

#[test]
fn cursor_movement_turns_the_camera() {
    let mut g = GameSceneState::new(800000, 600000);
    // A full viewport of cursor travel is a quarter turn.
    let mut input = idle_input();
    input.moving.x = 800000;
    input.moving.y = 300000;
    let mut requests: Vec<RenderRequest> = Vec::new();
    g.update(&input, &mut requests);
    assert_eq!(g.camera_controller.yaw, 90000);
    assert_eq!(g.camera_controller.pitch, 45000);
}

#[test]
fn diagonal_movement_is_slower_per_axis() {
    let mut g = GameSceneState::new(800000, 600000);
    let mut input = idle_input();
    input.pressing.key_w = 1;
    input.pressing.key_d = 1;
    let mut requests: Vec<RenderRequest> = Vec::new();
    g.update(&input, &mut requests);
    // No wall is near the start position: the camera moves a diagonal
    // step, 177 ticks per axis instead of the 250 of a straight step.
    let p = g.camera_controller.position;
    assert_eq!(p, Vec3 { x: 177, y: 1500, z: -35000 + 177 });
}
