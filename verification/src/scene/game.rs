//! The running game: camera movement against the walls, shooting,
//! the countdown score, the win/lose transition, and the per-frame
//! renderer commands.
//!
//! The frame order is load-bearing: camera rotation, then movement with
//! collision resolution, then the sub-state logic (shooting happens
//! against pre-motion target positions), then target motion, then the
//! emission of renderer commands.

use vstd::prelude::*;

verus! {

use super::title::TitleSceneState;
use super::Scene;
use crate::camera::CameraController;
use crate::digits::{spec_digits, Digits};
use crate::floor::Floor;
use crate::geometry::{in_bounds3, Vec3};
use crate::input::{InputStates, PressingInput, PressingInputStates};
use crate::instance::{InstanceController, UvRect};
use crate::message::{spec_message_height, Message};
use crate::numeric::{div_euclid_i64, spec_clamp, spec_cos_milli, spec_sin_milli};
use crate::render::{DrawUiDescriptor, DrawWorldDescriptor, ModelId, RenderRequest};
use crate::reticle::Reticle;
use crate::target::{spec_motion_position, spec_shot_hits, Motion, Target};
use crate::wall::{is_wall_of, spec_check_collision, Wall};

/// The camera never leaves this coordinate range, in ticks: movement is
/// clamped into the world box.
pub const POS_LIMIT: i64 = 100000;

/// Per-frame movement speed along one axis, ticks.
pub const SPEED: i64 = 250;

/// Per-frame movement speed per axis when moving diagonally: the axis
/// speed over the square root of two, rounded.
pub const SPEED_DIAGONAL: i64 = 177;

/// The sub-state of the game scene.
#[derive(Clone, Copy, PartialEq, Eq, Structural, Debug)]
pub enum State {
    /// Shooting and scoring run.
    Game,
    /// Only the restart check runs.
    End,
}

/// The state of the running game.
pub struct GameSceneState {
    pub state: State,
    pub width: i64,
    pub height: i64,
    pub camera_controller: CameraController,
    pub floor: Floor,
    pub walls: Vec<Wall>,
    pub targets: Vec<Target>,
    pub reticle: Reticle,
    pub message: Option<Message>,
    pub indication: Option<Message>,
    pub score_ui: Digits,
    pub score: u32,
}

impl GameSceneState {
    pub open spec fn wf(self) -> bool {
        &&& 1 <= self.width <= 1000000000
        &&& 1 <= self.height <= 1000000000
        &&& self.camera_controller.wf()
        &&& in_bounds3(self.camera_controller.position, POS_LIMIT as int)
        &&& self.walls@.len() == 8
        &&& forall|i: int| 0 <= i < 8 ==> (#[trigger] self.walls@[i]).wf()
        &&& self.targets@.len() <= 16
        &&& forall|i: int| 0 <= i < self.targets@.len() ==> (#[trigger] self.targets@[i]).wf()
        &&& self.score_ui.wf()
        &&& self.score_ui.instance_controllers@.len() <= 10
        &&& (self.state is Game ==> self.message is None && self.indication is None)
        &&& (self.state is End ==> self.message is Some && self.indication is Some)
    }

    /// The freshly constructed game for a viewport: the fixed arena of
    /// eight walls, the floor, five targets, the reticle, the score
    /// display showing 1200 at the screen center, and the countdown
    /// score at its start value.
    pub open spec fn is_initial(self, width: i64, height: i64) -> bool {
        &&& self.wf()
        &&& self.state is Game
        &&& self.width == width && self.height == height
        &&& self.camera_controller == (CameraController {
            pov: 45000i64,
            width,
            height,
            position: Vec3 { x: 0i64, y: 1500i64, z: -35000i64 },
            yaw: 0i64,
            pitch: 0i64,
        })
        &&& !self.floor.instance_controller.is_cached
        &&& self.floor.instance_controller.content == (InstanceController {
            scale: Vec3 { x: 40000i64, y: 1000i64, z: 80000i64 },
            rotation: 0i64,
            position: Vec3 { x: 0i64, y: 0i64, z: 0i64 },
            uv: UvRect { x: 0i64, y: 0i64, w: 1000i64, h: 1000i64 },
        })
        &&& self.walls@.len() == 8
        &&& forall|i: int|
            0 <= i < 8 ==> !(#[trigger] self.walls@[i]).instance_controller.is_cached
        &&& is_wall_of(
            self.walls@[0],
            Vec3 { x: 0i64, y: 4000i64, z: 40000i64 },
            0i64,
            Vec3 { x: 40000i64, y: 8000i64, z: 1000i64 },
        )
        &&& is_wall_of(
            self.walls@[1],
            Vec3 { x: 0i64, y: 4000i64, z: -40000i64 },
            180000i64,
            Vec3 { x: 40000i64, y: 8000i64, z: 1000i64 },
        )
        &&& is_wall_of(
            self.walls@[2],
            Vec3 { x: 20000i64, y: 4000i64, z: 0i64 },
            90000i64,
            Vec3 { x: 80000i64, y: 8000i64, z: 1000i64 },
        )
        &&& is_wall_of(
            self.walls@[3],
            Vec3 { x: -20000i64, y: 4000i64, z: 0i64 },
            -90000i64,
            Vec3 { x: 80000i64, y: 8000i64, z: 1000i64 },
        )
        &&& is_wall_of(
            self.walls@[4],
            Vec3 { x: -2000i64, y: 1500i64, z: -20000i64 },
            0i64,
            Vec3 { x: 36000i64, y: 3000i64, z: 1000i64 },
        )
        &&& is_wall_of(
            self.walls@[5],
            Vec3 { x: 2000i64, y: 1500i64, z: 20000i64 },
            0i64,
            Vec3 { x: 36000i64, y: 3000i64, z: 1000i64 },
        )
        &&& is_wall_of(
            self.walls@[6],
            Vec3 { x: 11000i64, y: 3500i64, z: 0i64 },
            0i64,
            Vec3 { x: 18000i64, y: 7000i64, z: 1000i64 },
        )
        &&& is_wall_of(
            self.walls@[7],
            Vec3 { x: -11000i64, y: 3500i64, z: 0i64 },
            0i64,
            Vec3 { x: 18000i64, y: 7000i64, z: 1000i64 },
        )
        &&& self.targets@.len() == 5
        &&& target_is(self.targets@[0], Vec3 { x: 15000i64, y: 2500i64, z: -15000i64 }, Motion::Stationary)
        &&& target_is(
            self.targets@[1],
            Vec3 { x: 0i64, y: 2000i64, z: 0i64 },
            Motion::SwayY { amplitude: 2000i64, base: 3000i64 },
        )
        &&& target_is(self.targets@[2], Vec3 { x: 15000i64, y: 3000i64, z: 15000i64 }, Motion::Stationary)
        &&& target_is(
            self.targets@[3],
            Vec3 { x: 0i64, y: 2000i64, z: 35000i64 },
            Motion::Weave {
                x_step: 51000i64,
                y_step: 79000i64,
                y_base: 2500i64,
                z: 35000i64,
                slowdown: 40u32,
            },
        )
        &&& target_is(
            self.targets@[4],
            Vec3 { x: 25000i64, y: 30000i64, z: -20000i64 },
            Motion::SwayZ { amplitude: 2000i64, base: -20000i64 },
        )
        &&& !self.reticle.instance_controller.is_cached
        &&& self.message is None
        &&& self.indication is None
        &&& self.score == 1380
        &&& self.score_ui.x == self.width as int / 2
        &&& self.score_ui.y == self.height as int / 2
        &&& self.score_ui.width == 100000
        &&& self.score_ui.shows(1200)
        &&& forall|i: int|
            0 <= i < self.score_ui.instance_controllers@.len() ==> !(#[trigger] self
                .score_ui
                .instance_controllers@[i]).is_cached
    }

    /// Whether this frame's input restarts a finished game: the game is
    /// in its end sub-state and the restart key was pressed exactly this
    /// frame.
    pub open spec fn restarted(self, input: InputStates) -> bool {
        self.state is End && input.pressing.spec_get(PressingInput::KeyE) == 1
    }

    /// This state with the camera told of another viewport size. The
    /// stored construction size, which anchors the UI, is kept.
    pub open spec fn with_viewport(self, width: i64, height: i64) -> GameSceneState {
        GameSceneState {
            camera_controller: CameraController { width, height, ..self.camera_controller },
            ..self
        }
    }
}

/// A target as [`Target::new`] builds it.
pub open spec fn target_is(t: Target, position: Vec3, motion: Motion) -> bool {
    &&& t.instance_controller == (InstanceController {
        scale: Vec3 { x: 200i64, y: 200i64, z: 200i64 },
        rotation: 0i64,
        position,
        uv: UvRect { x: 0i64, y: 0i64, w: 1000i64, h: 1000i64 },
    })
    &&& t.motion == motion
    &&& t.count == 0
}

/// The sideways movement intent: right minus left.
pub open spec fn spec_axis_rl(p: PressingInputStates) -> int {
    (if p.spec_get(PressingInput::KeyD) > 0 {
        1int
    } else {
        0int
    }) - (if p.spec_get(PressingInput::KeyA) > 0 {
        1int
    } else {
        0int
    })
}

/// The forward movement intent: forward minus back.
pub open spec fn spec_axis_fb(p: PressingInputStates) -> int {
    (if p.spec_get(PressingInput::KeyW) > 0 {
        1int
    } else {
        0int
    }) - (if p.spec_get(PressingInput::KeyS) > 0 {
        1int
    } else {
        0int
    })
}

/// The movement vector for the frame: the per-axis speed (shortened on
/// a diagonal), rotated to the camera's yaw, staying on the horizontal
/// plane.
pub open spec fn spec_move_velocity(rl: int, fb: int, yaw: int) -> Vec3 {
    let a = if rl != 0 && fb != 0 {
        SPEED_DIAGONAL as int
    } else {
        SPEED as int
    };
    let vx = rl * a;
    let vz = fb * a;
    Vec3 {
        x: ((vx * spec_cos_milli(yaw) + vz * spec_sin_milli(yaw)) / 1000) as i64,
        y: 0i64,
        z: ((vz * spec_cos_milli(yaw) - vx * spec_sin_milli(yaw)) / 1000) as i64,
    }
}

/// The velocity after resolving collisions against the first `k` walls
/// in order, each wall seeing the velocity the previous walls left.
pub open spec fn spec_chain(walls: Seq<Wall>, k: int, position: Vec3, v: Vec3) -> Vec3
    decreases k,
{
    if k <= 0 {
        v
    } else {
        let prev = spec_chain(walls, k - 1, position, v);
        let (x, y, z) = spec_check_collision(walls[k - 1], position, prev);
        Vec3 { x: x as i64, y: y as i64, z: z as i64 }
    }
}

/// The direction the camera looks along, up to a thousand ticks per
/// component.
pub open spec fn spec_forward(cam: CameraController) -> Vec3 {
    Vec3 {
        x: ((spec_cos_milli(cam.pitch as int) * spec_sin_milli(cam.yaw as int)) / 1000) as i64,
        y: (-spec_sin_milli(cam.pitch as int)) as i64,
        z: ((spec_cos_milli(cam.pitch as int) * spec_cos_milli(cam.yaw as int)) / 1000) as i64,
    }
}

/// The camera after one frame: turned by the cursor movement scaled to
/// a quarter turn per viewport, then moved by the collision-resolved
/// movement vector, the position clamped into the world box.
pub open spec fn spec_camera_after(
    cam: CameraController,
    walls: Seq<Wall>,
    input: InputStates,
) -> CameraController {
    let dy = (input.moving.x * 90000) / (cam.width as int);
    let dx = (input.moving.y * 90000) / (cam.height as int);
    let yaw = (cam.yaw + dy) % 360000;
    let pitch = spec_clamp(cam.pitch + dx, -90000, 90000);
    let rl = spec_axis_rl(input.pressing);
    let fb = spec_axis_fb(input.pressing);
    let position = if rl == 0 && fb == 0 {
        cam.position
    } else {
        let v = spec_chain(walls, 8, cam.position, spec_move_velocity(rl, fb, yaw));
        Vec3 {
            x: spec_clamp(cam.position.x + v.x, -POS_LIMIT as int, POS_LIMIT as int) as i64,
            y: spec_clamp(cam.position.y + v.y, -POS_LIMIT as int, POS_LIMIT as int) as i64,
            z: spec_clamp(cam.position.z + v.z, -POS_LIMIT as int, POS_LIMIT as int) as i64,
        }
    };
    CameraController { position, yaw: yaw as i64, pitch: pitch as i64, ..cam }
}

/// Whether this frame's input fires a shot: the trigger was pressed
/// exactly this frame.
pub open spec fn shot_fired(input: InputStates) -> bool {
    input.pressing.spec_get(PressingInput::MouseLeft) == 1
}

/// The first `k` targets with those hit by the shot removed, in order.
pub open spec fn spec_surviving_upto(ts: Seq<Target>, k: int, origin: Vec3, dir: Vec3) -> Seq<
    Target,
>
    decreases k,
{
    if k <= 0 {
        Seq::empty()
    } else {
        let prev = spec_surviving_upto(ts, k - 1, origin, dir);
        if spec_shot_hits(ts[k - 1].instance_controller.position, origin, dir) {
            prev
        } else {
            prev.push(ts[k - 1])
        }
    }
}

/// The targets that survive a shot from `origin` along `dir`.
pub open spec fn spec_surviving(ts: Seq<Target>, origin: Vec3, dir: Vec3) -> Seq<Target> {
    spec_surviving_upto(ts, ts.len() as int, origin, dir)
}

/// A target one frame later: moved by its motion, its counter advanced.
pub open spec fn spec_advanced_target(t: Target) -> Target {
    let (x, y, z) = spec_motion_position(t.motion, t.instance_controller.position, t.count);
    Target {
        instance_controller: InstanceController {
            position: Vec3 { x: x as i64, y: y as i64, z: z as i64 },
            ..t.instance_controller
        },
        motion: t.motion,
        count: if t.count == u32::MAX {
            u32::MAX
        } else {
            (t.count + 1) as u32
        },
    }
}

/// The countdown score one frame later: down by one, floored at zero.
pub open spec fn spec_score_after(score: u32) -> u32 {
    if score == 0 {
        0u32
    } else {
        (score - 1) as u32
    }
}

/// The targets left after this frame's shooting, before their motion.
pub open spec fn spec_targets_kept(s: GameSceneState, input: InputStates) -> Seq<Target> {
    let cam = spec_camera_after(s.camera_controller, s.walls@, input);
    if s.state is Game && shot_fired(input) {
        spec_surviving(s.targets@, cam.position, spec_forward(cam))
    } else {
        s.targets@
    }
}

/// Whether this frame finishes the game: every target is gone (the win)
/// or the countdown reached zero (the loss).
pub open spec fn spec_game_over(s: GameSceneState, input: InputStates) -> bool {
    spec_targets_kept(s, input).len() == 0 || spec_score_after(s.score) == 0
}

/// The result message shown at the transition: the win or lose strip,
/// three tenths of the viewport wide, a quarter viewport above the
/// center.
pub open spec fn end_message(s: GameSceneState, win: bool) -> InstanceController {
    let w3 = (s.width as int * 300) / 1000;
    let uv = if win {
        UvRect { x: 0i64, y: 375i64, w: 800i64, h: 125i64 }
    } else {
        UvRect { x: 0i64, y: 500i64, w: 700i64, h: 125i64 }
    };
    InstanceController {
        scale: Vec3 {
            x: w3 as i64,
            y: spec_message_height(w3, uv.w as int) as i64,
            z: 1000i64,
        },
        rotation: 0i64,
        position: Vec3 { x: 0i64, y: ((s.height as int * 250) / 1000) as i64, z: 0i64 },
        uv,
    }
}

/// The restart instruction shown under the result message.
pub open spec fn end_indication(s: GameSceneState, win: bool) -> InstanceController {
    let w35 = (s.width as int * 350) / 1000;
    let y = (s.height as int * 250) / 1000;
    let mh = spec_message_height((s.width as int * 300) / 1000, if win {
        800int
    } else {
        700int
    });
    let ih = spec_message_height(w35, 1000);
    InstanceController {
        scale: Vec3 { x: w35 as i64, y: ih as i64, z: 1000i64 },
        rotation: 0i64,
        position: Vec3 { x: 0i64, y: (y - mh / 2 - ih / 2) as i64, z: 0i64 },
        uv: UvRect { x: 0i64, y: 250i64, w: 1000i64, h: 125i64 },
    }
}


/// Everything of the state but the targets agrees.
pub open spec fn eq_except_targets(a: GameSceneState, b: GameSceneState) -> bool {
    &&& a.state == b.state
    &&& a.width == b.width
    &&& a.height == b.height
    &&& a.camera_controller == b.camera_controller
    &&& a.floor == b.floor
    &&& a.walls == b.walls
    &&& a.reticle == b.reticle
    &&& a.message == b.message
    &&& a.indication == b.indication
    &&& a.score_ui == b.score_ui
    &&& a.score == b.score
}

/// Everything of the state but the walls agrees.
pub open spec fn eq_except_walls(a: GameSceneState, b: GameSceneState) -> bool {
    &&& a.state == b.state
    &&& a.width == b.width
    &&& a.height == b.height
    &&& a.camera_controller == b.camera_controller
    &&& a.floor == b.floor
    &&& a.targets == b.targets
    &&& a.reticle == b.reticle
    &&& a.message == b.message
    &&& a.indication == b.indication
    &&& a.score_ui == b.score_ui
    &&& a.score == b.score
}

/// How one frame changes the game state: the camera turns and moves
/// against the walls, the sub-state logic runs, hit targets vanish and
/// the rest advance their motion, and everything renderable ends the
/// frame marked as seen by the renderer.
pub open spec fn game_updated(s: GameSceneState, input: InputStates, n: GameSceneState) -> bool {
    let cam = spec_camera_after(s.camera_controller, s.walls@, input);
    let kept = spec_targets_kept(s, input);
    &&& n.width == s.width && n.height == s.height
    &&& n.camera_controller == cam
    &&& n.walls@.len() == 8
    &&& forall|i: int|
        0 <= i < 8 ==> (#[trigger] n.walls@[i]).vertices == s.walls@[i].vertices && n.walls@[i].edges
            == s.walls@[i].edges && n.walls@[i].instance_controller.content
            == s.walls@[i].instance_controller.content
            && n.walls@[i].instance_controller.is_cached
    &&& n.floor.instance_controller.content == s.floor.instance_controller.content
    &&& n.floor.instance_controller.is_cached
    &&& n.reticle.instance_controller.content == s.reticle.instance_controller.content
    &&& n.reticle.instance_controller.is_cached
    &&& n.targets@.len() == kept.len()
    &&& forall|j: int| 0 <= j < kept.len() ==> n.targets@[j] == spec_advanced_target(#[trigger] kept[j])
    &&& game_logic_updated(s, input, n)
}

/// How the sub-state logic changes score, score display, sub-state and
/// the end messages. In the running sub-state the score counts down and
/// is redisplayed, and the game ends when no target or no score is
/// left; in the end sub-state they all rest.
pub open spec fn game_logic_updated(
    s: GameSceneState,
    input: InputStates,
    n: GameSceneState,
) -> bool {
    if s.state is Game {
        let score2 = spec_score_after(s.score);
        let win = spec_targets_kept(s, input).len() == 0;
        &&& n.score == score2
        &&& n.score_ui.x == s.score_ui.x && n.score_ui.y == s.score_ui.y && n.score_ui.width
            == s.score_ui.width
        &&& n.score_ui.shows(score2)
        &&& forall|i: int|
            0 <= i < n.score_ui.instance_controllers@.len() ==> (#[trigger] n
                .score_ui
                .instance_controllers@[i]).is_cached
        &&& if spec_game_over(s, input) {
            &&& n.state is End
            &&& n.message matches Some(m) && m.instance_controller == end_message(s, win)
                && m.is_updated
            &&& n.indication matches Some(ind) && ind.instance_controller == end_indication(s, win)
                && ind.is_updated
        } else {
            &&& n.state is Game
            &&& n.message is None
            &&& n.indication is None
        }
    } else {
        &&& n.score == s.score
        &&& n.state is End
        &&& n.score_ui.x == s.score_ui.x && n.score_ui.y == s.score_ui.y && n.score_ui.width
            == s.score_ui.width
        &&& n.score_ui.instance_controllers@.len() == s.score_ui.instance_controllers@.len()
        &&& forall|i: int|
            0 <= i < n.score_ui.instance_controllers@.len() ==> (#[trigger] n
                .score_ui
                .instance_controllers@[i]).content == s.score_ui.instance_controllers@[i].content
                && n.score_ui.instance_controllers@[i].is_cached
        &&& n.message matches Some(m) && s.message matches Some(m0) && m.instance_controller
            == m0.instance_controller && m.is_updated
        &&& n.indication matches Some(ind) && s.indication matches Some(ind0)
            && ind.instance_controller == ind0.instance_controller && ind.is_updated
    }
}

/// The six renderer commands a game frame appends, in order: the camera,
/// the skybox, the sparse world-instance update (eight wall slots, the
/// floor slot, one filled slot per surviving target), the world draw
/// grouped as cubes then spheres, the sparse UI update (reticle, then
/// in the end sub-state the two messages, then the score digits), and
/// the UI draw of all UI slots with no clear.
pub open spec fn game_requests_ok(
    s: GameSceneState,
    input: InputStates,
    n: GameSceneState,
    before: Seq<RenderRequest>,
    after: Seq<RenderRequest>,
) -> bool {
    let base = before.len() as int;
    let nt = n.targets@.len() as int;
    &&& after.len() == base + 6
    &&& forall|i: int| 0 <= i < base ==> after[i] == before[i]
    &&& after[base] matches RenderRequest::UpdateCamera(c) && c == n.camera_controller
    &&& after[base + 1] is DrawSkybox
    &&& after[base + 2] matches RenderRequest::UpdateWorldInstances(w) && ({
        &&& w@.len() == 9 + nt
        &&& forall|i: int|
            0 <= i < 8 ==> w@[i] == (if (#[trigger] s.walls@[i]).instance_controller.is_cached {
                None
            } else {
                Some(s.walls@[i].instance_controller.content)
            })
        &&& w@[8] == (if s.floor.instance_controller.is_cached {
            None
        } else {
            Some(s.floor.instance_controller.content)
        })
        &&& forall|j: int| 0 <= j < nt ==> w@[9 + j] == Some((#[trigger] n.targets@[j]).instance_controller)
    })
    &&& after[base + 3] matches RenderRequest::DrawWorld(d) && d.instance_indices@ == seq![
        (ModelId::Cube, 0u32, 9u32),
        (ModelId::Sphere, 9u32, (9 + nt) as u32),
    ]
    &&& after[base + 4] matches RenderRequest::UpdateUiInstances(u) && game_ui_slots_ok(
        s,
        input,
        n,
        u@,
    )
    &&& after[base + 5] matches RenderRequest::DrawUi(d) && d.clear_color is None
        && d.instance_indices@ == seq![(0u32, ui_slot_count(s, input, n) as u32)]
}

/// How many UI slots the frame uploads: the reticle, the two end
/// messages when the frame ends in the end sub-state, and one slot per
/// score digit.
pub open spec fn ui_slot_count(s: GameSceneState, input: InputStates, n: GameSceneState) -> int {
    1 + (if n.state is End {
        2int
    } else {
        0int
    }) + n.score_ui.instance_controllers@.len()
}

/// The UI slots of the frame, index-aligned with the renderer's UI
/// instance buffer: a slot is filled only when its entity has not been
/// seen by the renderer yet.
pub open spec fn game_ui_slots_ok(
    s: GameSceneState,
    input: InputStates,
    n: GameSceneState,
    u: Seq<Option<InstanceController>>,
) -> bool {
    let fresh_end = s.state is Game && spec_game_over(s, input);
    let win = spec_targets_kept(s, input).len() == 0;
    let digits_at = 1 + (if n.state is End {
        2int
    } else {
        0int
    });
    &&& u.len() == ui_slot_count(s, input, n)
    &&& u[0] == (if s.reticle.instance_controller.is_cached {
        None
    } else {
        Some(s.reticle.instance_controller.content)
    })
    &&& (fresh_end ==> u[1] == Some(end_message(s, win)) && u[2] == Some(end_indication(s, win)))
    &&& (s.state is End ==> ({
        &&& (s.message matches Some(m) ==> u[1] == (if m.is_updated {
            None
        } else {
            Some(m.instance_controller)
        }))
        &&& (s.indication matches Some(ind) ==> u[2] == (if ind.is_updated {
            None
        } else {
            Some(ind.instance_controller)
        }))
    }))
    &&& (s.state is Game ==> forall|j: int|
        0 <= j < n.score_ui.instance_controllers@.len() ==> u[digits_at + j] == Some(
            (#[trigger] n.score_ui.instance_controllers@[j]).content,
        ))
    &&& (s.state is End ==> forall|j: int|
        0 <= j < n.score_ui.instance_controllers@.len() ==> u[digits_at + j] == (if (
        #[trigger] s.score_ui.instance_controllers@[j]).is_cached {
            None
        } else {
            Some(s.score_ui.instance_controllers@[j].content)
        }))
}


impl GameSceneState {
    /// A fresh game for a viewport: the fixed arena, targets, reticle,
    /// score display and countdown score.
    pub fn new(width: i64, height: i64) -> (r: GameSceneState)
        requires
            1 <= width <= 1000000000,
            1 <= height <= 1000000000,
        ensures
            r.is_initial(width, height),
    {
        let mut camera_controller: CameraController = Default::default();
        camera_controller.width = width;
        camera_controller.height = height;
        camera_controller.position = Vec3 { x: 0, y: 1500, z: -35000 };

        let floor = Floor::new(40000, 80000);
        let mut walls: Vec<Wall> = Vec::new();
        walls.push(
            Wall::new(
                Vec3 { x: 0, y: 4000, z: 40000 },
                0,
                Vec3 { x: 40000, y: 8000, z: 1000 },
            ),
        );
        walls.push(
            Wall::new(
                Vec3 { x: 0, y: 4000, z: -40000 },
                180000,
                Vec3 { x: 40000, y: 8000, z: 1000 },
            ),
        );
        walls.push(
            Wall::new(
                Vec3 { x: 20000, y: 4000, z: 0 },
                90000,
                Vec3 { x: 80000, y: 8000, z: 1000 },
            ),
        );
        walls.push(
            Wall::new(
                Vec3 { x: -20000, y: 4000, z: 0 },
                -90000,
                Vec3 { x: 80000, y: 8000, z: 1000 },
            ),
        );
        walls.push(
            Wall::new(
                Vec3 { x: -2000, y: 1500, z: -20000 },
                0,
                Vec3 { x: 36000, y: 3000, z: 1000 },
            ),
        );
        walls.push(
            Wall::new(
                Vec3 { x: 2000, y: 1500, z: 20000 },
                0,
                Vec3 { x: 36000, y: 3000, z: 1000 },
            ),
        );
        walls.push(
            Wall::new(
                Vec3 { x: 11000, y: 3500, z: 0 },
                0,
                Vec3 { x: 18000, y: 7000, z: 1000 },
            ),
        );
        walls.push(
            Wall::new(
                Vec3 { x: -11000, y: 3500, z: 0 },
                0,
                Vec3 { x: 18000, y: 7000, z: 1000 },
            ),
        );

        let mut targets: Vec<Target> = Vec::new();
        targets.push(Target::new(Vec3 { x: 15000, y: 2500, z: -15000 }, Motion::Stationary));
        targets.push(
            Target::new(
                Vec3 { x: 0, y: 2000, z: 0 },
                Motion::SwayY { amplitude: 2000, base: 3000 },
            ),
        );
        targets.push(Target::new(Vec3 { x: 15000, y: 3000, z: 15000 }, Motion::Stationary));
        targets.push(
            Target::new(
                Vec3 { x: 0, y: 2000, z: 35000 },
                Motion::Weave { x_step: 51000, y_step: 79000, y_base: 2500, z: 35000, slowdown: 40 },
            ),
        );
        targets.push(
            Target::new(
                Vec3 { x: 25000, y: 30000, z: -20000 },
                Motion::SwayZ { amplitude: 2000, base: -20000 },
            ),
        );

        let reticle = Reticle::new();
        let score_ui = Digits::new(div_euclid_i64(width, 2), div_euclid_i64(height, 2), 100000, 1200);
        proof {
            crate::digits::lemma_spec_digits_len_u32(1200);
        }

        GameSceneState {
            state: State::Game,
            width,
            height,
            camera_controller,
            floor,
            walls,
            targets,
            reticle,
            message: None,
            indication: None,
            score_ui,
            score: 1380,
        }
    }

    /// Adopts a new viewport size for the camera.
    pub fn resize(&mut self, width: i64, height: i64)
        requires
            old(self).wf(),
            1 <= width <= 1000000000,
            1 <= height <= 1000000000,
        ensures
            *final(self) == old(self).with_viewport(width, height),
            final(self).wf(),
    {
        self.camera_controller.width = width;
        self.camera_controller.height = height;
    }

    /// The running sub-state's frame logic: the score counts down and is
    /// redisplayed, a fresh trigger press removes every target the aim
    /// line passes through, and the game ends (building the result and
    /// restart messages) once no target or no score is left.
    pub fn update_game(&mut self, input_states: &InputStates) -> (r: Option<Scene>)
        requires
            old(self).wf(),
            old(self).state is Game,
        ensures
            r is None,
            final(self).wf(),
            final(self).width == old(self).width,
            final(self).height == old(self).height,
            final(self).camera_controller == old(self).camera_controller,
            final(self).walls == old(self).walls,
            final(self).floor == old(self).floor,
            final(self).reticle == old(self).reticle,
            final(self).score == spec_score_after(old(self).score),
            final(self).score_ui.x == old(self).score_ui.x,
            final(self).score_ui.y == old(self).score_ui.y,
            final(self).score_ui.width == old(self).score_ui.width,
            final(self).score_ui.shows(spec_score_after(old(self).score)),
            forall|i: int|
                0 <= i < final(self).score_ui.instance_controllers@.len() ==> !(#[trigger] final(self).score_ui.instance_controllers@[i]).is_cached,
            ({
                let kept = if shot_fired(*input_states) {
                    spec_surviving(
                        old(self).targets@,
                        old(self).camera_controller.position,
                        spec_forward(old(self).camera_controller),
                    )
                } else {
                    old(self).targets@
                };
                let win = kept.len() == 0;
                &&& final(self).targets@ == kept
                &&& if kept.len() == 0 || spec_score_after(old(self).score) == 0 {
                    &&& final(self).state is End
                    &&& final(self).message matches Some(m) && m.instance_controller
                        == end_message(*old(self), win) && !m.is_updated
                    &&& final(self).indication matches Some(ind) && ind.instance_controller
                        == end_indication(*old(self), win) && !ind.is_updated
                } else {
                    &&& final(self).state is Game
                    &&& final(self).message is None
                    &&& final(self).indication is None
                }
            }),
    {
        self.score = if self.score == 0 {
            0
        } else {
            self.score - 1
        };
        self.score_ui.set_number(self.score);
        proof {
            crate::digits::lemma_spec_digits_len_u32(self.score);
        }

        if input_states.pressing.get(&PressingInput::MouseLeft) == 1 {
            let origin = self.camera_controller.position;
            let direction = self.camera_controller.forward_direction();
            proof {
                assert(direction == spec_forward(self.camera_controller));
            }
            let ghost pre = self.targets@;
            let mut kept: Vec<Target> = Vec::new();
            let mut i: usize = 0;
            while i < self.targets.len()
                invariant
                    self.targets@ == pre,
                    pre.len() <= 16,
                    forall|j: int| 0 <= j < pre.len() ==> (#[trigger] pre[j]).wf(),
                    in_bounds3(origin, 500000),
                    in_bounds3(direction, 1000),
                    0 <= i <= pre.len(),
                    kept@ == spec_surviving_upto(pre, i as int, origin, direction),
                    kept@.len() <= i,
                    forall|j: int| 0 <= j < kept@.len() ==> (#[trigger] kept@[j]).wf(),
                decreases pre.len() - i,
            {
                let t = self.targets[i];
                if !t.check_shot(origin, direction) {
                    kept.push(t);
                }
                i = i + 1;
            }
            self.targets = kept;
        }

        if self.targets.len() == 0 || self.score == 0 {
            let win = self.targets.len() == 0;
            let uv = if win {
                UvRect { x: 0, y: 375, w: 800, h: 125 }
            } else {
                UvRect { x: 0, y: 500, w: 700, h: 125 }
            };
            proof {
                vstd::arithmetic::div_mod::lemma_div_is_ordered(0, self.height as int * 250, 1000);
                vstd::arithmetic::div_mod::lemma_div_nonincreasing(self.height as int * 250, 1000);
                vstd::arithmetic::div_mod::lemma_div_is_ordered(0, self.width as int * 300, 1000);
                vstd::arithmetic::div_mod::lemma_div_nonincreasing(self.width as int * 300, 1000);
                vstd::arithmetic::div_mod::lemma_div_is_ordered(0, self.width as int * 350, 1000);
                vstd::arithmetic::div_mod::lemma_div_nonincreasing(self.width as int * 350, 1000);
            }
            let y = div_euclid_i64(self.height * 250, 1000);
            let w3 = div_euclid_i64(self.width * 300, 1000);
            let message = Message::new(0, y, w3, uv);
            let w35 = div_euclid_i64(self.width * 350, 1000);
            let mut indication = Message::new(0, 0, w35, UvRect { x: 0, y: 250, w: 1000, h: 125 });
            let mh2 = div_euclid_i64(message.get_height(), 2);
            let ih2 = div_euclid_i64(indication.get_height(), 2);
            indication.set_position(0, y - mh2 - ih2);
            self.message = Some(message);
            self.indication = Some(indication);
            self.state = State::End;
        }

        None
    }

    /// The end sub-state's frame logic: a fresh restart press hands back
    /// a new title scene; anything else holds the state.
    pub fn update_end(&mut self, input_states: &InputStates) -> (r: Option<Scene>)
        requires
            old(self).wf(),
            old(self).state is End,
        ensures
            *final(self) == *old(self),
            old(self).restarted(*input_states) ==> (r matches Some(sc) && sc
                matches Scene::TitleScene(t) && t.is_initial(old(self).width, old(self).height)),
            !old(self).restarted(*input_states) ==> r is None,
    {
        if input_states.pressing.get(&PressingInput::KeyE) == 1 {
            Some(Scene::TitleScene(TitleSceneState::new(self.width, self.height)))
        } else {
            None
        }
    }
}


impl GameSceneState {
    /// One frame of the running game. The camera turns with the cursor
    /// and moves against every wall in order; the sub-state logic runs;
    /// the surviving targets advance their motion; and the six renderer
    /// commands of the frame are appended. A finished game hands back a
    /// fresh title scene on the restart press.
    #[verifier::rlimit(100)]
    pub fn update(&mut self, input_states: &InputStates, render_requests: &mut Vec<RenderRequest>)
        -> (r: Option<Scene>)
        requires
            old(self).wf(),
            -1000000000000 <= input_states.moving.x <= 1000000000000,
            -1000000000000 <= input_states.moving.y <= 1000000000000,
        ensures
            final(self).wf(),
            game_updated(*old(self), *input_states, *final(self)),
            game_requests_ok(
                *old(self),
                *input_states,
                *final(self),
                old(render_requests)@,
                final(render_requests)@,
            ),
            old(self).restarted(*input_states) ==> (r matches Some(sc) && sc
                matches Scene::TitleScene(t) && t.is_initial(old(self).width, old(self).height)),
            !old(self).restarted(*input_states) ==> r is None,
    {
        let ghost s0 = *old(self);
        let ghost cam_spec = spec_camera_after(s0.camera_controller, s0.walls@, *input_states);

        // 1. Turn the camera: a full viewport of cursor movement is a
        // quarter turn.
        let dy = div_euclid_i64(input_states.moving.x * 90000, self.camera_controller.width);
        let dx = div_euclid_i64(input_states.moving.y * 90000, self.camera_controller.height);
        proof {
            vstd::arithmetic::div_mod::lemma_div_is_ordered(
                input_states.moving.x * 90000,
                90000000000000000,
                self.camera_controller.width as int,
            );
            vstd::arithmetic::div_mod::lemma_div_is_ordered(
                -90000000000000000,
                input_states.moving.x * 90000,
                self.camera_controller.width as int,
            );
            vstd::arithmetic::div_mod::lemma_div_is_ordered(
                input_states.moving.y * 90000,
                90000000000000000,
                self.camera_controller.height as int,
            );
            vstd::arithmetic::div_mod::lemma_div_is_ordered(
                -90000000000000000,
                input_states.moving.y * 90000,
                self.camera_controller.height as int,
            );
        }
        self.camera_controller.rotate(dy, dx);

        // 2. Move the camera: the movement intent, aligned to the yaw,
        // resolved against every wall in order, clamped into the world.
        let pressing = &input_states.pressing;
        let key_r: i64 = if pressing.get(&PressingInput::KeyD) > 0 {
            1
        } else {
            0
        };
        let key_l: i64 = if pressing.get(&PressingInput::KeyA) > 0 {
            1
        } else {
            0
        };
        let key_f: i64 = if pressing.get(&PressingInput::KeyW) > 0 {
            1
        } else {
            0
        };
        let key_b: i64 = if pressing.get(&PressingInput::KeyS) > 0 {
            1
        } else {
            0
        };
        let rl = key_r - key_l;
        let fb = key_f - key_b;
        proof {
            assert(rl == spec_axis_rl(input_states.pressing));
            assert(fb == spec_axis_fb(input_states.pressing));
        }
        if rl != 0 || fb != 0 {
            let a = if rl != 0 && fb != 0 {
                SPEED_DIAGONAL
            } else {
                SPEED
            };
            proof {
                assert(-250 <= rl * a <= 250 && -250 <= fb * a <= 250) by (nonlinear_arith)
                    requires
                        -1 <= rl <= 1,
                        -1 <= fb <= 1,
                        0 < a <= 250,
                ;
            }
            let raw = Vec3 { x: rl * a, y: 0, z: fb * a };
            let mut velocity = self.camera_controller.align_to_direction(raw);
            proof {
                crate::numeric::lemma_sin_milli_range(self.camera_controller.yaw as int);
                crate::numeric::lemma_sin_milli_range(self.camera_controller.yaw as int + 90000);
                lemma_initial_velocity_bounds(
                    raw.x as int,
                    raw.z as int,
                    spec_cos_milli(self.camera_controller.yaw as int),
                    spec_sin_milli(self.camera_controller.yaw as int),
                    velocity.x as int,
                    velocity.z as int,
                );
                assert(velocity == spec_move_velocity(
                    rl as int,
                    fb as int,
                    self.camera_controller.yaw as int,
                ));
            }
            let position = self.camera_controller.position;
            let ghost v0 = velocity;
            let mut k: usize = 0;
            while k < 8
                invariant
                    self.walls@.len() == 8,
                    forall|i: int| 0 <= i < 8 ==> (#[trigger] self.walls@[i]).wf(),
                    in_bounds3(position, POS_LIMIT as int),
                    0 <= k <= 8,
                    velocity == spec_chain(self.walls@, k as int, position, v0),
                    velocity.y == 0,
                    velocity.x * velocity.x + velocity.z * velocity.z <= 500000 + k * 2202,
                    -800 <= velocity.x <= 800,
                    -800 <= velocity.z <= 800,
                decreases 8 - k,
            {
                let adjusted = self.walls[k].check_collision(position, velocity);
                proof {
                    assert(velocity.x * velocity.x + velocity.z * velocity.z <= 600000);
                    lemma_coord_bound(adjusted.x as int, adjusted.z as int);
                }
                velocity = adjusted;
                k = k + 1;
            }
            self.camera_controller.position = Vec3 {
                x: crate::numeric::clamp_i64(position.x + velocity.x, -POS_LIMIT, POS_LIMIT),
                y: crate::numeric::clamp_i64(position.y + velocity.y, -POS_LIMIT, POS_LIMIT),
                z: crate::numeric::clamp_i64(position.z + velocity.z, -POS_LIMIT, POS_LIMIT),
            };
        }
        proof {
            assert(self.camera_controller == cam_spec);
        }

        // 3. The sub-state logic: shooting and scoring, or the restart
        // check.
        let next_scene = match self.state {
            State::Game => self.update_game(input_states),
            State::End => self.update_end(input_states),
        };
        let ghost kept = self.targets@;
        proof {
            assert(kept == spec_targets_kept(s0, *input_states));
        }

        // 4. Advance every target's motion, after shooting, so a shot
        // target vanishes before it would have moved.
        let ghost s_shot = *self;
        let mut j: usize = 0;
        while j < self.targets.len()
            invariant
                eq_except_targets(*self, s_shot),
                self.targets@.len() == kept.len(),
                kept.len() <= 16,
                forall|i: int| 0 <= i < kept.len() ==> (#[trigger] kept[i]).wf(),
                0 <= j <= kept.len(),
                forall|i: int| j <= i < kept.len() ==> #[trigger] self.targets@[i] == kept[i],
                forall|i: int|
                    0 <= i < j ==> #[trigger] self.targets@[i] == spec_advanced_target(kept[i]),
                forall|i: int| 0 <= i < kept.len() ==> (#[trigger] self.targets@[i]).wf(),
            decreases kept.len() - j,
        {
            let t = &mut self.targets[j];
            t.update();
            j = j + 1;
        }

        // 5. Collect the sparse world-instance updates: wall and floor
        // slots only when unseen, one filled slot per target.
        let ghost s_moved = *self;
        let mut update_world_requests: Vec<Option<InstanceController>> = Vec::new();
        let mut i: usize = 0;
        while i < 8
            invariant
                eq_except_walls(*self, s_moved),
                self.walls@.len() == 8,
                0 <= i <= 8,
                update_world_requests@.len() == i,
                forall|n: int|
                    0 <= n < i ==> #[trigger] update_world_requests@[n] == (if s0.walls@[n].instance_controller.is_cached {
                        None
                    } else {
                        Some(s0.walls@[n].instance_controller.content)
                    }),
                forall|n: int|
                    0 <= n < 8 ==> (#[trigger] self.walls@[n]).vertices == s0.walls@[n].vertices
                        && self.walls@[n].edges == s0.walls@[n].edges
                        && self.walls@[n].instance_controller.content
                        == s0.walls@[n].instance_controller.content,
                forall|n: int|
                    i <= n < 8 ==> (#[trigger] self.walls@[n]).instance_controller.is_cached
                        == s0.walls@[n].instance_controller.is_cached,
                forall|n: int|
                    0 <= n < i ==> (#[trigger] self.walls@[n]).instance_controller.is_cached,
            decreases 8 - i,
        {
            let w = &mut self.walls[i];
            let slot = w.get_instance_controller();
            update_world_requests.push(slot);
            i = i + 1;
        }
        update_world_requests.push(self.floor.get_instance_controller());
        let ghost world_head = update_world_requests@;
        let ghost s_collect = *self;
        let mut j2: usize = 0;
        let targets_len = self.targets.len();
        while j2 < targets_len
            invariant
                eq_except_targets(*self, s_collect),
                self.targets@ == s_collect.targets@,
                self.targets@.len() == targets_len,
                targets_len <= 16,
                0 <= j2 <= targets_len,
                update_world_requests@.len() == 9 + j2,
                forall|n: int|
                    0 <= n < 9 ==> #[trigger] update_world_requests@[n] == world_head[n],
                forall|n: int|
                    0 <= n < j2 ==> #[trigger] update_world_requests@[9 + n] == Some(
                        self.targets@[n].instance_controller,
                    ),
            decreases targets_len - j2,
        {
            let t = &mut self.targets[j2];
            let ic = t.get_instance_controller();
            update_world_requests.push(Some(ic));
            proof {
                assert(self.targets@ =~= s_collect.targets@);
            }
            j2 = j2 + 1;
        }

        // 6. Collect the sparse UI updates: the reticle, in the end
        // sub-state the two messages, then the score digits.
        let mut update_ui_requests: Vec<Option<InstanceController>> = Vec::new();
        update_ui_requests.push(self.reticle.get_instance_controller());
        match &mut self.message {
            Some(n) => {
                let slot = n.get_instance_controller();
                update_ui_requests.push(slot);
            },
            None => {},
        }
        match &mut self.indication {
            Some(n) => {
                let slot = n.get_instance_controller();
                update_ui_requests.push(slot);
            },
            None => {},
        }
        let digit_requests = self.score_ui.get_instance_controllers();
        let mut j3: usize = 0;
        let ghost ui_head = update_ui_requests@;
        while j3 < digit_requests.len()
            invariant
                0 <= j3 <= digit_requests@.len(),
                digit_requests@.len() <= 10,
                update_ui_requests@.len() == ui_head.len() + j3,
                forall|n: int| 0 <= n < ui_head.len() ==> #[trigger] update_ui_requests@[n] == ui_head[n],
                forall|n: int|
                    0 <= n < j3 ==> #[trigger] update_ui_requests@[ui_head.len() + n]
                        == digit_requests@[n],
            decreases digit_requests@.len() - j3,
        {
            let d = digit_requests[j3];
            update_ui_requests.push(d);
            j3 = j3 + 1;
        }
        let ui_count = update_ui_requests.len();

        // 7. Emit the frame's six renderer commands in order.
        render_requests.push(RenderRequest::UpdateCamera(self.camera_controller));
        render_requests.push(RenderRequest::DrawSkybox);
        render_requests.push(RenderRequest::UpdateWorldInstances(update_world_requests));
        let mut draw_indices: Vec<(ModelId, u32, u32)> = Vec::new();
        draw_indices.push((ModelId::Cube, 0, 9));
        draw_indices.push((ModelId::Sphere, 9, 9 + targets_len as u32));
        render_requests.push(
            RenderRequest::DrawWorld(DrawWorldDescriptor { instance_indices: draw_indices }),
        );
        render_requests.push(RenderRequest::UpdateUiInstances(update_ui_requests));
        proof {
            assert(draw_indices@ =~= seq![
                (ModelId::Cube, 0u32, 9u32),
                (ModelId::Sphere, 9u32, (9 + self.targets@.len()) as u32),
            ]);
        }
        let mut ui_indices: Vec<(u32, u32)> = Vec::new();
        ui_indices.push((0, ui_count as u32));
        proof {
            assert(ui_indices@ =~= seq![(0u32, ui_count as u32)]);
        }
        render_requests.push(
            RenderRequest::DrawUi(
                DrawUiDescriptor { clear_color: None, instance_indices: ui_indices },
            ),
        );

        next_scene
    }
}

/// The freshly aligned movement vector has per-axis speed at most 500
/// ticks and squared planar length at most 500000.
proof fn lemma_initial_velocity_bounds(rx: int, rz: int, c: int, s: int, vx: int, vz: int)
    requires
        -250 <= rx <= 250,
        -250 <= rz <= 250,
        -1000 <= c <= 1000,
        -1000 <= s <= 1000,
        vx == (rx * c + rz * s) / 1000,
        vz == (rz * c - rx * s) / 1000,
    ensures
        -500 <= vx <= 500,
        -500 <= vz <= 500,
        vx * vx + vz * vz <= 500000,
{
    assert(-250000 <= rx * c <= 250000 && -250000 <= rz * s <= 250000 && -250000 <= rz * c
        <= 250000 && -250000 <= rx * s <= 250000) by (nonlinear_arith)
        requires
            -250 <= rx <= 250,
            -250 <= rz <= 250,
            -1000 <= c <= 1000,
            -1000 <= s <= 1000,
    ;
    vstd::arithmetic::div_mod::lemma_div_multiples_vanish(-500, 1000);
    vstd::arithmetic::div_mod::lemma_div_multiples_vanish(500, 1000);
    vstd::arithmetic::div_mod::lemma_div_is_ordered(-500000, rx * c + rz * s, 1000);
    vstd::arithmetic::div_mod::lemma_div_is_ordered(rx * c + rz * s, 500000, 1000);
    vstd::arithmetic::div_mod::lemma_div_is_ordered(-500000, rz * c - rx * s, 1000);
    vstd::arithmetic::div_mod::lemma_div_is_ordered(rz * c - rx * s, 500000, 1000);
    assert(vx * vx + vz * vz <= 500000) by (nonlinear_arith)
        requires
            -500 <= vx <= 500,
            -500 <= vz <= 500,
    ;
}

/// A planar velocity of squared length within the chain budget keeps
/// each coordinate within 800 ticks.
proof fn lemma_coord_bound(x: int, z: int)
    requires
        x * x + z * z <= 620000,
    ensures
        -800 <= x <= 800,
        -800 <= z <= 800,
{
    assert(-800 <= x <= 800 && -800 <= z <= 800) by (nonlinear_arith)
        requires
            x * x + z * z <= 620000,
    ;
}

} // verus!
