//! The title scene: one message quad and the edge-triggered confirm
//! input that starts a game.

use vstd::prelude::*;

verus! {

use super::game::GameSceneState;
use super::Scene;
use crate::input::{InputStates, PressingInput};
use crate::instance::{InstanceController, UvRect};
use crate::message::{spec_message_height, Message};
use crate::numeric::div_euclid_i64;
use crate::render::{DrawUiDescriptor, RenderRequest, Rgb};

/// The state of the title scene.
pub struct TitleSceneState {
    pub width: i64,
    pub height: i64,
    pub message: Message,
}

impl TitleSceneState {
    pub open spec fn wf(self) -> bool {
        &&& 1 <= self.width <= 1000000000
        &&& 1 <= self.height <= 1000000000
    }

    /// The freshly constructed title scene for a viewport: its message
    /// sits a quarter viewport below the center, three tenths of the
    /// viewport wide, showing the title strip of the UI texture.
    pub open spec fn is_initial(self, width: i64, height: i64) -> bool {
        &&& self.width == width
        &&& self.height == height
        &&& self.wf()
        &&& !self.message.is_updated
        &&& self.message.instance_controller == (InstanceController {
            scale: title_message_scale(width),
            rotation: 0i64,
            position: crate::geometry::Vec3 {
                x: 0i64,
                y: (-((height as int * 250) / 1000)) as i64,
                z: 0i64,
            },
            uv: UvRect { x: 0i64, y: 125i64, w: 1000i64, h: 125i64 },
        })
    }

    /// Whether this frame's input confirms the title screen: the start
    /// key was pressed exactly this frame.
    pub open spec fn confirmed(self, input: InputStates) -> bool {
        input.pressing.spec_get(PressingInput::KeyE) == 1
    }

    pub fn new(width: i64, height: i64) -> (r: TitleSceneState)
        requires
            1 <= width <= 1000000000,
            1 <= height <= 1000000000,
        ensures
            r.is_initial(width, height),
    {
        proof {
            vstd::arithmetic::div_mod::lemma_div_is_ordered(0, height as int * 250, 1000);
            vstd::arithmetic::div_mod::lemma_div_nonincreasing(height as int * 250, 1000);
            vstd::arithmetic::div_mod::lemma_div_is_ordered(0, width as int * 300, 1000);
            vstd::arithmetic::div_mod::lemma_div_nonincreasing(width as int * 300, 1000);
        }
        let y = -div_euclid_i64(height * 250, 1000);
        let w = div_euclid_i64(width * 300, 1000);
        TitleSceneState {
            width,
            height,
            message: Message::new(0, y, w, UvRect { x: 0, y: 125, w: 1000, h: 125 }),
        }
    }

    /// One frame of the title scene: emits the title message (once) and
    /// a cleared UI draw, and starts a fresh game when confirmed.
    pub fn update(&mut self, input_states: &InputStates, render_requests: &mut Vec<RenderRequest>)
        -> (r: Option<Scene>)
        requires
            old(self).wf(),
        ensures
            final(self).wf(),
            final(self).width == old(self).width,
            final(self).height == old(self).height,
            final(self).message.instance_controller == old(self).message.instance_controller,
            final(self).message.is_updated,
            title_requests_ok(*old(self), old(render_requests)@, final(render_requests)@),
            old(self).confirmed(*input_states) ==> (r matches Some(s) && s
                matches Scene::GameScene(g) && g.is_initial(old(self).width, old(self).height)),
            !old(self).confirmed(*input_states) ==> r is None,
    {
        let next_scene: Option<Scene> = if input_states.pressing.get(&PressingInput::KeyE) == 1 {
            Some(Scene::GameScene(GameSceneState::new(self.width, self.height)))
        } else {
            None
        };

        let mut update_requests: Vec<Option<InstanceController>> = Vec::new();
        update_requests.push(self.message.get_instance_controller());
        render_requests.push(RenderRequest::UpdateUiInstances(update_requests));
        let mut indices: Vec<(u32, u32)> = Vec::new();
        indices.push((0, 1));
        render_requests.push(
            RenderRequest::DrawUi(
                DrawUiDescriptor {
                    clear_color: Some(Rgb { r: 0, g: 0, b: 0 }),
                    instance_indices: indices,
                },
            ),
        );

        next_scene
    }
}

/// The scale of the title message quad for a viewport width.
pub open spec fn title_message_scale(width: i64) -> crate::geometry::Vec3 {
    let w = (width as int * 300) / 1000;
    crate::geometry::Vec3 {
        x: w as i64,
        y: spec_message_height(w, 1000) as i64,
        z: 1000i64,
    }
}

/// The two renderer commands a title frame appends: the title message
/// slot (filled only the first time) and a UI draw of one instance over
/// a black clear.
pub open spec fn title_requests_ok(
    t: TitleSceneState,
    before: Seq<RenderRequest>,
    after: Seq<RenderRequest>,
) -> bool {
    &&& after.len() == before.len() + 2
    &&& forall|i: int| 0 <= i < before.len() ==> after[i] == before[i]
    &&& after[before.len() as int] matches RenderRequest::UpdateUiInstances(v) && v@ == seq![
        if t.message.is_updated {
            None
        } else {
            Some(t.message.instance_controller)
        },
    ]
    &&& after[before.len() as int + 1] matches RenderRequest::DrawUi(d) && d.clear_color == Some(
        Rgb { r: 0u32, g: 0u32, b: 0u32 },
    ) && d.instance_indices@ == seq![(0u32, 1u32)]
}

} // verus!
