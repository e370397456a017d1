//! The scene state machine: a preparation placeholder until the window
//! exists, the title screen, and the running game. The manager owns
//! exactly one scene and replaces it wholesale on a transition.

pub mod game;
pub mod title;

use vstd::prelude::*;

verus! {

use crate::input::InputStates;
use crate::render::RenderRequest;
use game::{game_requests_ok, game_updated, GameSceneState};
use title::{title_requests_ok, TitleSceneState};

/// The top-level game mode.
pub enum Scene {
    /// Waiting for the window: inert until the window size is known.
    PrepareScene,
    TitleScene(TitleSceneState),
    GameScene(GameSceneState),
}

impl Scene {
    pub open spec fn wf(self) -> bool {
        match self {
            Scene::PrepareScene => true,
            Scene::TitleScene(t) => t.wf(),
            Scene::GameScene(g) => g.wf(),
        }
    }
}

/// Owns the active scene and drives its per-frame update.
pub struct SceneManager {
    pub scene: Scene,
}

impl SceneManager {
    /// The first scene is the preparation placeholder.
    pub fn new() -> (r: SceneManager)
        ensures
            r.scene is PrepareScene,
            r.scene.wf(),
    {
        SceneManager { scene: Scene::PrepareScene }
    }

    /// Runs one frame of the active scene and performs the transition it
    /// asks for: the preparation scene does nothing, the title scene may
    /// start a game, a finished game may hand back a fresh title scene.
    pub fn update(&mut self, input_states: &InputStates, render_requests: &mut Vec<RenderRequest>)
        requires
            old(self).scene.wf(),
            -1000000000000 <= input_states.moving.x <= 1000000000000,
            -1000000000000 <= input_states.moving.y <= 1000000000000,
        ensures
            final(self).scene.wf(),
            old(self).scene is PrepareScene ==> *final(self) == *old(self) && *final(render_requests) == *old(render_requests),
            old(self).scene matches Scene::TitleScene(t) ==> ({
                &&& title_requests_ok(t, old(render_requests)@, final(render_requests)@)
                &&& (t.confirmed(*input_states) ==> (final(self).scene matches Scene::GameScene(
                    g,
                ) && g.is_initial(t.width, t.height)))
                &&& (!t.confirmed(*input_states) ==> (final(self).scene matches Scene::TitleScene(
                    t2,
                ) && t2.width == t.width && t2.height == t.height
                    && t2.message.instance_controller == t.message.instance_controller))
            }),
            old(self).scene matches Scene::GameScene(g) ==> ({
                &&& (g.restarted(*input_states) ==> (final(self).scene matches Scene::TitleScene(
                    t,
                ) && t.is_initial(g.width, g.height)))
                &&& (!g.restarted(*input_states) ==> (final(self).scene matches Scene::GameScene(
                    g2,
                ) && game_updated(g, *input_states, g2) && game_requests_ok(
                    g,
                    *input_states,
                    g2,
                    old(render_requests)@,
                    final(render_requests)@,
                )))
            }),
    {
        let next = match &mut self.scene {
            Scene::PrepareScene => {
                return ;
            },
            Scene::TitleScene(n) => n.update(input_states, render_requests),
            Scene::GameScene(n) => n.update(input_states, render_requests),
        };
        if let Some(n) = next {
            self.scene = n;
        }
    }

    /// Moves from the preparation scene to the title scene once the
    /// window exists and its size is known. In any other scene this does
    /// nothing.
    pub fn on_window_created(&mut self, width: i64, height: i64)
        requires
            old(self).scene.wf(),
            1 <= width <= 1000000000,
            1 <= height <= 1000000000,
        ensures
            final(self).scene.wf(),
            old(self).scene is PrepareScene ==> (final(self).scene matches Scene::TitleScene(t)
                && t.is_initial(width, height)),
            !(old(self).scene is PrepareScene) ==> *final(self) == *old(self),
    {
        match self.scene {
            Scene::PrepareScene => {
                self.scene = Scene::TitleScene(TitleSceneState::new(width, height));
            },
            _ => {
                return ;
            },
        }
    }

    /// Tells the scene the window size changed. Only the game scene
    /// keeps a camera that depends on it.
    pub fn resize(&mut self, width: i64, height: i64)
        requires
            old(self).scene.wf(),
            1 <= width <= 1000000000,
            1 <= height <= 1000000000,
        ensures
            final(self).scene.wf(),
            old(self).scene matches Scene::GameScene(g) ==> (final(self).scene
                matches Scene::GameScene(g2) && g2 == g.with_viewport(width, height)),
            !(old(self).scene is GameScene) ==> *final(self) == *old(self),
    {
        match &mut self.scene {
            Scene::GameScene(n) => n.resize(width, height),
            _ => (),
        }
    }
}

} // verus!
