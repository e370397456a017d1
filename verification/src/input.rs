//! Frame-coherent input snapshot: per-key "frames held" counters and the
//! cursor movement accumulated since the last frame. The window loop
//! feeds events in; the scenes read the snapshot.

use vstd::prelude::*;

verus! {

use crate::numeric::spec_clamp;

/// The logical inputs this game reads.
#[derive(Clone, Copy, PartialEq, Eq, Structural, Debug, Hash)]
pub enum PressingInput {
    KeyW,
    KeyA,
    KeyS,
    KeyD,
    KeyE,
    MouseLeft,
}

/// How long each logical input has been held: 0 when released, 1 on the
/// frame the press begins, growing by one per frame while held.
#[derive(Clone, Copy, PartialEq, Eq, Structural, Debug)]
pub struct PressingInputStates {
    pub key_w: u32,
    pub key_a: u32,
    pub key_s: u32,
    pub key_d: u32,
    pub key_e: u32,
    pub mouse_left: u32,
}

impl Default for PressingInputStates {
    /// Nothing pressed.
    fn default() -> (r: Self)
        ensures
            forall|i: PressingInput| #[trigger] r.spec_get(i) == 0u32,
    {
        PressingInputStates { key_w: 0, key_a: 0, key_s: 0, key_d: 0, key_e: 0, mouse_left: 0 }
    }
}

impl PressingInputStates {
    /// The held counter of one logical input.
    pub open spec fn spec_get(self, i: PressingInput) -> u32 {
        match i {
            PressingInput::KeyW => self.key_w,
            PressingInput::KeyA => self.key_a,
            PressingInput::KeyS => self.key_s,
            PressingInput::KeyD => self.key_d,
            PressingInput::KeyE => self.key_e,
            PressingInput::MouseLeft => self.mouse_left,
        }
    }

    /// The updated state where input `i` holds `v` and the rest is kept.
    pub open spec fn spec_set(self, i: PressingInput, v: u32) -> PressingInputStates {
        match i {
            PressingInput::KeyW => PressingInputStates { key_w: v, ..self },
            PressingInput::KeyA => PressingInputStates { key_a: v, ..self },
            PressingInput::KeyS => PressingInputStates { key_s: v, ..self },
            PressingInput::KeyD => PressingInputStates { key_d: v, ..self },
            PressingInput::KeyE => PressingInputStates { key_e: v, ..self },
            PressingInput::MouseLeft => PressingInputStates { mouse_left: v, ..self },
        }
    }

    pub fn get(&self, pressing_input: &PressingInput) -> (r: u32)
        ensures
            r == self.spec_get(*pressing_input),
    {
        match pressing_input {
            PressingInput::KeyW => self.key_w,
            PressingInput::KeyA => self.key_a,
            PressingInput::KeyS => self.key_s,
            PressingInput::KeyD => self.key_d,
            PressingInput::KeyE => self.key_e,
            PressingInput::MouseLeft => self.mouse_left,
        }
    }

    fn set(&mut self, pressing_input: PressingInput, v: u32)
        ensures
            *final(self) == old(self).spec_set(pressing_input, v),
    {
        match pressing_input {
            PressingInput::KeyW => self.key_w = v,
            PressingInput::KeyA => self.key_a = v,
            PressingInput::KeyS => self.key_s = v,
            PressingInput::KeyD => self.key_d = v,
            PressingInput::KeyE => self.key_e = v,
            PressingInput::MouseLeft => self.mouse_left = v,
        }
    }
}

/// Cursor movement accumulated over the current frame, milli-pixels.
#[derive(Clone, Copy, PartialEq, Eq, Structural, Debug)]
pub struct MovingInputState {
    pub x: i64,
    pub y: i64,
}

impl Default for MovingInputState {
    fn default() -> (r: Self)
        ensures
            r.x == 0 && r.y == 0,
    {
        MovingInputState { x: 0, y: 0 }
    }
}

/// The whole input snapshot a scene reads for one frame.
#[derive(Clone, Copy, PartialEq, Eq, Structural, Debug)]
pub struct InputStates {
    pub pressing: PressingInputStates,
    pub moving: MovingInputState,
}

impl Default for InputStates {
    fn default() -> (r: Self)
        ensures
            forall|i: PressingInput| #[trigger] r.pressing.spec_get(i) == 0u32,
            r.moving.x == 0 && r.moving.y == 0,
    {
        InputStates { pressing: Default::default(), moving: Default::default() }
    }
}

/// Largest cursor coordinate magnitude the manager accepts, milli-pixels.
pub const MAX_CURSOR: i64 = 0x1000_0000_0000_0000;

/// Collects window events into the per-frame [`InputStates`] snapshot.
pub struct InputManager {
    pub states: InputStates,
    pub cursor_position: (i64, i64),
}

impl InputManager {
    /// The stored cursor position stays within [`MAX_CURSOR`], so the
    /// per-event movement deltas cannot overflow.
    pub open spec fn wf(self) -> bool {
        &&& -MAX_CURSOR <= self.cursor_position.0 <= MAX_CURSOR
        &&& -MAX_CURSOR <= self.cursor_position.1 <= MAX_CURSOR
    }

    pub fn new(cursor_position: (i64, i64)) -> (r: Self)
        requires
            -MAX_CURSOR <= cursor_position.0 <= MAX_CURSOR,
            -MAX_CURSOR <= cursor_position.1 <= MAX_CURSOR,
        ensures
            forall|i: PressingInput| #[trigger] r.states.pressing.spec_get(i) == 0u32,
            r.states.moving.x == 0 && r.states.moving.y == 0,
            r.cursor_position == cursor_position,
            r.wf(),
    {
        InputManager { states: Default::default(), cursor_position }
    }

    pub fn get(&self) -> (r: &InputStates)
        ensures
            *r == self.states,
    {
        &self.states
    }

    /// Feeds one key transition: releasing zeroes the counter, a fresh
    /// press starts it at one, and a repeated press event while held
    /// leaves the counter alone.
    pub fn update_key_state(&mut self, input: PressingInput, pressed: bool)
        ensures
            final(self).states.pressing == old(self).states.pressing.spec_set(
                input,
                press_transition(old(self).states.pressing.spec_get(input), pressed),
            ),
            final(self).states.moving == old(self).states.moving,
            final(self).cursor_position == old(self).cursor_position,
            final(self).wf() == old(self).wf(),
    {
        let current = self.states.pressing.get(&input);
        let value = if !pressed {
            0
        } else if current > 0 {
            current
        } else {
            1
        };
        self.states.pressing.set(input, value);
    }

    /// Feeds the left mouse button's transition, with the same counter
    /// rule as a key.
    pub fn update_mouse_state(&mut self, pressed: bool)
        ensures
            final(self).states.pressing == old(self).states.pressing.spec_set(
                PressingInput::MouseLeft,
                press_transition(old(self).states.pressing.spec_get(PressingInput::MouseLeft), pressed),
            ),
            final(self).states.moving == old(self).states.moving,
            final(self).cursor_position == old(self).cursor_position,
            final(self).wf() == old(self).wf(),
    {
        self.update_key_state(PressingInput::MouseLeft, pressed);
    }

    /// Feeds an absolute cursor position: the difference to the stored
    /// position is added to the frame's movement (saturating at the ends
    /// of the `i64` range) and the position is remembered.
    pub fn update_cursor_state(&mut self, x: i64, y: i64)
        requires
            old(self).wf(),
            -MAX_CURSOR <= x <= MAX_CURSOR,
            -MAX_CURSOR <= y <= MAX_CURSOR,
        ensures
            final(self).states.moving.x == spec_clamp(
                old(self).states.moving.x + (x - old(self).cursor_position.0),
                i64::MIN as int,
                i64::MAX as int,
            ),
            final(self).states.moving.y == spec_clamp(
                old(self).states.moving.y + (y - old(self).cursor_position.1),
                i64::MIN as int,
                i64::MAX as int,
            ),
            final(self).cursor_position == (x, y),
            final(self).states.pressing == old(self).states.pressing,
            final(self).wf(),
    {
        self.states.moving.x = saturating_add(self.states.moving.x, x - self.cursor_position.0);
        self.states.moving.y = saturating_add(self.states.moving.y, y - self.cursor_position.1);
        self.cursor_position = (x, y);
    }

    /// Remembers the cursor position without recording movement.
    pub fn set_cursor_position(&mut self, cursor_position: (i64, i64))
        requires
            -MAX_CURSOR <= cursor_position.0 <= MAX_CURSOR,
            -MAX_CURSOR <= cursor_position.1 <= MAX_CURSOR,
        ensures
            final(self).cursor_position == cursor_position,
            final(self).states == old(self).states,
            final(self).wf(),
    {
        self.cursor_position = cursor_position;
    }

    /// Closes the frame: clears the movement accumulator and advances
    /// every held counter by one (saturating), so that a counter of one
    /// means "pressed this frame" on the next update.
    pub fn go_next(&mut self)
        ensures
            final(self).states.moving.x == 0 && final(self).states.moving.y == 0,
            forall|i: PressingInput| #[trigger] final(self).states.pressing.spec_get(i)
                == held_advance(old(self).states.pressing.spec_get(i)),
            final(self).cursor_position == old(self).cursor_position,
            final(self).wf() == old(self).wf(),
    {
        self.states.moving = Default::default();
        self.states.pressing.key_w = advance_counter(self.states.pressing.key_w);
        self.states.pressing.key_a = advance_counter(self.states.pressing.key_a);
        self.states.pressing.key_s = advance_counter(self.states.pressing.key_s);
        self.states.pressing.key_d = advance_counter(self.states.pressing.key_d);
        self.states.pressing.key_e = advance_counter(self.states.pressing.key_e);
        self.states.pressing.mouse_left = advance_counter(self.states.pressing.mouse_left);
    }
}

/// The counter rule for a press event: released resets to zero, a fresh
/// press starts at one, an already-held input keeps its counter.
pub open spec fn press_transition(current: u32, pressed: bool) -> u32 {
    if !pressed {
        0u32
    } else if current > 0 {
        current
    } else {
        1u32
    }
}

/// The counter rule at the end of a frame: held inputs age by one,
/// released inputs stay at zero.
pub open spec fn held_advance(current: u32) -> u32 {
    if current == 0 {
        0u32
    } else if current == u32::MAX {
        current
    } else {
        (current + 1) as u32
    }
}

fn advance_counter(v: u32) -> (r: u32)
    ensures
        r == held_advance(v),
{
    if v > 0 && v < u32::MAX {
        v + 1
    } else {
        v
    }
}

fn saturating_add(a: i64, b: i64) -> (r: i64)
    ensures
        r == spec_clamp(a + b, i64::MIN as int, i64::MAX as int),
{
    match a.checked_add(b) {
        Some(v) => v,
        None => {
            if b > 0 {
                i64::MAX
            } else {
                i64::MIN
            }
        },
    }
}

} // verus!
