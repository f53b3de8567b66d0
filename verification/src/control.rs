//! Control-state bookkeeping around the sky demo: mouse-button tracking and
//! the player's movement direction.
//!
//! The embedding program receives raw window events and frame ticks; the
//! decisions — which buttons count as held or freshly pressed, and which
//! axis direction a set of held movement keys adds up to — are made here,
//! over plain values.

use vstd::prelude::*;
use crate::fx::clamp;

verus! {

/// All mouse buttons that the demo cares about.
#[derive(Clone, Copy, Debug, PartialEq, Eq, Structural)]
pub enum MouseButton {
    Left,
    Right,
    Middle,
}

impl MouseButton {
    /// The button's slot in the tracking arrays.
    pub fn index(&self) -> (i: usize)
        ensures
            i == self.spec_index(),
            i < 3,
    {
        match self {
            MouseButton::Left => 0,
            MouseButton::Right => 1,
            MouseButton::Middle => 2,
        }
    }

    /// The button's slot in the tracking arrays.
    pub open spec fn spec_index(&self) -> int {
        match self {
            MouseButton::Left => 0,
            MouseButton::Right => 1,
            MouseButton::Middle => 2,
        }
    }
}

/// Per-frame mouse-button state: which buttons are held down, and which
/// were pressed since the last frame tick.
pub struct ButtonStates {
    down: [bool; 3],
    pressed: [bool; 3],
}

impl ButtonStates {
    /// The held-down flag of a button.
    pub closed spec fn spec_down(&self, button: MouseButton) -> bool {
        self.down@[button.spec_index()]
    }

    /// The freshly-pressed flag of a button.
    pub closed spec fn spec_pressed(&self, button: MouseButton) -> bool {
        self.pressed@[button.spec_index()]
    }

    /// A fresh tracker: nothing held, nothing pressed.
    pub fn new() -> (s: ButtonStates)
        ensures
            forall|b: MouseButton| !s.spec_down(b) && !s.spec_pressed(b),
    {
        ButtonStates { down: [false, false, false], pressed: [false, false, false] }
    }

    /// Record a press or release event for one button: the held flag
    /// follows the event, and the pressed flag is set on a press so it
    /// stays visible until the next frame tick.
    pub fn record(&mut self, button: MouseButton, is_down: bool)
        ensures
            final(self).spec_down(button) == is_down,
            final(self).spec_pressed(button) == is_down,
            forall|b: MouseButton|
                b.spec_index() != button.spec_index() ==> final(self).spec_down(b) == old(
                    self,
                ).spec_down(b) && final(self).spec_pressed(b) == old(self).spec_pressed(b),
    {
        let i = button.index();
        self.down[i] = is_down;
        self.pressed[i] = is_down;
    }

    /// Is the button currently held down?
    pub fn is_down(&self, button: MouseButton) -> (r: bool)
        ensures
            r == self.spec_down(button),
    {
        self.down[button.index()]
    }

    /// Was the button pressed since the last frame tick?
    pub fn was_pressed(&self, button: MouseButton) -> (r: bool)
        ensures
            r == self.spec_pressed(button),
    {
        self.pressed[button.index()]
    }

    /// Frame tick: the held flags persist, the pressed flags reset.
    pub fn end_frame(&mut self)
        ensures
            forall|b: MouseButton|
                final(self).spec_down(b) == old(self).spec_down(b) && !final(self).spec_pressed(
                    b,
                ),
    {
        self.pressed[0] = false;
        self.pressed[1] = false;
        self.pressed[2] = false;
    }
}

/// One movement key's contribution: a direction along each camera axis.
#[derive(Clone, Copy, Debug, PartialEq, Eq, Structural)]
pub struct AxisMove {
    pub x: i64,
    pub y: i64,
    pub z: i64,
}

/// Clip an accumulated direction component to one step.
pub open spec fn clip1(v: int) -> int {
    if v < -1 {
        -1
    } else if v > 1 {
        1
    } else {
        v
    }
}

/// The direction the first `n` movement contributions add up to: active
/// contributions accumulate per axis, clipped to one step after each.
pub open spec fn spec_motion(moves: Seq<AxisMove>, active: Seq<bool>, n: int) -> (int, int, int)
    decreases n,
{
    if n <= 0 {
        (0, 0, 0)
    } else {
        let prev = spec_motion(moves, active, n - 1);
        if active[n - 1] {
            (
                clip1(prev.0 + moves[n - 1].x as int),
                clip1(prev.1 + moves[n - 1].y as int),
                clip1(prev.2 + moves[n - 1].z as int),
            )
        } else {
            prev
        }
    }
}

/// The player's movement direction from which movement keys are held down:
/// `moves` are the key mapping's axis contributions, `active` says which
/// keys are held.
pub fn motion_vector(moves: &[AxisMove], active: &[bool]) -> (r: (i64, i64, i64))
    requires
        moves@.len() == active@.len(),
        forall|j: int|
            0 <= j < moves@.len() ==> -1 <= #[trigger] moves@[j].x <= 1 && -1 <= moves@[j].y <= 1
                && -1 <= moves@[j].z <= 1,
    ensures
        r.0 == spec_motion(moves@, active@, moves@.len() as int).0,
        r.1 == spec_motion(moves@, active@, moves@.len() as int).1,
        r.2 == spec_motion(moves@, active@, moves@.len() as int).2,
        -1 <= r.0 <= 1 && -1 <= r.1 <= 1 && -1 <= r.2 <= 1,
{
    let mut x: i64 = 0;
    let mut y: i64 = 0;
    let mut z: i64 = 0;
    let n: usize = moves.len();
    let mut k: usize = 0;
    while k < n
        invariant
            n == moves@.len() == active@.len(),
            0 <= k <= n,
            forall|j: int|
                0 <= j < moves@.len() ==> -1 <= #[trigger] moves@[j].x <= 1 && -1 <= moves@[j].y
                    <= 1 && -1 <= moves@[j].z <= 1,
            x == spec_motion(moves@, active@, k as int).0,
            y == spec_motion(moves@, active@, k as int).1,
            z == spec_motion(moves@, active@, k as int).2,
            -1 <= x <= 1 && -1 <= y <= 1 && -1 <= z <= 1,
        decreases n - k,
    {
        if active[k] {
            let m = &moves[k];
            x = clamp(x + m.x, -1, 1);
            y = clamp(y + m.y, -1, 1);
            z = clamp(z + m.z, -1, 1);
        }
        k = k + 1;
    }
    (x, y, z)
}

} // verus!
