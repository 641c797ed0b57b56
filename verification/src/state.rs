//! The demo's per-frame state and its updates.
//!
//! The state is a rotation about the vertical axis, a flat color for the
//! cube, and an auto-rotate toggle.  The rotation is held in thousandths
//! of a degree so that the wrap at a full turn is exact integer
//! arithmetic; the application converts to and from the slider's degrees
//! at its edge.  Every update keeps the state well formed: the rotation
//! stays below a full turn and the color channels stay within range.

use vstd::prelude::*;
use vstd::arithmetic::div_mod::lemma_small_mod;
use vstd::arithmetic::div_mod::lemma_mod_sub_multiples_vanish;
use crate::color::Rgb;
use crate::color::byte_of_channel;
use crate::color::clamped;
use crate::color::DEFAULT_RED;
use crate::color::DEFAULT_GREEN;
use crate::color::DEFAULT_BLUE;

verus! {

/// Thousandths of a degree in a full turn.
pub const FULL_TURN_MDEG: u32 = 360000;

/// Auto-rotation turns the cube one degree each frame.
pub const ROTATION_STEP_MDEG: u32 = 1000;

/// Auto-rotation starts enabled.
pub const DEFAULT_AUTO_ROTATE: bool = true;

/// The state that the controls edit and the renderer reads.
#[derive(Clone, Copy, Debug, PartialEq, Eq, Structural)]
pub struct AppState {
    /// Rotation about the vertical axis, in thousandths of a degree,
    /// always below a full turn.
    pub rotation_mdeg: u32,
    /// The cube's flat color.
    pub color: Rgb,
    /// Whether the rotation advances by itself each frame.
    pub auto_rotate: bool,
}

/// The rotation one auto-rotate step later, wrapped at a full turn.
pub open spec fn next_rotation(r: int) -> int {
    (r + ROTATION_STEP_MDEG) % (FULL_TURN_MDEG as int)
}

impl AppState {
    /// The state is well formed when the rotation lies below a full turn
    /// and the color is within range.
    pub open spec fn wf(self) -> bool {
        self.rotation_mdeg < FULL_TURN_MDEG && self.color.wf()
    }

    /// The documented default state: no rotation, a light sky blue, and
    /// auto-rotation enabled.
    pub open spec fn default_spec() -> AppState {
        AppState {
            rotation_mdeg: 0,
            color: Rgb::default_spec(),
            auto_rotate: DEFAULT_AUTO_ROTATE,
        }
    }

    /// The state a fresh demo starts in.
    pub fn new() -> (s: AppState)
        ensures
            s == AppState::default_spec(),
            s.wf(),
    {
        AppState { rotation_mdeg: 0, color: Rgb::default_color(), auto_rotate: true }
    }

    /// Restore the documented default state.
    pub fn reset(&mut self)
        ensures
            *final(self) == AppState::default_spec(),
            final(self).wf(),
    {
        self.rotation_mdeg = 0;
        self.color = Rgb::new(DEFAULT_RED, DEFAULT_GREEN, DEFAULT_BLUE);
        self.auto_rotate = true;
    }

    /// Advance one frame: when auto-rotation is on, turn one step and
    /// wrap at a full turn; otherwise leave the state as it is.
    pub fn tick(&mut self)
        requires
            old(self).wf(),
        ensures
            final(self).wf(),
            old(self).auto_rotate ==> final(self).rotation_mdeg == next_rotation(
                old(self).rotation_mdeg as int,
            ),
            !old(self).auto_rotate ==> final(self).rotation_mdeg == old(self).rotation_mdeg,
            final(self).color == old(self).color,
            final(self).auto_rotate == old(self).auto_rotate,
    {
        if self.auto_rotate {
            self.rotation_mdeg = (self.rotation_mdeg + ROTATION_STEP_MDEG) % FULL_TURN_MDEG;
        }
    }

    /// Set the rotation from the slider, wrapped at a full turn.
    pub fn set_rotation(&mut self, r: u32)
        requires
            old(self).wf(),
        ensures
            final(self).wf(),
            final(self).rotation_mdeg == r as int % (FULL_TURN_MDEG as int),
            final(self).color == old(self).color,
            final(self).auto_rotate == old(self).auto_rotate,
    {
        self.rotation_mdeg = r % FULL_TURN_MDEG;
    }

    /// Set the color from the picker, clamping each channel to full
    /// intensity.
    pub fn set_color(&mut self, red: u16, green: u16, blue: u16)
        requires
            old(self).wf(),
        ensures
            final(self).wf(),
            final(self).color == (Rgb {
                red: clamped(red),
                green: clamped(green),
                blue: clamped(blue),
            }),
            final(self).rotation_mdeg == old(self).rotation_mdeg,
            final(self).auto_rotate == old(self).auto_rotate,
    {
        self.color = Rgb::new(red, green, blue);
    }

    /// Turn auto-rotation on or off.
    pub fn set_auto_rotate(&mut self, on: bool)
        requires
            old(self).wf(),
        ensures
            final(self).wf(),
            final(self).auto_rotate == on,
            final(self).rotation_mdeg == old(self).rotation_mdeg,
            final(self).color == old(self).color,
    {
        self.auto_rotate = on;
    }

    /// The cube's color as bytes, ready for the renderer.
    pub fn color_bytes(&self) -> (b: (u8, u8, u8))
        requires
            self.wf(),
        ensures
            b.0 == byte_of_channel(self.color.red),
            b.1 == byte_of_channel(self.color.green),
            b.2 == byte_of_channel(self.color.blue),
    {
        self.color.bytes()
    }
}

/// Auto-rotation wraps at a full turn: from any rotation below a full
/// turn, one step adds one degree while there is room for it, and comes
/// back to the start of the turn otherwise; either way the result lies
/// below a full turn again.
pub proof fn lemma_rotation_wraps(r: int)
    requires
        0 <= r < FULL_TURN_MDEG,
    ensures
        0 <= next_rotation(r) < FULL_TURN_MDEG,
        r + ROTATION_STEP_MDEG < FULL_TURN_MDEG ==> next_rotation(r) == r + ROTATION_STEP_MDEG,
        r + ROTATION_STEP_MDEG >= FULL_TURN_MDEG ==> next_rotation(r) == r + ROTATION_STEP_MDEG
            - FULL_TURN_MDEG,
{
    let step: int = ROTATION_STEP_MDEG as int;
    let turn: int = FULL_TURN_MDEG as int;
    if r + step < turn {
        lemma_small_mod((r + step) as nat, turn as nat);
    } else {
        lemma_mod_sub_multiples_vanish(r + step, turn);
        lemma_small_mod((r + step - turn) as nat, turn as nat);
    }
}

} // verus!
