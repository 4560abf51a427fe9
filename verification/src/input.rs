//! The console's unified input model and the gamepad normalizer.
//!
//! Every backend reduces its physical controls to the same picture: an
//! optional 2D pointer whose axes lie in `[-1000, 1000]`, plus five
//! buttons packed into the low bits of a byte. A fresh [`InputState`] is
//! produced on every polling tick and never persisted.

use vstd::prelude::*;

verus! {

/// A touch point or stick reading, with both axes in `[-1000, 1000]`.
#[derive(Clone, Copy, Debug, PartialEq, Eq, Structural)]
pub struct Pad {
    pub x: i16,
    pub y: i16,
}

impl Default for Pad {
    fn default() -> (r: Self)
        ensures
            r.x == 0 && r.y == 0,
    {
        Pad { x: 0, y: 0 }
    }
}

/// Bit assigned to the A (south) button.
pub const BUTTON_A: u8 = 0b1;

/// Bit assigned to the B (east) button.
pub const BUTTON_B: u8 = 0b10;

/// Bit assigned to the X (west) button.
pub const BUTTON_X: u8 = 0b100;

/// Bit assigned to the Y (north) button.
pub const BUTTON_Y: u8 = 0b1000;

/// Bit assigned to the Menu button.
pub const BUTTON_MENU: u8 = 0b10000;

pub open spec fn has_button(buttons: u8, bit: u8) -> bool {
    buttons & bit != 0
}

/// What [`InputState::merge`] returns: buttons are or-ed together, the
/// pointer is taken from the first state that has one.
pub open spec fn spec_merge(a: InputState, b: InputState) -> InputState {
    InputState {
        pad: if a.pad is Some {
            a.pad
        } else {
            b.pad
        },
        buttons: a.buttons | b.buttons,
    }
}

/// State of all controls during one polling tick.
#[derive(Clone, Debug)]
pub struct InputState {
    /// Where the pointer is held down, if it is.
    pub pad: Option<Pad>,
    /// Pressed buttons, one bit each.
    pub buttons: u8,
}

impl Default for InputState {
    fn default() -> (r: Self)
        ensures
            r.pad is None && r.buttons == 0,
    {
        InputState { pad: None, buttons: 0 }
    }
}

impl InputState {
    pub fn a(&self) -> (r: bool)
        ensures
            r == has_button(self.buttons, BUTTON_A),
    {
        self.buttons & BUTTON_A > 0
    }

    pub fn b(&self) -> (r: bool)
        ensures
            r == has_button(self.buttons, BUTTON_B),
    {
        self.buttons & BUTTON_B > 0
    }

    pub fn x(&self) -> (r: bool)
        ensures
            r == has_button(self.buttons, BUTTON_X),
    {
        self.buttons & BUTTON_X > 0
    }

    pub fn y(&self) -> (r: bool)
        ensures
            r == has_button(self.buttons, BUTTON_Y),
    {
        self.buttons & BUTTON_Y > 0
    }

    pub fn menu(&self) -> (r: bool)
        ensures
            r == has_button(self.buttons, BUTTON_MENU),
    {
        self.buttons & BUTTON_MENU > 0
    }

    /// Combine two input sources, for instance a gamepad and a keyboard.
    ///
    /// Buttons are or-ed; the pointer of `self` wins when present.
    #[must_use]
    pub fn merge(&self, other: &Self) -> (r: Self)
        ensures
            r == spec_merge(*self, *other),
            r.buttons == self.buttons | other.buttons,
            self.pad is Some ==> r.pad == self.pad,
            self.pad is None ==> r.pad == other.pad,
    {
        Self {
            pad: if self.pad.is_some() {
                self.pad
            } else {
                other.pad
            },
            buttons: self.buttons | other.buttons,
        }
    }
}

/// Merging buttons is commutative: no matter which source comes first,
/// the same set of buttons ends up pressed.
pub proof fn lemma_merge_buttons_commutative(a: InputState, b: InputState)
    ensures
        spec_merge(a, b).buttons == spec_merge(b, a).buttons,
{
    let x = a.buttons;
    let y = b.buttons;
    assert(x | y == y | x) by (bit_vector);
}

/// Merging never clears a button: every button reported by either source
/// is still pressed in the merged state.
pub proof fn lemma_merge_keeps_buttons(a: InputState, b: InputState, bit: u8)
    ensures
        has_button(a.buttons, bit) || has_button(b.buttons, bit) ==> has_button(
            spec_merge(a, b).buttons,
            bit,
        ),
{
    let x = a.buttons;
    let y = b.buttons;
    assert((x & bit != 0 || y & bit != 0) ==> ((x | y) & bit != 0)) by (bit_vector);
}

} // verus!
