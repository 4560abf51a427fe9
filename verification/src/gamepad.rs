//! Folds a physical gamepad's state into the console's pointer model.
//!
//! The backend reads the hardware (buttons and sticks) and hands this
//! module one [`GamepadState`] of plain values per tick; stick axes arrive
//! already scaled by 1000 and truncated to integers. Everything that
//! decides what counts as a touch is here, and proved:
//!
//! * a held D-pad direction always wins and gives a unit-magnitude pointer;
//! * the left stick acts as the pointer only while a left-side modifier
//!   (trigger or thumb) is held;
//! * the right stick acts as the pointer when its thumb button is held, or
//!   when it has left its `±50` dead zone — a resting stick never
//!   registers as a touch.

use vstd::prelude::*;
use crate::input::Pad;

verus! {

/// Half-width of the dead zone applied to a resting right stick.
pub const DEAD_ZONE: i16 = 50;

/// One tick's worth of raw gamepad state, as plain values.
///
/// `None` for an axis means the controller did not report it.
#[derive(Clone, Copy, Debug)]
pub struct GamepadState {
    pub dpad_up: bool,
    pub dpad_down: bool,
    pub dpad_left: bool,
    pub dpad_right: bool,
    /// South face button (A).
    pub south: bool,
    /// East face button (B).
    pub east: bool,
    /// West face button (X).
    pub west: bool,
    /// North face button (Y).
    pub north: bool,
    /// Start button (Menu).
    pub start: bool,
    pub left_trigger: bool,
    pub left_thumb: bool,
    pub right_thumb: bool,
    pub left_x: Option<i16>,
    pub left_y: Option<i16>,
    pub right_x: Option<i16>,
    pub right_y: Option<i16>,
}

/// What [`make_point`] returns: a point only when both axes are reported.
pub open spec fn spec_make_point(x: Option<i16>, y: Option<i16>) -> Option<Pad> {
    match (x, y) {
        (Some(x), Some(y)) => Some(Pad { x, y }),
        _ => None,
    }
}

pub open spec fn spec_in_dead_zone(p: Pad) -> bool {
    -DEAD_ZONE <= p.x <= DEAD_ZONE && -DEAD_ZONE <= p.y <= DEAD_ZONE
}

/// What [`read_pad`] returns.
pub open spec fn spec_read_pad(g: GamepadState) -> Option<Pad> {
    if g.dpad_down {
        Some(Pad { x: 0i16, y: -1000i16 })
    } else if g.dpad_up {
        Some(Pad { x: 0i16, y: 1000i16 })
    } else if g.dpad_left {
        Some(Pad { x: -1000i16, y: 0i16 })
    } else if g.dpad_right {
        Some(Pad { x: 1000i16, y: 0i16 })
    } else if g.left_trigger || g.left_thumb {
        spec_make_point(g.left_x, g.left_y)
    } else {
        match spec_make_point(g.right_x, g.right_y) {
            None => None,
            Some(p) => if g.right_thumb {
                Some(p)
            } else if spec_in_dead_zone(p) {
                None
            } else {
                Some(p)
            },
        }
    }
}

/// Build a point from two optional axis readings.
pub fn make_point(x: Option<i16>, y: Option<i16>) -> (r: Option<Pad>)
    ensures
        r == spec_make_point(x, y),
{
    match (x, y) {
        (Some(x), Some(y)) => Some(Pad { x, y }),
        _ => None,
    }
}

/// Read the sticks and the D-pad as the console's pointer.
///
/// A held D-pad direction returns its unit-magnitude pointer no matter
/// what the sticks say, and a resting right stick (both axes within the
/// dead zone, thumb button unheld) is never a touch.
pub fn read_pad(g: &GamepadState) -> (r: Option<Pad>)
    ensures
        r == spec_read_pad(*g),
        g.dpad_down ==> r == Some(Pad { x: 0i16, y: -1000i16 }),
        (!g.dpad_down && !g.dpad_up && !g.dpad_left && !g.dpad_right && !g.left_trigger
            && !g.left_thumb && !g.right_thumb && (match spec_make_point(g.right_x, g.right_y) {
            Some(p) => spec_in_dead_zone(p),
            None => true,
        })) ==> r is None,
{
    if g.dpad_down {
        return Some(Pad { x: 0, y: -1000 });
    }
    if g.dpad_up {
        return Some(Pad { x: 0, y: 1000 });
    }
    if g.dpad_left {
        return Some(Pad { x: -1000, y: 0 });
    }
    if g.dpad_right {
        return Some(Pad { x: 1000, y: 0 });
    }
    // The left stick works as the pointer only while held down.
    if g.left_trigger || g.left_thumb {
        return make_point(g.left_x, g.left_y);
    }
    let pad = make_point(g.right_x, g.right_y);
    // A pressed right stick is always a touch.
    if g.right_thumb {
        return pad;
    }
    match pad {
        None => None,
        Some(p) => {
            let x_zero = -DEAD_ZONE <= p.x && p.x <= DEAD_ZONE;
            let y_zero = -DEAD_ZONE <= p.y && p.y <= DEAD_ZONE;
            // A resting right stick is not a touch.
            if x_zero && y_zero {
                None
            } else {
                Some(p)
            }
        },
    }
}

/// What [`pack_buttons`] returns: one bit per pressed button.
pub open spec fn spec_pack_buttons(
    south: bool,
    east: bool,
    west: bool,
    north: bool,
    start: bool,
) -> u8 {
    (if south { 0b1u8 } else { 0u8 }) | (if east { 0b10u8 } else { 0u8 }) | (if west {
        0b100u8
    } else {
        0u8
    }) | (if north { 0b1000u8 } else { 0u8 }) | (if start { 0b10000u8 } else { 0u8 })
}

/// Pack the five face buttons into the byte layout that
/// [`crate::InputState`] reads: A, B, X, Y, Menu from bit 0 up.
pub fn pack_buttons(south: bool, east: bool, west: bool, north: bool, start: bool) -> (r: u8)
    ensures
        r == spec_pack_buttons(south, east, west, north, start),
        crate::input::has_button(r, crate::input::BUTTON_A) == south,
        crate::input::has_button(r, crate::input::BUTTON_B) == east,
        crate::input::has_button(r, crate::input::BUTTON_X) == west,
        crate::input::has_button(r, crate::input::BUTTON_Y) == north,
        crate::input::has_button(r, crate::input::BUTTON_MENU) == start,
{
    let s: u8 = if south { 1 } else { 0 };
    let e: u8 = if east { 1 } else { 0 };
    let w: u8 = if west { 1 } else { 0 };
    let n: u8 = if north { 1 } else { 0 };
    let m: u8 = if start { 1 } else { 0 };
    let r: u8 = s | (e << 1u8) | (w << 2u8) | (n << 3u8) | (m << 4u8);
    proof {
        let v = spec_pack_buttons(south, east, west, north, start);
        assert(r == v) by (bit_vector)
            requires
                s == (if south { 1u8 } else { 0u8 }) && e == (if east { 1u8 } else { 0u8 }) && w
                    == (if west { 1u8 } else { 0u8 }) && n == (if north { 1u8 } else { 0u8 }) && m
                    == (if start { 1u8 } else { 0u8 }) && r == (s | (e << 1u8) | (w << 2u8) | (n
                    << 3u8) | (m << 4u8)) && v == ((if south { 0b1u8 } else { 0u8 }) | (if east {
                    0b10u8
                } else {
                    0u8
                }) | (if west { 0b100u8 } else { 0u8 }) | (if north { 0b1000u8 } else { 0u8 }) | (
                if start {
                    0b10000u8
                } else {
                    0u8
                })),
        ;
        assert((r & 0b1u8 != 0) == south && (r & 0b10u8 != 0) == east && (r & 0b100u8 != 0) == west
            && (r & 0b1000u8 != 0) == north && (r & 0b10000u8 != 0) == start) by (bit_vector)
            requires
                r == ((if south { 1u8 } else { 0u8 }) | ((if east { 1u8 } else { 0u8 }) << 1u8) | (
                (if west { 1u8 } else { 0u8 }) << 2u8) | ((if north { 1u8 } else { 0u8 }) << 3u8)
                    | ((if start { 1u8 } else { 0u8 }) << 4u8)),
        ;
    }
    r
}

} // verus!
