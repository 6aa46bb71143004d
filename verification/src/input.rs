//! The input bracket of a frame.
//!
//! Mouse motion and button events may be submitted only between
//! [`Nuklear::begin_input`] and [`Nuklear::end_input`]; the engine treats
//! input outside that bracket as undefined behaviour, so the contracts rule
//! it out rather than tolerate it.

use crate::{Nuklear, Phase};
use vstd::prelude::*;

verus! {

/// A mouse button in the engine's encoding.
#[derive(Debug, Clone, Copy, PartialEq, Eq, Structural)]
pub enum Button {
    /// The left mouse button.
    Left,
    /// The middle mouse button.
    Middle,
    /// The right mouse button.
    Right,
    /// The double-click pseudo button.
    Double,
}

impl Button {
    /// The numeric code the engine uses for the button.
    pub open spec fn spec_code(self) -> u32 {
        match self {
            Button::Left => 0,
            Button::Middle => 1,
            Button::Right => 2,
            Button::Double => 3,
        }
    }

    /// The numeric code the engine uses for the button.
    pub fn code(self) -> (r: u32)
        ensures
            r == self.spec_code(),
    {
        match self {
            Button::Left => 0,
            Button::Middle => 1,
            Button::Right => 2,
            Button::Double => 3,
        }
    }
}

/// Marker for scopes in which input may be submitted.
pub trait InputScope {

}

/// The scope in which input may be submitted.
pub struct Scope;

impl InputScope for Scope {

}

impl Nuklear {
    /// Opens the bracket in which input events may be submitted.
    pub fn begin_input(&mut self)
        requires
            old(self).wf(),
            old(self).phase is Idle,
        ensures
            final(self).wf(),
            *final(self) == (Nuklear { phase: Phase::InputPhase, ..*old(self) }),
    {
        self.phase = Phase::InputPhase;
    }

    /// Closes the input bracket; widget declarations may follow.
    pub fn end_input(&mut self)
        requires
            old(self).wf(),
            old(self).phase is InputPhase,
        ensures
            final(self).wf(),
            *final(self) == (Nuklear { phase: Phase::BuildPhase, ..*old(self) }),
    {
        self.phase = Phase::BuildPhase;
    }

    /// Submits a mouse motion event; only legal inside the input bracket.
    pub fn input_motion(&mut self, x: i32, y: i32)
        requires
            old(self).wf(),
            old(self).phase is InputPhase,
        ensures
            final(self).wf(),
            *final(self) == (Nuklear { mouse_x: x, mouse_y: y, ..*old(self) }),
    {
        self.mouse_x = x;
        self.mouse_y = y;
    }

    /// Submits a mouse button event at the given position; only legal inside
    /// the input bracket.
    pub fn input_button(&mut self, x: i32, y: i32, button: Button, pressed: bool)
        requires
            old(self).wf(),
            old(self).phase is InputPhase,
        ensures
            final(self).wf(),
            *final(self) == match button {
                Button::Left => (Nuklear { mouse_x: x, mouse_y: y, left_pressed: pressed, ..*old(self) }),
                Button::Middle => (Nuklear {
                    mouse_x: x,
                    mouse_y: y,
                    middle_pressed: pressed,
                    ..*old(self)
                }),
                Button::Right => (Nuklear {
                    mouse_x: x,
                    mouse_y: y,
                    right_pressed: pressed,
                    ..*old(self)
                }),
                Button::Double => (Nuklear {
                    mouse_x: x,
                    mouse_y: y,
                    double_pressed: pressed,
                    ..*old(self)
                }),
            },
    {
        self.mouse_x = x;
        self.mouse_y = y;
        match button {
            Button::Left => {
                self.left_pressed = pressed;
            },
            Button::Middle => {
                self.middle_pressed = pressed;
            },
            Button::Right => {
                self.right_pressed = pressed;
            },
            Button::Double => {
                self.double_pressed = pressed;
            },
        }
    }
}

} // verus!
