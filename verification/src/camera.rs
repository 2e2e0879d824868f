//! Discrete camera motion state.
//!
//! Key events are edge-triggered: a press sets the amount for its axis
//! direction to one, a release sets it back to zero, and nothing decays on its
//! own, so a missed release event leaves motion stuck until corrected. The
//! continuous integration of these amounts into a pose is the camera
//! controller's job in the host program; this module owns the discrete part
//! and the signed per-axis coefficients it produces.

use crate::user_input::{MotionKey, UserInput};
use vstd::prelude::*;

verus! {

/// The value a press-or-release amount contributes to its axis.
pub open spec fn amount_value(amount: bool) -> int {
    if amount {
        1
    } else {
        0
    }
}

/// The amount an axis direction holds after one key event for its key:
/// a release clears it, otherwise a press sets it, otherwise it is kept.
pub open spec fn next_amount(current: bool, pressed: bool, released: bool) -> bool {
    if released {
        false
    } else if pressed {
        true
    } else {
        current
    }
}

/// Persistent movement amounts, one per axis direction.
#[derive(Clone, Copy, Debug, PartialEq, Eq, Structural)]
pub struct CameraMotion {
    pub amount_forward: bool,
    pub amount_backward: bool,
    pub amount_left: bool,
    pub amount_right: bool,
    pub amount_up: bool,
    pub amount_down: bool,
}

impl CameraMotion {
    /// A camera at rest: every amount is zero.
    pub fn new() -> (r: Self)
        ensures
            r == (CameraMotion {
                amount_forward: false,
                amount_backward: false,
                amount_left: false,
                amount_right: false,
                amount_up: false,
                amount_down: false,
            }),
    {
        CameraMotion {
            amount_forward: false,
            amount_backward: false,
            amount_left: false,
            amount_right: false,
            amount_up: false,
            amount_down: false,
        }
    }

    /// Applies the input's key event: the amount of the named axis direction
    /// follows `next_amount`, every other amount is kept, and an input without
    /// a motion key changes nothing.
    pub fn process_user_input(&mut self, input: &UserInput)
        ensures
            *final(self) == (CameraMotion {
                amount_forward: if input.key == Some(MotionKey::Forward) {
                    next_amount(old(self).amount_forward, input.key_pressed, input.key_released)
                } else {
                    old(self).amount_forward
                },
                amount_backward: if input.key == Some(MotionKey::Backward) {
                    next_amount(old(self).amount_backward, input.key_pressed, input.key_released)
                } else {
                    old(self).amount_backward
                },
                amount_left: if input.key == Some(MotionKey::Left) {
                    next_amount(old(self).amount_left, input.key_pressed, input.key_released)
                } else {
                    old(self).amount_left
                },
                amount_right: if input.key == Some(MotionKey::Right) {
                    next_amount(old(self).amount_right, input.key_pressed, input.key_released)
                } else {
                    old(self).amount_right
                },
                amount_up: if input.key == Some(MotionKey::Up) {
                    next_amount(old(self).amount_up, input.key_pressed, input.key_released)
                } else {
                    old(self).amount_up
                },
                amount_down: if input.key == Some(MotionKey::Down) {
                    next_amount(old(self).amount_down, input.key_pressed, input.key_released)
                } else {
                    old(self).amount_down
                },
            }),
    {
        match input.key {
            Some(MotionKey::Forward) => {
                if input.key_pressed {
                    self.amount_forward = true;
                }
                if input.key_released {
                    self.amount_forward = false;
                }
            },
            Some(MotionKey::Backward) => {
                if input.key_pressed {
                    self.amount_backward = true;
                }
                if input.key_released {
                    self.amount_backward = false;
                }
            },
            Some(MotionKey::Left) => {
                if input.key_pressed {
                    self.amount_left = true;
                }
                if input.key_released {
                    self.amount_left = false;
                }
            },
            Some(MotionKey::Right) => {
                if input.key_pressed {
                    self.amount_right = true;
                }
                if input.key_released {
                    self.amount_right = false;
                }
            },
            Some(MotionKey::Up) => {
                if input.key_pressed {
                    self.amount_up = true;
                }
                if input.key_released {
                    self.amount_up = false;
                }
            },
            Some(MotionKey::Down) => {
                if input.key_pressed {
                    self.amount_down = true;
                }
                if input.key_released {
                    self.amount_down = false;
                }
            },
            None => {},
        }
    }

    /// Signed coefficient of motion along the view direction.
    pub fn axis_forward(&self) -> (r: i32)
        ensures
            r == amount_value(self.amount_forward) - amount_value(self.amount_backward),
    {
        (if self.amount_forward {
            1i32
        } else {
            0i32
        }) - (if self.amount_backward {
            1i32
        } else {
            0i32
        })
    }

    /// Signed coefficient of motion along the right-hand direction.
    pub fn axis_right(&self) -> (r: i32)
        ensures
            r == amount_value(self.amount_right) - amount_value(self.amount_left),
    {
        (if self.amount_right {
            1i32
        } else {
            0i32
        }) - (if self.amount_left {
            1i32
        } else {
            0i32
        })
    }

    /// Signed coefficient of vertical motion.
    pub fn axis_up(&self) -> (r: i32)
        ensures
            r == amount_value(self.amount_up) - amount_value(self.amount_down),
    {
        (if self.amount_up {
            1i32
        } else {
            0i32
        }) - (if self.amount_down {
            1i32
        } else {
            0i32
        })
    }
}

} // verus!
