//! Per-tick user input delivered by the UI layer.
//!
//! The UI layer owns widget rendering and slider ranges; it hands the
//! orchestrator one `UserInput` value per tick. The value carries an
//! edge-triggered key event for camera motion, the sampling sliders, and a
//! `state_changed` flag that is set on any mutation and cleared exactly once
//! when the orchestrator consumes the input.

use vstd::prelude::*;

verus! {

/// Identity of a key that drives camera motion, one per axis direction.
#[derive(Clone, Copy, Debug, PartialEq, Eq, Structural)]
pub enum MotionKey {
    Forward,
    Backward,
    Left,
    Right,
    Up,
    Down,
}

/// One tick's worth of user input. `key` is `None` when the last key event
/// concerned a key with no motion mapping.
#[derive(Clone, Copy, Debug)]
pub struct UserInput {
    pub key: Option<MotionKey>,
    pub key_pressed: bool,
    pub key_released: bool,
    pub samples_per_frame: u32,
    pub samples_per_pixel: u32,
    pub number_of_bounces: u32,
    pub state_changed: bool,
}

impl UserInput {
    /// The sampling sliders hold at least one sample and one bounce, and the
    /// target stays far enough from the type's limit that one more full batch
    /// of samples cannot overflow a 32-bit counter.
    pub open spec fn wf(self) -> bool {
        &&& self.samples_per_frame >= 1
        &&& self.samples_per_pixel >= 1
        &&& self.number_of_bounces >= 1
        &&& self.samples_per_pixel + self.samples_per_frame <= u32::MAX
    }

    /// Clears the dirty flag once the orchestrator has consumed the input.
    pub fn reset_state(&mut self)
        ensures
            *final(self) == (UserInput { state_changed: false, ..*old(self) }),
    {
        self.state_changed = false;
    }

    pub fn state_changed(&self) -> (r: bool)
        ensures
            r == self.state_changed,
    {
        self.state_changed
    }

    pub fn key(&self) -> (r: Option<MotionKey>)
        ensures
            r == self.key,
    {
        self.key
    }

    pub fn key_pressed(&self) -> (r: bool)
        ensures
            r == self.key_pressed,
    {
        self.key_pressed
    }

    /// Records an edge-triggered key press and marks the input dirty.
    pub fn set_key_pressed(&mut self, key: Option<MotionKey>)
        ensures
            *final(self) == (UserInput {
                key,
                key_pressed: true,
                state_changed: true,
                ..*old(self)
            }),
    {
        self.key_pressed = true;
        self.key = key;
        self.state_changed = true;
    }

    pub fn key_released(&self) -> (r: bool)
        ensures
            r == self.key_released,
    {
        self.key_released
    }

    /// Records an edge-triggered key release and marks the input dirty.
    pub fn set_key_released(&mut self, key: Option<MotionKey>)
        ensures
            *final(self) == (UserInput {
                key,
                key_released: true,
                state_changed: true,
                ..*old(self)
            }),
    {
        self.key_released = true;
        self.key = key;
        self.state_changed = true;
    }

    pub fn samples_per_frame(&self) -> (r: u32)
        ensures
            r == self.samples_per_frame,
    {
        self.samples_per_frame
    }

    pub fn set_samples_per_frame(&mut self, samples_per_frame: u32)
        requires
            samples_per_frame >= 1,
            old(self).samples_per_pixel + samples_per_frame <= u32::MAX,
        ensures
            *final(self) == (UserInput {
                samples_per_frame,
                state_changed: true,
                ..*old(self)
            }),
    {
        self.samples_per_frame = samples_per_frame;
        self.state_changed = true;
    }

    pub fn samples_per_pixel(&self) -> (r: u32)
        ensures
            r == self.samples_per_pixel,
    {
        self.samples_per_pixel
    }

    pub fn set_samples_per_pixel(&mut self, samples_per_pixel: u32)
        requires
            samples_per_pixel >= 1,
            samples_per_pixel + old(self).samples_per_frame <= u32::MAX,
        ensures
            *final(self) == (UserInput {
                samples_per_pixel,
                state_changed: true,
                ..*old(self)
            }),
    {
        self.samples_per_pixel = samples_per_pixel;
        self.state_changed = true;
    }

    pub fn number_of_bounces(&self) -> (r: u32)
        ensures
            r == self.number_of_bounces,
    {
        self.number_of_bounces
    }

    pub fn set_number_of_bounces(&mut self, number_of_bounces: u32)
        requires
            number_of_bounces >= 1,
        ensures
            *final(self) == (UserInput {
                number_of_bounces,
                state_changed: true,
                ..*old(self)
            }),
    {
        self.number_of_bounces = number_of_bounces;
        self.state_changed = true;
    }
}

impl Default for UserInput {
    /// The startup input: no pending key event, the default sampling sliders,
    /// and the dirty flag set so that the very first tick configures the GPU.
    fn default() -> (r: Self)
        ensures
            r == (UserInput {
                key: None::<MotionKey>,
                key_pressed: false,
                key_released: false,
                samples_per_frame: 1u32,
                samples_per_pixel: 50u32,
                number_of_bounces: 1u32,
                state_changed: true,
            }),
            r.wf(),
    {
        UserInput {
            key: None,
            key_pressed: false,
            key_released: false,
            samples_per_frame: 1,
            samples_per_pixel: 50,
            number_of_bounces: 1,
            state_changed: true,
        }
    }
}

} // verus!
