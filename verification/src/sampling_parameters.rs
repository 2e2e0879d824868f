//! Target sampling quality and the one-shot clear pulse.
//!
//! The struct mirrors, field for field, the sixteen-byte uniform region the
//! compute shader reads: samples per frame, the per-pixel target, the bounce
//! count, and the clear flag, each a little-endian 32-bit word. The clear flag
//! is raised for exactly the one update cycle that follows a reset.

use crate::bytes::{push_u32_le, spec_u32_le};
use crate::user_input::UserInput;
use vstd::prelude::*;

verus! {

/// The byte image of the sampling-parameters uniform region, in field order.
pub open spec fn spec_sampling_bytes(s: GPUSamplingParametersBuffer) -> Seq<u8> {
    spec_u32_le(s.samples_per_frame) + spec_u32_le(s.samples_per_pixel) + spec_u32_le(
        s.number_of_bounces,
    ) + spec_u32_le(s.clear_image_buffer)
}

/// Sampling knobs in the exact layout the GPU reads.
#[derive(Clone, Copy, Debug, PartialEq, Eq, Structural)]
pub struct GPUSamplingParametersBuffer {
    pub samples_per_frame: u32,
    pub samples_per_pixel: u32,
    pub number_of_bounces: u32,
    pub clear_image_buffer: u32,
}

impl GPUSamplingParametersBuffer {
    /// At least one sample per frame, one target sample and one bounce; the
    /// target stays far enough from the type's limit that one more full batch
    /// cannot overflow a 32-bit counter; and the clear flag is a 0-or-1 word.
    pub open spec fn wf(self) -> bool {
        &&& self.samples_per_frame >= 1
        &&& self.samples_per_pixel >= 1
        &&& self.number_of_bounces >= 1
        &&& self.samples_per_pixel + self.samples_per_frame <= u32::MAX
        &&& self.clear_image_buffer <= 1
    }

    /// A fresh buffer asks the shader to clear the accumulated image once.
    pub fn new(samples_per_frame: u32, samples_per_pixel: u32, number_of_bounces: u32) -> (r: Self)
        requires
            samples_per_frame >= 1,
            samples_per_pixel >= 1,
            number_of_bounces >= 1,
            samples_per_pixel + samples_per_frame <= u32::MAX,
        ensures
            r == (GPUSamplingParametersBuffer {
                samples_per_frame,
                samples_per_pixel,
                number_of_bounces,
                clear_image_buffer: 1u32,
            }),
            r.wf(),
    {
        GPUSamplingParametersBuffer {
            samples_per_frame,
            samples_per_pixel,
            number_of_bounces,
            clear_image_buffer: 1,
        }
    }

    /// Copies the sampling sliders out of the consumed input verbatim.
    pub fn process_user_input(&mut self, user_input: &mut UserInput)
        ensures
            *final(self) == (GPUSamplingParametersBuffer {
                samples_per_frame: old(user_input).samples_per_frame,
                samples_per_pixel: old(user_input).samples_per_pixel,
                number_of_bounces: old(user_input).number_of_bounces,
                ..*old(self)
            }),
            *final(user_input) == *old(user_input),
    {
        self.samples_per_frame = user_input.samples_per_frame();
        self.samples_per_pixel = user_input.samples_per_pixel();
        self.number_of_bounces = user_input.number_of_bounces();
    }

    /// Raises or lowers the one-shot clear pulse.
    pub fn set_clear_image_flag(&mut self, clear: bool)
        ensures
            *final(self) == (GPUSamplingParametersBuffer {
                clear_image_buffer: if clear {
                    1u32
                } else {
                    0u32
                },
                ..*old(self)
            }),
    {
        if clear {
            self.clear_image_buffer = 1;
        } else {
            self.clear_image_buffer = 0;
        }
    }

    pub fn samples_per_frame(&self) -> (r: u32)
        ensures
            r == self.samples_per_frame,
    {
        self.samples_per_frame
    }

    pub fn samples_per_pixel(&self) -> (r: u32)
        ensures
            r == self.samples_per_pixel,
    {
        self.samples_per_pixel
    }

    /// The sixteen bytes this buffer occupies in the uniform region.
    pub fn to_bytes(&self) -> (r: Vec<u8>)
        ensures
            r@ == spec_sampling_bytes(*self),
            r@.len() == 16,
    {
        let mut out: Vec<u8> = Vec::new();
        push_u32_le(&mut out, self.samples_per_frame);
        push_u32_le(&mut out, self.samples_per_pixel);
        push_u32_le(&mut out, self.number_of_bounces);
        push_u32_le(&mut out, self.clear_image_buffer);
        proof {
            assert(out@ =~= spec_sampling_bytes(*self));
        }
        out
    }
}

} // verus!
