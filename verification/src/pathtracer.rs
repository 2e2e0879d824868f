//! The progressive-refinement state machine and the per-frame orchestrator.
//!
//! `GPUFrameParameters` tracks the accumulation counters against the sampling
//! target; `PathTracer` owns it together with the sampling parameters and
//! decides, once per tick, whether the accumulated image must be reset and
//! whether a compute dispatch is due. The GPU calls themselves are the host
//! program's job: a tick returns a `FrameDecision` naming the uniform regions
//! to push (as exact byte images) and the workgroup counts to dispatch.

use crate::bytes::{push_u32_le, spec_u32_le};
use crate::sampling_parameters::{spec_sampling_bytes, GPUSamplingParametersBuffer};
use crate::user_input::UserInput;
use vstd::arithmetic::div_mod::{
    lemma_div_is_ordered, lemma_div_multiples_vanish, lemma_div_pos_is_pos,
};
use vstd::prelude::*;

verus! {

/// The byte image of the frame-parameters uniform region, in field order.
pub open spec fn spec_frame_bytes(p: GPUFrameParameters) -> Seq<u8> {
    spec_u32_le(p.width) + spec_u32_le(p.height) + spec_u32_le(p.frame) + spec_u32_le(
        p.accumulated_samples,
    )
}

/// Per-frame counters in the exact layout the GPU reads: surface size, the
/// frame index (1 right after a reset) and the samples accumulated so far.
#[derive(Clone, Copy, Debug, PartialEq, Eq, Structural)]
pub struct GPUFrameParameters {
    pub width: u32,
    pub height: u32,
    pub frame: u32,
    pub accumulated_samples: u32,
}

impl GPUFrameParameters {
    pub fn new(width: u32, height: u32, frame: u32, accumulated_samples: u32) -> (r: Self)
        ensures
            r == (GPUFrameParameters { width, height, frame, accumulated_samples }),
    {
        GPUFrameParameters { width, height, frame, accumulated_samples }
    }

    pub fn update_window_size(&mut self, width: u32, height: u32)
        ensures
            *final(self) == (GPUFrameParameters { width, height, ..*old(self) }),
    {
        self.width = width;
        self.height = height;
    }

    pub fn increment_frame(&mut self)
        requires
            old(self).frame < u32::MAX,
        ensures
            *final(self) == (GPUFrameParameters { frame: (old(self).frame + 1) as u32, ..*old(self) }),
    {
        self.frame = self.frame + 1;
    }

    /// Restarts accumulation: the counters return to frame one with nothing
    /// accumulated.
    pub fn reset(&mut self)
        ensures
            *final(self) == (GPUFrameParameters { frame: 1u32, accumulated_samples: 0u32, ..*old(self) }),
    {
        self.frame = 1;
        self.accumulated_samples = 0;
    }

    /// Credits one full batch of samples; the shader always contributes a
    /// whole batch per dispatch, so the final batch may overshoot the target.
    pub fn increment_accumulated_samples(&mut self, samples_per_frame: u32)
        requires
            old(self).accumulated_samples + samples_per_frame <= u32::MAX,
        ensures
            *final(self) == (GPUFrameParameters {
                accumulated_samples: (old(self).accumulated_samples + samples_per_frame) as u32,
                ..*old(self)
            }),
    {
        self.accumulated_samples = self.accumulated_samples + samples_per_frame;
    }

    /// The sixteen bytes this record occupies in the uniform region.
    pub fn to_bytes(&self) -> (r: Vec<u8>)
        ensures
            r@ == spec_frame_bytes(*self),
            r@.len() == 16,
    {
        let mut out: Vec<u8> = Vec::new();
        push_u32_le(&mut out, self.width);
        push_u32_le(&mut out, self.height);
        push_u32_le(&mut out, self.frame);
        push_u32_le(&mut out, self.accumulated_samples);
        proof {
            assert(out@ =~= spec_frame_bytes(*self));
        }
        out
    }
}

/// What one tick asks of the GPU backend.
///
/// When `refresh_render_parameters` holds, the render-parameter buffers must
/// be re-pushed and `sampling_bytes` carries the sampling region with the
/// clear pulse raised. When `dispatch` holds, `frame_bytes` carries the frame
/// region to push before dispatching `workgroups_x` by `workgroups_y`
/// workgroups of the compute kernel.
#[derive(Clone, Debug)]
pub struct FrameDecision {
    pub refresh_render_parameters: bool,
    pub sampling_bytes: Vec<u8>,
    pub dispatch: bool,
    pub frame_bytes: Vec<u8>,
    pub workgroups_x: u32,
    pub workgroups_y: u32,
}

/// The per-frame controller: consumes user input, keeps the two state holders
/// in step, and decides reset-versus-continue for every tick.
#[derive(Clone, Copy, Debug, PartialEq, Eq, Structural)]
pub struct PathTracer {
    pub frame_parameters: GPUFrameParameters,
    pub sampling_parameters: GPUSamplingParametersBuffer,
}

impl PathTracer {
    /// Every state the orchestrator can reach: the sampling knobs are
    /// well-formed, the frame index never runs ahead of the accumulated
    /// samples by more than one, and the accumulated samples never exceed the
    /// target by a full batch or more.
    pub open spec fn wf(self) -> bool {
        &&& self.sampling_parameters.wf()
        &&& self.frame_parameters.frame <= self.frame_parameters.accumulated_samples + 1
        &&& self.frame_parameters.accumulated_samples < self.sampling_parameters.samples_per_pixel
            + self.sampling_parameters.samples_per_frame
    }

    /// Percentage of the sampling target reached so far, clamped to 100 when
    /// the final batch overshoots the target.
    pub open spec fn spec_progress(self) -> int {
        if self.sampling_parameters.samples_per_pixel == 0 {
            0
        } else {
            let raw = 100 * self.frame_parameters.accumulated_samples
                / self.sampling_parameters.samples_per_pixel as int;
            if raw > 100 {
                100
            } else {
                raw
            }
        }
    }

    /// Whether this tick must restart accumulation: the input changed, or the
    /// surface was resized, which invalidates the pixel indexing of everything
    /// accumulated so far.
    pub open spec fn spec_resets(self, input: UserInput, width: u32, height: u32) -> bool {
        ||| input.state_changed
        ||| width != self.frame_parameters.width
        ||| height != self.frame_parameters.height
    }

    /// A fresh orchestrator for a surface of the given size, holding the
    /// default sampling knobs until the first input is consumed.
    pub fn new(width: u32, height: u32) -> (r: Self)
        ensures
            r.frame_parameters == (GPUFrameParameters {
                width,
                height,
                frame: 0u32,
                accumulated_samples: 0u32,
            }),
            r.sampling_parameters == (GPUSamplingParametersBuffer {
                samples_per_frame: 1u32,
                samples_per_pixel: 50u32,
                number_of_bounces: 1u32,
                clear_image_buffer: 1u32,
            }),
            r.wf(),
    {
        PathTracer {
            frame_parameters: GPUFrameParameters::new(width, height, 0, 0),
            sampling_parameters: GPUSamplingParametersBuffer::new(1, 50, 1),
        }
    }

    /// Progress of accumulation as a whole percentage.
    pub fn progress(&self) -> (r: u32)
        requires
            self.wf(),
        ensures
            r == self.spec_progress(),
            0 <= r <= 100,
    {
        let acc: u64 = self.frame_parameters.accumulated_samples as u64;
        let spp: u64 = self.sampling_parameters.samples_per_pixel as u64;
        let raw: u64 = (100 * acc) / spp;
        let clamped: u64 = if raw > 100 {
            100
        } else {
            raw
        };
        clamped as u32
    }

    /// Copies the sampling sliders out of the input and clears its dirty flag.
    pub fn process_user_input(&mut self, input: &mut UserInput)
        ensures
            final(self).frame_parameters == old(self).frame_parameters,
            final(self).sampling_parameters == (GPUSamplingParametersBuffer {
                samples_per_frame: old(input).samples_per_frame,
                samples_per_pixel: old(input).samples_per_pixel,
                number_of_bounces: old(input).number_of_bounces,
                ..old(self).sampling_parameters
            }),
            *final(input) == (UserInput { state_changed: false, ..*old(input) }),
    {
        self.sampling_parameters.process_user_input(input);
        input.reset_state();
    }

    /// The reset transition: accumulation returns to frame one with nothing
    /// accumulated, and the clear flag is pulsed for exactly this update
    /// cycle. The returned bytes are the sampling uniform with the pulse
    /// raised; the stored flag is already lowered again when this returns.
    pub fn restart_accumulation(&mut self) -> (sampling_bytes: Vec<u8>)
        ensures
            final(self).frame_parameters == (GPUFrameParameters {
                frame: 1u32,
                accumulated_samples: 0u32,
                ..old(self).frame_parameters
            }),
            final(self).sampling_parameters == (GPUSamplingParametersBuffer {
                clear_image_buffer: 0u32,
                ..old(self).sampling_parameters
            }),
            sampling_bytes@ == spec_sampling_bytes(
                (GPUSamplingParametersBuffer {
                    clear_image_buffer: 1u32,
                    ..old(self).sampling_parameters
                }),
            ),
    {
        self.sampling_parameters.set_clear_image_flag(true);
        let sampling_bytes = self.sampling_parameters.to_bytes();
        self.sampling_parameters.set_clear_image_flag(false);
        self.frame_parameters.reset();
        sampling_bytes
    }

    /// One tick of the per-frame procedure.
    ///
    /// Consumes the input if it changed, treats a surface resize exactly like
    /// changed input, restarts accumulation on either, pulses the clear flag
    /// into the pushed sampling bytes for exactly that tick, and advances the
    /// counters by one full batch while the target has not been reached.
    /// Progress never decreases between resets, and the accumulated samples
    /// never exceed the target by a full batch or more.
    pub fn run_path_tracer(&mut self, input: &mut UserInput, width: u32, height: u32) -> (d:
        FrameDecision)
        requires
            old(self).wf(),
            old(input).wf(),
        ensures
            final(self).wf(),
            *final(input) == (UserInput { state_changed: false, ..*old(input) }),
            final(self).frame_parameters.width == width,
            final(self).frame_parameters.height == height,
            d.refresh_render_parameters == old(self).spec_resets(*old(input), width, height),
            final(self).sampling_parameters == (GPUSamplingParametersBuffer {
                samples_per_frame: if old(input).state_changed {
                    old(input).samples_per_frame
                } else {
                    old(self).sampling_parameters.samples_per_frame
                },
                samples_per_pixel: if old(input).state_changed {
                    old(input).samples_per_pixel
                } else {
                    old(self).sampling_parameters.samples_per_pixel
                },
                number_of_bounces: if old(input).state_changed {
                    old(input).number_of_bounces
                } else {
                    old(self).sampling_parameters.number_of_bounces
                },
                clear_image_buffer: if d.refresh_render_parameters {
                    0u32
                } else {
                    old(self).sampling_parameters.clear_image_buffer
                },
            }),
            d.sampling_bytes@ == spec_sampling_bytes(
                (GPUSamplingParametersBuffer {
                    clear_image_buffer: if d.refresh_render_parameters {
                        1u32
                    } else {
                        old(self).sampling_parameters.clear_image_buffer
                    },
                    ..final(self).sampling_parameters
                }),
            ),
            d.dispatch == ((if d.refresh_render_parameters {
                0int
            } else {
                old(self).frame_parameters.accumulated_samples as int
            }) < final(self).sampling_parameters.samples_per_pixel),
            final(self).frame_parameters.frame == (if d.refresh_render_parameters {
                1int
            } else {
                old(self).frame_parameters.frame as int
            }) + (if d.dispatch {
                1int
            } else {
                0int
            }),
            final(self).frame_parameters.accumulated_samples == (if d.refresh_render_parameters {
                0int
            } else {
                old(self).frame_parameters.accumulated_samples as int
            }) + (if d.dispatch {
                final(self).sampling_parameters.samples_per_frame as int
            } else {
                0int
            }),
            d.frame_bytes@ == spec_frame_bytes(final(self).frame_parameters),
            d.workgroups_x == width / 4,
            d.workgroups_y == height / 4,
            final(self).frame_parameters.accumulated_samples
                < final(self).sampling_parameters.samples_per_pixel
                + final(self).sampling_parameters.samples_per_frame,
            !d.refresh_render_parameters
                ==> old(self).spec_progress() <= final(self).spec_progress(),
            d.refresh_render_parameters
                ==> final(self).frame_parameters.frame == 2
                && final(self).frame_parameters.accumulated_samples
                == final(self).sampling_parameters.samples_per_frame,
    {
        let resized = width != self.frame_parameters.width || height
            != self.frame_parameters.height;
        self.frame_parameters.update_window_size(width, height);

        let changed = input.state_changed();
        if changed {
            self.process_user_input(input);
        }

        let refresh = changed || resized;
        let sampling_bytes: Vec<u8> = if refresh {
            self.restart_accumulation()
        } else {
            self.sampling_parameters.to_bytes()
        };

        let dispatch = self.frame_parameters.accumulated_samples
            < self.sampling_parameters.samples_per_pixel;
        if dispatch {
            self.frame_parameters.increment_frame();
            self.frame_parameters.increment_accumulated_samples(
                self.sampling_parameters.samples_per_frame,
            );
        }
        let frame_bytes = self.frame_parameters.to_bytes();

        proof {
            if !refresh {
                lemma_div_is_ordered(
                    100 * old(self).frame_parameters.accumulated_samples,
                    100 * self.frame_parameters.accumulated_samples,
                    self.sampling_parameters.samples_per_pixel as int,
                );
            }
        }

        FrameDecision {
            refresh_render_parameters: refresh,
            sampling_bytes,
            dispatch,
            frame_bytes,
            workgroups_x: width / 4,
            workgroups_y: height / 4,
        }
    }
}

/// Progress lies between 0 and 100 in every state the orchestrator can reach,
/// overshooting final batch included.
pub proof fn lemma_progress_in_range(pt: PathTracer)
    requires
        pt.wf(),
    ensures
        0 <= pt.spec_progress() <= 100,
{
    lemma_div_pos_is_pos(
        100 * pt.frame_parameters.accumulated_samples,
        pt.sampling_parameters.samples_per_pixel as int,
    );
}

/// In the converged state, where the accumulated samples have reached the
/// target, progress reads exactly 100.
pub proof fn lemma_progress_converged(pt: PathTracer)
    requires
        pt.wf(),
        pt.frame_parameters.accumulated_samples >= pt.sampling_parameters.samples_per_pixel,
    ensures
        pt.spec_progress() == 100,
{
    let acc = pt.frame_parameters.accumulated_samples as int;
    let spp = pt.sampling_parameters.samples_per_pixel as int;
    lemma_div_multiples_vanish(100, spp);
    lemma_div_is_ordered(100 * spp, 100 * acc, spp);
}

/// Progress is monotone between resets: with the same sampling target, a
/// state that has accumulated at least as many samples is at least as far
/// along.
pub proof fn lemma_progress_monotonic(before: PathTracer, after: PathTracer)
    requires
        before.wf(),
        after.wf(),
        before.sampling_parameters.samples_per_pixel
            == after.sampling_parameters.samples_per_pixel,
        before.frame_parameters.accumulated_samples
            <= after.frame_parameters.accumulated_samples,
    ensures
        before.spec_progress() <= after.spec_progress(),
{
    lemma_div_is_ordered(
        100 * before.frame_parameters.accumulated_samples,
        100 * after.frame_parameters.accumulated_samples,
        after.sampling_parameters.samples_per_pixel as int,
    );
}

} // verus!
