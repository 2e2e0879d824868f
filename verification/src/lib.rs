//! Core logic of a progressive GPU path tracer: the camera input model, the
//! sample-accumulation state machine, and the per-frame orchestrator that
//! decides when to reset accumulated results, when to keep accumulating, and
//! what to hand to the GPU backend.
//!
//! The GPU backend and the windowing/UI layer are external collaborators; this
//! crate models the state they act on and the decisions taken each frame, over
//! plain integer and boolean values.

pub mod bytes;
pub mod camera;
pub mod pathtracer;
pub mod sampling_parameters;
pub mod user_input;
