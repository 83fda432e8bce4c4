//! Real-time execution core of a cycle-accurate retro-hardware emulator.
//!
//! The crate paces an opaque hardware engine against wall-clock ticks,
//! ferries rendered frames and control events across thread boundaries,
//! buffers audio samples with backpressure, and tracks the lifecycle of the
//! opaque execution handle a host application drives the emulation through.

use vstd::prelude::*;

pub mod audio;
pub mod channels;
pub mod engine;
pub mod events;
pub mod lifecycle;
pub mod model;
pub mod scheduler;

pub use audio::{select_output_config, AudioSink, ConfigRange};
pub use channels::{PolledEvent, PublishOutcome};
pub use engine::{Engine, EngineOp};
pub use events::{event_from_code, GBEvent, KeypadKey};
pub use lifecycle::{handle_step, HandleOp, HandleState, ProtocolError};
pub use model::{construct_cpu, ModelEngine, SerialMode};
pub use scheduler::{apply_events, drain_events, publish_ends_run, run_cpu, run_one_budget};

verus! {

/// Nominal clock rate of the emulated hardware, in cycles per second.
pub const CLOCK_HZ: u64 = 4194304;

/// Wall-clock scheduling interval, in milliseconds.
pub const TICK_MS: u64 = 16;

/// Cycles that must run per scheduling tick at nominal speed:
/// `CLOCK_HZ * TICK_MS / 1000`, rounded to the nearest integer.
pub const CYCLE_BUDGET: u64 = (CLOCK_HZ * TICK_MS + 500) / 1000;

/// Native display width, in pixels.
pub const SCREEN_W: usize = 160;

/// Native display height, in pixels.
pub const SCREEN_H: usize = 144;

/// Bytes per pixel of a rendered frame.
pub const BYTES_PER_PIXEL: usize = 3;

/// Size in bytes of one rendered frame at the hardware-native resolution.
pub const FRAME_SIZE: usize = SCREEN_W * SCREEN_H * BYTES_PER_PIXEL;

} // verus!
