//! Coordination core for a two-context real-time pipeline: a simulation
//! worker produces fixed-size pixel frames while a presentation driver
//! consumes them, with bounded non-blocking message passing in between.
//!
//! Neither side ever blocks waiting for the other. Each direction is a
//! single-slot mailbox; when a receiver falls behind, the newest unit of
//! work is dropped at the sender — a deliberate policy (predictable
//! degradation and bounded memory, at the price of possible loss under
//! sustained imbalance), not an accident of the primitives. An undrained
//! message is never overwritten: what was sent first is what arrives.

use vstd::prelude::*;

pub mod channel;
pub mod driver;
pub mod frame;
pub mod input;
pub mod mailbox;
pub mod messages;
pub mod render;
pub mod simulation;

verus! {

/// Fixed frame width in pixels.
pub const FRAME_WIDTH: usize = 640;

/// Fixed frame height in pixels.
pub const FRAME_HEIGHT: usize = 480;

/// Target interval between simulation ticks, in milliseconds.
pub const TICK_INTERVAL_MILLIS: u64 = 16;

/// Wall-clock budget for the simulation worker, in seconds.
pub const RUN_BUDGET_SECS: u64 = 60;

} // verus!
