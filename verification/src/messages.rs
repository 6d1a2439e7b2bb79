//! The two message unions, one per direction. Each has a single consumption
//! point where it is matched exhaustively; variants are added only there.

use vstd::prelude::*;
use crate::frame::Frame;
use crate::input::EventBatch;

verus! {

/// Messages flowing presentation -> simulation: the batched input events
/// forwarded each tick, and the shutdown sentinel the driver sends during
/// teardown. The sentinel is pure control, never data.
pub enum ToSimulation {
    /// The events accumulated since the last forward, in arrival order.
    Events(EventBatch),
    /// Ask the worker to stop at the next iteration boundary.
    Terminate,
}

/// Messages flowing simulation -> presentation: one computed frame, whose
/// ownership transfers fully on delivery.
pub enum ToPresentation {
    /// The frame computed for the current tick.
    FramePayload(Frame),
}

} // verus!
