//! The presentation side of the pipeline: the driver's lifecycle state
//! machine and the per-notification steps it performs, verified. The driver
//! context owns the display surface, runs the external event loop, and is
//! the only component that can terminate the worker.

use vstd::prelude::*;
use vstd::pervasive::unreached;
use crate::channel;
use crate::frame::Frame;
use crate::input::{EventAccumulator, EventBatch, InputEvent};
use crate::messages::{ToPresentation, ToSimulation};

verus! {

/// The driver's lifecycle: these three states and no others, visited in
/// this order, with no way back.
#[derive(Clone, Copy, PartialEq, Eq, Structural, Debug)]
pub enum DriverPhase {
    /// Serving event and idle notifications.
    Running,
    /// A close request or a presentation failure was seen; teardown is due.
    ShuttingDown,
    /// The sentinel is on its way and the worker may be joined.
    Terminated,
}

/// The presentation loop's state machine.
pub struct DriverState {
    phase: DriverPhase,
}

impl DriverState {
    /// Which lifecycle state the driver is in.
    pub closed spec fn phase_spec(self) -> DriverPhase {
        self.phase
    }

    /// A driver that has just started running.
    pub fn new() -> (r: DriverState)
        ensures
            r.phase_spec() is Running,
    {
        DriverState { phase: DriverPhase::Running }
    }

    /// Which lifecycle state the driver is in.
    pub fn phase(&self) -> (r: DriverPhase)
        ensures
            r == self.phase_spec(),
    {
        self.phase
    }

    /// An exit signal from the windowing side, or a presentation failure:
    /// leave Running for ShuttingDown.
    pub fn begin_shutdown(&mut self)
        requires
            old(self).phase_spec() is Running,
        ensures
            final(self).phase_spec() is ShuttingDown,
    {
        self.phase = DriverPhase::ShuttingDown;
    }

    /// Teardown: send the shutdown sentinel and become Terminated. The send
    /// is best-effort and a failure is ignored, since the worker may
    /// already have exited on its own budget; it waits at most until the
    /// worker's next poll drains the slot, so the caller can join the
    /// worker context right after without deadlock.
    pub fn complete_shutdown(&mut self, tx: &crossbeam_channel::Sender<ToSimulation>)
        requires
            old(self).phase_spec() is ShuttingDown,
        ensures
            final(self).phase_spec() is Terminated,
    {
        let _ = channel::mailbox_send(tx, ToSimulation::Terminate);
        self.phase = DriverPhase::Terminated;
    }
}

/// Build the current batch and attempt a non-blocking forward to the
/// simulation mailbox. The accumulator is cleared whatever the send
/// outcome, so its memory stays bounded; a rejected batch comes back to the
/// caller, which logs it and goes on — losing a batch under backpressure is
/// the documented policy, stalling is not an option.
pub fn forward_events(
    acc: &mut EventAccumulator,
    tx: &crossbeam_channel::Sender<ToSimulation>,
) -> (rejected: Option<EventBatch>)
    ensures
        final(acc)@.len() == 0,
        (rejected matches Some(b) ==> b@ == old(acc)@),
{
    let batch = acc.snapshot_and_clear();
    match channel::mailbox_try_send(tx, ToSimulation::Events(batch)) {
        Ok(()) => None,
        Err(back) => match back {
            ToSimulation::Events(b) => Some(b),
            ToSimulation::Terminate => unreached(),
        },
    }
}

/// One external event notification, as the driver serves it: record the
/// event in arrival order, then build and forward the batch (see
/// `forward_events`).
pub fn handle_event(
    acc: &mut EventAccumulator,
    tx: &crossbeam_channel::Sender<ToSimulation>,
    e: InputEvent,
) -> (rejected: Option<EventBatch>)
    ensures
        final(acc)@.len() == 0,
        (rejected matches Some(b) ==> b@ == old(acc)@.push(e)),
{
    acc.append(e);
    forward_events(acc, tx)
}

/// One idle notification: poll the frame mailbox without blocking. A frame,
/// if present, is handed to the caller to copy into the presentation
/// backend and present; its type alone already guarantees the byte length
/// the backend expects.
pub fn poll_frame(rx: &crossbeam_channel::Receiver<ToPresentation>) -> Option<Frame> {
    match channel::mailbox_try_recv(rx) {
        Some(ToPresentation::FramePayload(f)) => Some(f),
        None => None,
    }
}

} // verus!
