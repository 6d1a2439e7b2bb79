//! The simulation side of the pipeline: the decisions of one worker
//! iteration, verified. The worker context runs these between sleeps until
//! the shutdown sentinel is observed or its wall-clock budget elapses.

use vstd::prelude::*;
use crate::channel;
use crate::frame::Frame;
use crate::input::{key_count, EventBatch, InputEvent};
use crate::messages::{ToPresentation, ToSimulation};

verus! {

/// The worker's own state across iterations.
pub struct SimulationState {
    /// Successful-delivery counter: advanced only by accepted sends, so
    /// frame numbering reflects frames actually delivered, not attempts.
    pub frame_count: usize,
}

impl SimulationState {
    /// The state at worker startup: nothing delivered yet.
    pub fn new() -> (r: SimulationState)
        ensures
            r.frame_count == 0,
    {
        SimulationState { frame_count: 0 }
    }
}

/// What the worker decided from one inbound poll.
pub enum InboundOutcome {
    /// Go on with this tick; `handled` keyboard events were acted on.
    Proceed { handled: usize },
    /// The shutdown sentinel arrived: stop before computing anything.
    Stop,
}

/// Dispatch one batch in arrival order: act on the keyboard events (the
/// placeholder action is only to count them), accept and ignore every other
/// variant.
pub fn process_batch(batch: &EventBatch) -> (handled: usize)
    ensures
        handled == key_count(batch@),
{
    let mut handled: usize = 0;
    let mut i: usize = 0;
    let n: usize = batch.events.len();
    while i < n
        invariant
            n == batch@.len(),
            i <= n,
            handled == key_count(batch@.take(i as int)),
            handled <= i,
        decreases n - i,
    {
        let e = batch.events[i];
        match e {
            InputEvent::Key(_) => {
                handled = handled + 1;
            },
            _ => {},
        }
        proof {
            assert(batch@.take(i as int + 1).drop_last() =~= batch@.take(i as int));
            assert(batch@.take(i as int + 1).last() == batch@[i as int]);
        }
        i = i + 1;
    }
    proof {
        assert(batch@.take(n as int) =~= batch@);
    }
    handled
}

/// Interpret one polled message. A batch is dispatched in arrival order; an
/// empty or absent one dispatches nothing at all, so forwarding an empty
/// accumulator is a no-op here; the sentinel, and only the sentinel, stops
/// the worker without touching anything.
pub fn apply_inbound(msg: Option<ToSimulation>) -> (r: InboundOutcome)
    ensures
        (msg is None ==> (r matches InboundOutcome::Proceed { handled } && handled == 0)),
        (msg matches Some(ToSimulation::Events(b)) ==> (r matches InboundOutcome::Proceed {
            handled,
        } && handled == key_count(b@))),
        (msg matches Some(ToSimulation::Events(b)) && b@.len() == 0 ==> (
        r matches InboundOutcome::Proceed { handled } && handled == 0)),
        (msg matches Some(ToSimulation::Terminate) ==> r is Stop),
        (r is Stop ==> msg matches Some(ToSimulation::Terminate)),
{
    match msg {
        None => InboundOutcome::Proceed { handled: 0 },
        Some(ToSimulation::Terminate) => InboundOutcome::Stop,
        Some(ToSimulation::Events(b)) => InboundOutcome::Proceed {
            handled: process_batch(&b),
        },
    }
}

/// What one worker iteration did.
#[derive(Clone, Copy, PartialEq, Eq, Structural, Debug)]
pub enum TickOutcome {
    /// The tick's frame was accepted by the outbound mailbox; the counter
    /// advanced.
    FrameDelivered,
    /// The presentation side had not drained the previous frame: the new
    /// frame was dropped at the sender and the counter stands still. The
    /// caller logs a diagnostic; the next tick is the retry.
    FrameDropped,
    /// The shutdown sentinel was observed; the worker must leave its loop.
    Terminated,
}

/// One iteration of the simulation loop, between sleeps: poll the inbound
/// mailbox without blocking, dispatch any batch in arrival order, then
/// compute the tick's frame and attempt a non-blocking send. The
/// successful-delivery counter advances exactly on an accepted send, never
/// on a rejected one, and never once the sentinel is seen.
pub fn simulation_tick(
    state: &mut SimulationState,
    tx: &crossbeam_channel::Sender<ToPresentation>,
    rx: &crossbeam_channel::Receiver<ToSimulation>,
) -> (r: TickOutcome)
    requires
        old(state).frame_count < usize::MAX,
    ensures
        r is FrameDelivered ==> final(state).frame_count == old(state).frame_count + 1,
        r is FrameDropped ==> final(state).frame_count == old(state).frame_count,
        r is Terminated ==> final(state).frame_count == old(state).frame_count,
{
    let msg = channel::mailbox_try_recv(rx);
    match apply_inbound(msg) {
        InboundOutcome::Stop => TickOutcome::Terminated,
        InboundOutcome::Proceed { handled: _ } => {
            let frame = Frame::for_tick(state.frame_count);
            match channel::mailbox_try_send(tx, ToPresentation::FramePayload(frame)) {
                Ok(()) => {
                    state.frame_count = state.frame_count + 1;
                    TickOutcome::FrameDelivered
                },
                Err(_) => TickOutcome::FrameDropped,
            }
        },
    }
}

} // verus!
