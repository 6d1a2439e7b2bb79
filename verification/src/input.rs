//! Input events and the shared event accumulator: events arrive on the
//! presentation side in a significant order, buffer between forwards, and
//! leave all at once as an ordered batch.

use vstd::prelude::*;

verus! {

/// One user or window interaction. Only keyboard events are acted on in the
/// current scope; every other variant is accepted and ignored, a deliberate
/// placeholder policy for future extension.
#[derive(Clone, Copy, PartialEq, Eq, Structural, Debug)]
pub enum InputEvent {
    /// A key press or release, identified by its scan code.
    Key(u32),
    /// The window surface changed size.
    Resized(u32, u32),
    /// The windowing system asked to close the window.
    CloseRequested,
    /// Any other interaction; carried in order, never dispatched.
    Other,
}

/// True of the events the simulation acts on.
pub open spec fn is_key_event(e: InputEvent) -> bool {
    e is Key
}

/// How many events of a sequence the simulation acts on.
pub open spec fn key_count(s: Seq<InputEvent>) -> nat
    decreases s.len(),
{
    if s.len() == 0 {
        0
    } else {
        key_count(s.drop_last()) + (if is_key_event(s.last()) {
            1nat
        } else {
            0nat
        })
    }
}

/// An ordered batch of input events accumulated since the last forward; the
/// order is the arrival order and is preserved end-to-end.
pub struct EventBatch {
    pub events: Vec<InputEvent>,
}

impl View for EventBatch {
    type V = Seq<InputEvent>;

    open spec fn view(&self) -> Seq<InputEvent> {
        self.events@
    }
}

impl EventBatch {
    /// A batch with nothing in it; forwarding one is a no-op downstream.
    pub fn empty() -> (r: EventBatch)
        ensures
            r@.len() == 0,
    {
        EventBatch { events: Vec::new() }
    }

    /// How many events the batch carries.
    pub fn len(&self) -> (r: usize)
        ensures
            r == self@.len(),
    {
        self.events.len()
    }
}

/// The shared event buffer of the presentation side: events append in
/// arrival order and leave, all at once and in order, when a batch is built
/// for forwarding. The driver wraps it in a mutual-exclusion lock; the
/// operations here are exactly the two ever performed under that lock.
pub struct EventAccumulator {
    events: Vec<InputEvent>,
}

impl View for EventAccumulator {
    type V = Seq<InputEvent>;

    closed spec fn view(&self) -> Seq<InputEvent> {
        self.events@
    }
}

impl EventAccumulator {
    /// An empty accumulator, as created at startup.
    pub fn new() -> (r: EventAccumulator)
        ensures
            r@.len() == 0,
    {
        EventAccumulator { events: Vec::new() }
    }

    /// Record one incoming event at the end, keeping arrival order.
    pub fn append(&mut self, e: InputEvent)
        ensures
            final(self)@ == old(self)@.push(e),
    {
        self.events.push(e);
    }

    /// Snapshot the contents and clear, in one step: the returned batch
    /// holds exactly the accumulated events in arrival order, and nothing
    /// stays behind, whatever becomes of the batch afterwards. The clearing
    /// is unconditional, so the buffer never grows without bound.
    pub fn snapshot_and_clear(&mut self) -> (b: EventBatch)
        ensures
            b@ == old(self)@,
            final(self)@.len() == 0,
    {
        let mut taken: Vec<InputEvent> = Vec::new();
        std::mem::swap(&mut taken, &mut self.events);
        EventBatch { events: taken }
    }

    /// How many events are waiting to be forwarded.
    pub fn len(&self) -> (r: usize)
        ensures
            r == self@.len(),
    {
        self.events.len()
    }
}

} // verus!
