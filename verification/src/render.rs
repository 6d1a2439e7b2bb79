//! Hooks for a presentation backend, kept at the interface only: the
//! coordination core never calls them, and the pixel placeholder does not
//! read them. A backend on the driver side implements `Renderer` to turn
//! core state into something it can draw.

use vstd::prelude::*;

verus! {

/// A presentation backend: extracts a renderable snapshot of the core
/// state, then draws it.
pub trait Renderer {
    /// What the backend needs from the core to draw one frame.
    type RenderWorld;

    /// Take a snapshot of the core state in the backend's own terms.
    fn extract_render_world(&self, cr_state: &CoreState) -> Self::RenderWorld;

    /// Draw one extracted snapshot.
    fn render_world(&mut self, world: Self::RenderWorld);
}

/// Backend-side render state; empty in the current scope.
pub struct RenderState {}

/// The simulation's own state, beyond the coordination counters; empty in
/// the current scope.
pub struct CoreState {
    /// The simulated world itself.
    pub world: CoreWorld,
}

/// The simulated world; empty in the current scope.
pub struct CoreWorld {}

/// What a windowing-system backend extracts per frame; empty in the current
/// scope.
pub struct WinitRenderData {}

} // verus!
