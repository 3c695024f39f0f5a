//! A minimal 2D engine core: the verified state and decision logic behind a
//! windowed GPU renderer. The library models the surface configuration, the
//! per-frame render plan, the mesh and vertex-layout data, and the
//! window-event-driven lifecycle; an unverified shell performs the actual
//! GPU and windowing calls and obeys the decisions made here.

use vstd::prelude::*;

pub mod app;
pub mod ctx;
pub mod math;
pub mod render;
pub mod window;

verus! {

/// The window size the engine opens with.
pub const DEFAULT_SIZE: (u32, u32) = (640, 480);

/// Why the engine could not run.
#[derive(Clone, Copy, Debug, PartialEq, Eq, Structural)]
pub enum Error {
    /// The windowing backend failed.
    Window(crate::window::WindowError),
}

} // verus!

