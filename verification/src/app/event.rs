//! Application-loop events.

use vstd::prelude::*;

verus! {

/// One tick of the application loop.
#[derive(Clone, Copy, Debug, PartialEq, Eq, Structural)]
pub enum Event {
    /// Advance the application state.
    Step,
    /// Draw the current state.
    Draw,
}

} // verus!
