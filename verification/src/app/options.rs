//! Which backends the engine is started with.

use vstd::prelude::*;

verus! {

/// The windowing backend to use.
#[derive(Clone, Copy, Debug, PartialEq, Eq, Structural, Default)]
pub enum Window {
    #[default]
    Winit,
}

/// The rendering backend to use.
#[derive(Clone, Copy, Debug, PartialEq, Eq, Structural, Default)]
pub enum Renderer {
    #[default]
    Wgpu,
}

/// The engine's start-up options.
#[derive(Clone, Copy, Debug, PartialEq, Eq, Structural, Default)]
pub struct Options {
    pub window: Window,
    pub renderer: Renderer,
}

} // verus!
