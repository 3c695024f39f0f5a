//! The application-facing surface: start-up options, the context handed to
//! application callbacks, and the [`App`] trait applications implement.

use vstd::prelude::*;

use crate::render::Gfx;

pub mod event;
pub mod options;

verus! {

#[verifier::external_type_specification]
#[verifier::external_body]
#[verifier::reject_recursive_types(T)]
pub struct ExSender<T>(std::sync::mpsc::Sender<T>);

/// Relies on `std::sync::mpsc::Sender::clone`: the clone sends into the same
/// channel. Nothing is claimed of the returned value.
pub assume_specification<T>[ <std::sync::mpsc::Sender<T> as Clone>::clone ](
    sender: &std::sync::mpsc::Sender<T>,
) -> std::sync::mpsc::Sender<T>;

/// The context an application receives: the sending half of the draw
/// channel back to the window loop.
#[derive(Clone)]
pub struct Ctx {
    sender: std::sync::mpsc::Sender<i32>,
}

impl View for Ctx {
    type V = std::sync::mpsc::Sender<i32>;

    closed spec fn view(&self) -> std::sync::mpsc::Sender<i32> {
        self.sender
    }
}

impl Ctx {
    pub fn new(sender: std::sync::mpsc::Sender<i32>) -> (c: Ctx)
        ensures
            c@ == sender,
    {
        Ctx { sender }
    }
}

/// An application run by the engine: `init` is called once the window and
/// renderer exist, `step` on the application's own thread afterwards.
pub trait App: Send + Sync + 'static {
    /// Set the application up. It may draw on and reconfigure the renderer,
    /// but a surface that is configured stays configured: no renderer
    /// operation unconfigures one, and every implementation must keep that.
    fn init(&mut self, ctx: &mut Ctx, gfx: &mut Gfx)
        ensures
            old(gfx).surface_configured ==> final(gfx).surface_configured,
    ;

    fn step(&mut self, ctx: &mut Ctx);
}

} // verus!
