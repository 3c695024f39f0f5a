//! The per-frame context handed to drawing callbacks: a view of the
//! renderer, and constructors for the meshes a callback can draw.

use vstd::prelude::*;

use crate::render::Gfx;

pub mod mesh;

verus! {

/// A drawing context borrowing the renderer for one frame.
pub struct Ctx<'a> {
    gfx: &'a Gfx,
}

impl<'a> View for Ctx<'a> {
    type V = Gfx;

    closed spec fn view(&self) -> Gfx {
        *self.gfx
    }
}

impl<'a> Ctx<'a> {
    pub fn new(gfx: &'a Gfx) -> (c: Ctx<'a>)
        ensures
            c@ == *gfx,
    {
        Ctx { gfx }
    }

    /// Create a text mesh with the given contents.
    pub fn create_text(&self, text: &str) -> (t: mesh::Text)
        ensures
            t@ == text@,
    {
        mesh::Text::new(text)
    }

    /// Queue a mesh for drawing. Not implemented yet: the mesh is dropped
    /// and the context is left unchanged.
    pub fn draw<T>(&mut self, _mesh: T)
        ensures
            *final(self) == *old(self),
    {
    }
}

} // verus!
