//! Meshes the per-frame context can create.

use vstd::prelude::*;

verus! {

/// A piece of text to draw. Mesh generation for text is not implemented
/// yet; the value only carries its contents.
pub struct Text {
    text: String,
}

impl View for Text {
    type V = Seq<char>;

    closed spec fn view(&self) -> Seq<char> {
        self.text@
    }
}

impl Text {
    pub fn new(text: &str) -> (t: Text)
        ensures
            t@ == text@,
    {
        Text { text: text.to_owned() }
    }
}

} // verus!
