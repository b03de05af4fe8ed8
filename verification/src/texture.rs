//! The opaque handle by which a renderer-owned image is named.

use vstd::prelude::*;
use vstd::std_specs::convert::FromSpecImpl;

verus! {

/// A handle to a texture that some renderer owns.
///
/// The handle is a plain number. It owns nothing, and nothing here checks
/// that it names a live resource: that is the renderer's concern when it
/// draws.
#[derive(Copy, Clone, Debug, Eq, PartialEq, Structural, Ord, PartialOrd, Hash)]
pub struct ImTexture(pub usize);

impl ImTexture {
    /// The number inside the handle.
    pub fn id(self) -> (n: usize)
        ensures
            n == self.0,
    {
        self.0
    }
}

impl From<usize> for ImTexture {
    fn from(id: usize) -> (t: Self) {
        ImTexture(id)
    }
}

impl FromSpecImpl<usize> for ImTexture {
    open spec fn obeys_from_spec() -> bool {
        true
    }

    open spec fn from_spec(id: usize) -> Self {
        ImTexture(id)
    }
}

} // verus!
