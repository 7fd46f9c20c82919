use vstd::prelude::*;

verus! {

/// A snapshot of the drawable surface's size, reported by the frame surface
/// provider once per frame. Compared by equality only.
#[derive(Clone, Copy, Debug, PartialEq, Eq, Structural)]
pub struct ScreenDimensions {
    pub width: u32,
    pub height: u32,
}

} // verus!
