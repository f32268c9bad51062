//! Plain pixel geometry shared by the windowing model and the renderer.

use vstd::prelude::*;

verus! {

/// Width and height of a window or render target, in pixels.
#[derive(Clone, Copy, Debug, PartialEq, Eq, Structural)]
pub struct Dimensions {
    pub width: u32,
    pub height: u32,
}

impl Dimensions {
    /// A degenerate extent has a zero side.  Such a request comes from a
    /// minimized window and must never reach a surface configuration.
    pub open spec fn is_degenerate(self) -> bool {
        self.width == 0 || self.height == 0
    }
}

/// An axis-aligned clip rectangle in surface pixels.
#[derive(Clone, Copy, Debug, PartialEq, Eq, Structural)]
pub struct Rect {
    pub x: u32,
    pub y: u32,
    pub width: u32,
    pub height: u32,
}

} // verus!
