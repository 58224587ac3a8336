use vstd::prelude::*;

verus! {

/// A rectangle restricting a draw call's visible output to a sub-area of the
/// render target, in pixels. Carried per draw invocation, never stored.
#[derive(Clone, Copy, PartialEq, Eq, Structural, Debug)]
pub struct Region {
    pub x: u32,
    pub y: u32,
    pub width: u32,
    pub height: u32,
}

} // verus!
