use vstd::prelude::*;

verus! {

/// What the light-transport recursion does with a ray: stop and gather no
/// more light, shade the sky gradient, or shade the hit surface and follow
/// one scattered ray a level deeper.
#[derive(Clone, Copy, PartialEq, Eq, Structural, Debug)]
pub enum TraceStep {
    /// The depth budget is spent: the ray contributes exact black.
    Black,
    /// Nothing was hit: the ray shows the vertical background gradient.
    Background,
    /// A surface was hit: shade it and recurse with one level less.
    Shade,
}

/// The decision at the head of the recursive trace.
///
/// A ray with no remaining depth gathers no more light, whatever the
/// scene holds and whether or not anything was hit; with depth left, a
/// miss shows the background and a hit is shaded and followed deeper.
/// The recursion terminates because every recursive call hands in a
/// strictly smaller depth, and at zero this decision is always `Black`.
pub fn trace_decision(depth: isize, hit: bool) -> (step: TraceStep)
    ensures
        depth <= 0 ==> step == TraceStep::Black,
        depth > 0 && !hit ==> step == TraceStep::Background,
        depth > 0 && hit ==> step == TraceStep::Shade,
{
    if depth <= 0 {
        TraceStep::Black
    } else if !hit {
        TraceStep::Background
    } else {
        TraceStep::Shade
    }
}

/// The scanline flip: the image plane's y axis grows upward while rows
/// are written top to bottom, so output row `j` samples plane row
/// `height - j - 1`.
pub fn flip_row(j: usize, height: usize) -> (r: usize)
    requires
        j < height,
    ensures
        r == height - j - 1,
        r < height,
{
    height - j - 1
}

} // verus!
