use vstd::prelude::*;

verus! {

/// A point light source of a certain color, immutable once built.
///
/// Position and color are both values of the renderer's vector family,
/// which the library carries as an opaque payload `V`: the shading
/// arithmetic that reads them is floating point and lives outside the
/// verified core.
pub struct Light<V> {
    pub position: V,
    pub color: V,
}

impl<V> Light<V> {
    /// A light at `position` shining with `color`; both are stored unchanged.
    pub fn new(position: V, color: V) -> (l: Light<V>)
        ensures
            l.position == position,
            l.color == color,
    {
        Light { position, color }
    }
}

} // verus!
