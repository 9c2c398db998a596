use vstd::prelude::*;

use crate::color::Color;

verus! {

/// Whether two checker tile indices select the same of the two tile
/// colors: they do exactly when the indices have the same parity.
pub open spec fn same_parity(x: int, z: int) -> bool {
    x % 2 == z % 2
}

/// The checkered material's tile decision: a surface point whose world
/// x and z tile indices share a parity lies on a tile of the first
/// configured color, every other point on one of the second.
pub fn checker_tile_matches(x_tile: i32, z_tile: i32) -> (r: bool)
    ensures
        r == same_parity(x_tile as int, z_tile as int),
{
    proof {
        assert(((x_tile & 1) == (z_tile & 1)) == (x_tile % 2 == z_tile % 2)) by (bit_vector);
    }
    (x_tile & 1) == (z_tile & 1)
}

/// The base color the checkered material shades with at a surface point,
/// given the point's tile indices and the two configured tile colors.
pub fn checker_color(x_tile: i32, z_tile: i32, color0: Color, color1: Color) -> (c: Color)
    ensures
        c == (if same_parity(x_tile as int, z_tile as int) {
            color0
        } else {
            color1
        }),
{
    if checker_tile_matches(x_tile, z_tile) {
        color0
    } else {
        color1
    }
}

} // verus!
