use vstd::prelude::*;

verus! {

/// A color quantized to one byte per channel: the form a finished pixel
/// takes in the image buffer and in the serialized image. The renderer
/// accumulates light in linear floating-point color outside this library
/// and quantizes each channel before a pixel is stored.
#[derive(Clone, Copy, PartialEq, Eq, Structural, Debug)]
pub struct Color {
    pub r: u8,
    pub g: u8,
    pub b: u8,
}

impl Color {
    /// Black: every channel zero.
    pub fn black() -> (c: Color)
        ensures
            c == (Color { r: 0, g: 0, b: 0 }),
    {
        Color { r: 0, g: 0, b: 0 }
    }

    /// Split a packed `0xRRGGBB` value into its three channel bytes.
    pub fn from_hex(hex: u32) -> (c: Color)
        ensures
            c.r == (hex >> 16) & 0xFF,
            c.g == (hex >> 8) & 0xFF,
            c.b == hex & 0xFF,
    {
        proof {
            assert((hex >> 16) & 0xFF < 256 && (hex >> 8) & 0xFF < 256 && hex & 0xFF < 256)
                by (bit_vector);
        }
        Color {
            r: ((hex >> 16) & 0xFF) as u8,
            g: ((hex >> 8) & 0xFF) as u8,
            b: (hex & 0xFF) as u8,
        }
    }
}

} // verus!
