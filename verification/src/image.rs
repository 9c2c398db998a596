use vstd::prelude::*;

use crate::color::Color;

verus! {

/// The raster image: a row-major buffer of quantized pixels, written once
/// per pixel by the render loop and serialized to a binary PPM stream.
#[derive(Debug)]
pub struct Image {
    width: usize,
    height: usize,
    pixels: Vec<Color>,
}

/// The decimal digits of `n`, most significant first, as ASCII bytes.
pub open spec fn decimal_rep(n: nat) -> Seq<u8>
    decreases n,
{
    if n < 10 {
        seq![(48 + n) as u8]
    } else {
        decimal_rep(n / 10) + seq![(48 + n % 10) as u8]
    }
}

/// The three channel bytes of one pixel, in the order they are written.
pub open spec fn pixel_bytes(c: Color) -> Seq<u8> {
    seq![c.r, c.g, c.b]
}

/// The channel bytes of a whole pixel row sequence, pixel after pixel.
pub open spec fn bytes_of_pixels(s: Seq<Color>) -> Seq<u8>
    decreases s.len(),
{
    if s.len() == 0 {
        Seq::empty()
    } else {
        bytes_of_pixels(s.drop_last()) + pixel_bytes(s.last())
    }
}

/// The binary PPM header: magic number, dimensions, maximum channel value.
pub open spec fn ppm_header(width: nat, height: nat) -> Seq<u8> {
    seq![80u8, 54u8, 10u8] + decimal_rep(width) + seq![32u8] + decimal_rep(height)
        + seq![10u8, 50u8, 53u8, 53u8, 10u8]
}

/// The decimal digits of `n`, most significant first, as ASCII bytes.
pub fn decimal_bytes(n: usize) -> (r: Vec<u8>)
    ensures
        r@ == decimal_rep(n as nat),
    decreases n,
{
    if n < 10 {
        let mut v: Vec<u8> = Vec::new();
        v.push(48 + n as u8);
        v
    } else {
        let mut v = decimal_bytes(n / 10);
        v.push(48 + (n % 10) as u8);
        v
    }
}

proof fn lemma_bytes_of_pixels_step(s: Seq<Color>, i: int)
    requires
        0 <= i < s.len(),
    ensures
        bytes_of_pixels(s.subrange(0, i + 1)) == bytes_of_pixels(s.subrange(0, i)) + pixel_bytes(
            s[i],
        ),
{
    let t = s.subrange(0, i + 1);
    assert(t.drop_last() =~= s.subrange(0, i));
    assert(bytes_of_pixels(t) == bytes_of_pixels(t.drop_last()) + pixel_bytes(t.last()));
}

impl Image {
    /// The image width in pixels.
    pub closed spec fn spec_width(self) -> nat {
        self.width as nat
    }

    /// The image height in pixels.
    pub closed spec fn spec_height(self) -> nat {
        self.height as nat
    }

    /// The pixel buffer in row-major order: row `y` holds pixels
    /// `y * width` up to `(y + 1) * width`.
    pub closed spec fn pixel_seq(self) -> Seq<Color> {
        self.pixels@
    }

    /// A well-formed image holds exactly one pixel per raster position.
    pub open spec fn wf(self) -> bool {
        self.pixel_seq().len() == self.spec_width() * self.spec_height()
    }

    /// A fresh image of the given dimensions with every pixel black.
    pub fn new(width: usize, height: usize) -> (img: Image)
        requires
            width * height <= usize::MAX,
        ensures
            img.wf(),
            img.spec_width() == width,
            img.spec_height() == height,
            forall|k: int|
                0 <= k < img.pixel_seq().len() ==> img.pixel_seq()[k] == (Color {
                    r: 0,
                    g: 0,
                    b: 0,
                }),
    {
        let n: usize = width * height;
        let mut pixels: Vec<Color> = Vec::new();
        let mut i: usize = 0;
        while i < n
            invariant
                i <= n,
                pixels@.len() == i,
                forall|k: int| 0 <= k < i ==> pixels@[k] == (Color { r: 0, g: 0, b: 0 }),
            decreases n - i,
        {
            pixels.push(Color::black());
            i = i + 1;
        }
        Image { width, height, pixels }
    }

    /// The image width in pixels.
    pub fn width(&self) -> (r: usize)
        ensures
            r == self.spec_width(),
    {
        self.width
    }

    /// The image height in pixels.
    pub fn height(&self) -> (r: usize)
        ensures
            r == self.spec_height(),
    {
        self.height
    }

    /// Overwrite the pixel in column `x` of row `y`; every other pixel
    /// and the dimensions stay as they were.
    pub fn set_pixel(&mut self, x: usize, y: usize, pixel: Color)
        requires
            old(self).wf(),
            x < old(self).spec_width(),
            y < old(self).spec_height(),
        ensures
            final(self).wf(),
            final(self).spec_width() == old(self).spec_width(),
            final(self).spec_height() == old(self).spec_height(),
            final(self).pixel_seq() == old(self).pixel_seq().update(
                y * old(self).spec_width() + x,
                pixel,
            ),
    {
        let total: usize = self.pixels.len();
        proof {
            assert(y * self.spec_width() + x < self.spec_width() * self.spec_height())
                by (nonlinear_arith)
                requires
                    x < self.spec_width(),
                    y < self.spec_height(),
            ;
            assert(y * self.spec_width() + x < total);
        }
        let idx: usize = y * self.width + x;
        self.pixels.set(idx, pixel);
    }

    /// The pixel in column `x` of row `y`.
    pub fn get_pixel(&self, x: usize, y: usize) -> (r: Color)
        requires
            self.wf(),
            x < self.spec_width(),
            y < self.spec_height(),
        ensures
            r == self.pixel_seq()[y * self.spec_width() + x],
    {
        let total: usize = self.pixels.len();
        proof {
            assert(y * self.spec_width() + x < self.spec_width() * self.spec_height())
                by (nonlinear_arith)
                requires
                    x < self.spec_width(),
                    y < self.spec_height(),
            ;
            assert(y * self.spec_width() + x < total);
        }
        let idx: usize = y * self.width + x;
        self.pixels[idx]
    }

    /// Serialize the image as a binary PPM stream: the header, then the
    /// three channel bytes of every pixel in row-major order.
    pub fn ppm_bytes(&self) -> (r: Vec<u8>)
        requires
            self.wf(),
        ensures
            r@ == ppm_header(self.spec_width(), self.spec_height()) + bytes_of_pixels(
                self.pixel_seq(),
            ),
    {
        let mut out: Vec<u8> = Vec::new();
        out.push(80);
        out.push(54);
        out.push(10);
        let mut dw = decimal_bytes(self.width);
        out.append(&mut dw);
        out.push(32);
        let mut dh = decimal_bytes(self.height);
        out.append(&mut dh);
        out.push(10);
        out.push(50);
        out.push(53);
        out.push(53);
        out.push(10);
        proof {
            assert(out@ =~= ppm_header(self.spec_width(), self.spec_height()));
        }
        let ghost header = out@;
        let n: usize = self.pixels.len();
        let mut i: usize = 0;
        while i < n
            invariant
                i <= n,
                n == self.pixels@.len(),
                out@ == header + bytes_of_pixels(self.pixels@.subrange(0, i as int)),
            decreases n - i,
        {
            let c = self.pixels[i];
            out.push(c.r);
            out.push(c.g);
            out.push(c.b);
            proof {
                lemma_bytes_of_pixels_step(self.pixels@, i as int);
                assert(out@ =~= header + bytes_of_pixels(self.pixels@.subrange(0, i + 1)));
            }
            i = i + 1;
        }
        proof {
            assert(self.pixels@.subrange(0, n as int) =~= self.pixels@);
        }
        out
    }
}

} // verus!
