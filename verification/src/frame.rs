//! The framebuffer: a grid of colours, held in an `image::RgbImage`.

use crate::color::Color;
use vstd::prelude::*;

verus! {

/// An `image::RgbImage`, kept out of the verifier's sight: all that is known of
/// it is what the functions below say.
#[verifier::external_body]
pub struct Bitmap {
    image: image::RgbImage,
}

/// The pixels of a bitmap as red, green and blue channels, row by row from the
/// top, each row from the left.
pub uninterp spec fn bitmap_cells(bitmap: Bitmap) -> Seq<(u8, u8, u8)>;

/// The number of pixels in a row of a bitmap: what `ImageBuffer::width`
/// returns.
pub uninterp spec fn bitmap_width(bitmap: Bitmap) -> u32;

/// The number of rows of a bitmap: what `ImageBuffer::height` returns.
pub uninterp spec fn bitmap_height(bitmap: Bitmap) -> u32;

/// The image fits into a vector of bytes: three bytes per pixel, and no more
/// than `isize::MAX` bytes in all.
pub open spec fn fits_spec(width: u32, height: u32) -> bool {
    3 * width * height <= isize::MAX
}

/// Calls `ImageBuffer::new`. That function allocates three zeroed bytes per
/// pixel and records the two dimensions; it panics where the byte count does
/// not fit a vector, which the precondition leaves out. The contract claims
/// that the new image has the dimensions asked for and that each of its
/// `width * height` pixels is black.
#[verifier::external_body]
fn bitmap_new(width: u32, height: u32) -> (bitmap: Bitmap)
    requires
        fits_spec(width, height),
    ensures
        bitmap_width(bitmap) == width,
        bitmap_height(bitmap) == height,
        bitmap_cells(bitmap) == Seq::new((width * height) as nat, |i: int| (0u8, 0u8, 0u8)),
{
    Bitmap { image: image::RgbImage::new(width, height) }
}

/// Calls `ImageBuffer::width`, which returns the recorded width.
#[verifier::external_body]
fn bitmap_columns(bitmap: &Bitmap) -> (width: u32)
    ensures
        width == bitmap_width(*bitmap),
{
    bitmap.image.width()
}

/// Calls `ImageBuffer::height`, which returns the recorded height.
#[verifier::external_body]
fn bitmap_rows(bitmap: &Bitmap) -> (height: u32)
    ensures
        height == bitmap_height(*bitmap),
{
    bitmap.image.height()
}

/// Calls `ImageBuffer::put_pixel`. That function panics where `(x, y)` lies
/// outside the image, which the precondition leaves out; otherwise it
/// overwrites the three bytes at index `(y * width + x) * 3`. The contract
/// claims that the dimensions stay and that the one pixel at row `y`, column
/// `x` becomes the given colour while every other pixel stays.
#[verifier::external_body]
fn bitmap_put(bitmap: &mut Bitmap, x: u32, y: u32, r: u8, g: u8, b: u8)
    requires
        x < bitmap_width(*old(bitmap)),
        y < bitmap_height(*old(bitmap)),
    ensures
        bitmap_width(*final(bitmap)) == bitmap_width(*old(bitmap)),
        bitmap_height(*final(bitmap)) == bitmap_height(*old(bitmap)),
        bitmap_cells(*final(bitmap)) == bitmap_cells(*old(bitmap)).update(
            y * bitmap_width(*old(bitmap)) + x,
            (r, g, b),
        ),
    no_unwind
{
    bitmap.image.put_pixel(x, y, image::Rgb([r, g, b]))
}

/// Calls `ImageBuffer::get_pixel`. That function panics where `(x, y)` lies
/// outside the image, which the precondition leaves out; otherwise it reads
/// the three bytes at index `(y * width + x) * 3`. The contract claims that
/// the result is the pixel at row `y`, column `x`.
#[verifier::external_body]
fn bitmap_get(bitmap: &Bitmap, x: u32, y: u32) -> (c: (u8, u8, u8))
    requires
        x < bitmap_width(*bitmap),
        y < bitmap_height(*bitmap),
    ensures
        c == bitmap_cells(*bitmap)[y * bitmap_width(*bitmap) + x],
{
    let p = bitmap.image.get_pixel(x, y);
    (p.0[0], p.0[1], p.0[2])
}

/// Calls `ImageBuffer::into_raw`, which gives up the byte vector behind the
/// image. An image made by `ImageBuffer::new` holds exactly three bytes per
/// pixel, in the order of the pixels: red, green, blue. The contract claims
/// that length and that layout.
#[verifier::external_body]
fn bitmap_into_raw(bitmap: Bitmap) -> (bytes: Vec<u8>)
    ensures
        bytes@.len() == 3 * bitmap_cells(bitmap).len(),
        forall|i: int|
            0 <= i < bitmap_cells(bitmap).len() ==> (#[trigger] bitmap_cells(bitmap)[i]) == (
                bytes@[3 * i],
                bytes@[3 * i + 1],
                bytes@[3 * i + 2],
            ),
{
    bitmap.image.into_raw()
}

/// A grid of colours as plain data: `cells` holds the rows one after another
/// from the top, each row from the left.
pub struct Raster {
    pub width: nat,
    pub height: nat,
    pub cells: Seq<Color>,
}

impl Raster {
    /// The grid holds one cell for each pixel.
    pub open spec fn wf(self) -> bool {
        self.cells.len() == self.width * self.height
    }

    /// The place of the pixel in column `x` of row `y` within `cells`.
    pub open spec fn index(self, x: nat, y: nat) -> int {
        (y * self.width + x) as int
    }

    /// The colour of the pixel in column `x` of row `y`.
    pub open spec fn pixel(self, x: nat, y: nat) -> Color {
        self.cells[self.index(x, y)]
    }

    /// A grid of the given size in which every pixel is black.
    pub open spec fn blank(width: nat, height: nat) -> Raster {
        Raster { width, height, cells: Seq::new(width * height, |i: int| Color { r: 0, g: 0, b: 0 }) }
    }

    /// This grid with the pixel in column `x` of row `y` replaced by `color`.
    pub open spec fn with_pixel(self, x: nat, y: nat, color: Color) -> Raster {
        Raster { cells: self.cells.update(self.index(x, y), color), ..self }
    }
}

/// The channels of a pixel as a colour.
pub open spec fn rgb_of(c: (u8, u8, u8)) -> Color {
    Color { r: c.0, g: c.1, b: c.2 }
}

/// Within a grid of `width` columns and `height` rows, the pixel in column
/// `x` of row `y` has a place of its own among the `width * height` cells.
pub proof fn lemma_index_in_bounds(width: nat, height: nat, x: nat, y: nat)
    requires
        x < width,
        y < height,
    ensures
        0 <= y * width + x < width * height,
{
    assert(y * width + x < width * height) by (nonlinear_arith)
        requires
            x < width,
            y < height,
    ;
}

/// Within a grid of `width` columns, two pixels that share a place among the
/// cells are the same pixel.
pub proof fn lemma_index_injective(width: nat, x1: nat, y1: nat, x2: nat, y2: nat)
    requires
        x1 < width,
        x2 < width,
        y1 * width + x1 == y2 * width + x2,
    ensures
        x1 == x2,
        y1 == y2,
{
    if y1 < y2 {
        assert(y2 * width >= (y1 + 1) * width) by (nonlinear_arith)
            requires
                y1 < y2,
        ;
        assert((y1 + 1) * width == y1 * width + width) by (nonlinear_arith);
    } else if y2 < y1 {
        assert(y1 * width >= (y2 + 1) * width) by (nonlinear_arith)
            requires
                y2 < y1,
        ;
        assert((y2 + 1) * width == y2 * width + width) by (nonlinear_arith);
    }
}

/// A `width` by `height` grid of colours, fully populated at all times.
pub struct Framebuffer {
    bitmap: Bitmap,
}

impl View for Framebuffer {
    type V = Raster;

    closed spec fn view(&self) -> Raster {
        Raster {
            width: bitmap_width(self.bitmap) as nat,
            height: bitmap_height(self.bitmap) as nat,
            cells: bitmap_cells(self.bitmap).map_values(|c: (u8, u8, u8)| rgb_of(c)),
        }
    }
}

impl Framebuffer {
    #[verifier::type_invariant]
    spec fn populated(self) -> bool {
        bitmap_cells(self.bitmap).len() == bitmap_width(self.bitmap) * bitmap_height(self.bitmap)
    }

    /// Whether a grid of this size can be held in memory at all.
    pub fn fits(width: u32, height: u32) -> (out: bool)
        ensures
            out == fits_spec(width, height),
    {
        assert(width * height <= 0xffff_ffff * 0xffff_ffff) by (nonlinear_arith)
            requires
                width <= 0xffff_ffff,
                height <= 0xffff_ffff,
        ;
        let cells: u64 = (width as u64) * (height as u64);
        let limit: u64 = (isize::MAX as u64) / 3;
        assert(cells <= limit <==> 3 * cells <= isize::MAX) by (nonlinear_arith)
            requires
                limit == (isize::MAX as int) / 3,
        ;
        assert(3 * width * height == 3 * (width * height)) by (nonlinear_arith);
        cells <= limit
    }

    /// A grid of the given size in which every pixel is black.
    pub fn new(width: u32, height: u32) -> (out: Framebuffer)
        requires
            fits_spec(width, height),
        ensures
            out@ == Raster::blank(width as nat, height as nat),
            out@.wf(),
    {
        let bitmap = bitmap_new(width, height);
        let out = Framebuffer { bitmap };
        assert(out@.cells =~= Raster::blank(width as nat, height as nat).cells);
        out
    }

    /// The number of pixels in a row.
    pub fn width(&self) -> (out: u32)
        ensures
            out == self@.width,
            self@.wf(),
    {
        proof {
            use_type_invariant(self);
        }
        bitmap_columns(&self.bitmap)
    }

    /// The number of rows.
    pub fn height(&self) -> (out: u32)
        ensures
            out == self@.height,
            self@.wf(),
    {
        proof {
            use_type_invariant(self);
        }
        bitmap_rows(&self.bitmap)
    }

    /// Stores `color` at the pixel in column `x` of row `y`; every other pixel
    /// stays as it was.
    pub fn put_pixel(&mut self, x: u32, y: u32, color: Color)
        requires
            x < old(self)@.width,
            y < old(self)@.height,
        ensures
            final(self)@ == old(self)@.with_pixel(x as nat, y as nat, color),
            final(self)@.wf(),
            final(self)@.pixel(x as nat, y as nat) == color,
            forall|px: nat, py: nat|
                px < old(self)@.width && py < old(self)@.height && (px != x || py != y)
                    ==> final(self)@.pixel(px, py) == old(self)@.pixel(px, py),
    {
        proof {
            use_type_invariant(&*self);
            lemma_index_in_bounds(self@.width, self@.height, x as nat, y as nat);
        }
        bitmap_put(&mut self.bitmap, x, y, color.r, color.g, color.b);
        proof {
            assert(self@.cells =~= old(self)@.with_pixel(x as nat, y as nat, color).cells);
            assert forall|px: nat, py: nat|
                px < old(self)@.width && py < old(self)@.height && (px != x || py != y) implies self@.pixel(
                px,
                py,
            ) == old(self)@.pixel(px, py) by {
                lemma_index_in_bounds(self@.width, self@.height, px, py);
                if py * self@.width + px == y * self@.width + x {
                    lemma_index_injective(self@.width, px, py, x as nat, y as nat);
                }
            }
        }
    }

    /// The colour of the pixel in column `x` of row `y`.
    pub fn get_pixel(&self, x: u32, y: u32) -> (out: Color)
        requires
            x < self@.width,
            y < self@.height,
        ensures
            out == self@.pixel(x as nat, y as nat),
            self@.wf(),
    {
        proof {
            use_type_invariant(self);
            lemma_index_in_bounds(self@.width, self@.height, x as nat, y as nat);
        }
        let c = bitmap_get(&self.bitmap, x, y);
        Color { r: c.0, g: c.1, b: c.2 }
    }

    /// Gives up the grid as bytes for an encoder to take: three bytes per
    /// pixel, red, green and blue, in the order of the cells.
    pub fn into_raw(self) -> (out: Vec<u8>)
        ensures
            self@.wf(),
            out@.len() == 3 * self@.cells.len(),
            forall|i: int|
                0 <= i < self@.cells.len() ==> (#[trigger] self@.cells[i]) == (Color {
                    r: out@[3 * i],
                    g: out@[3 * i + 1],
                    b: out@[3 * i + 2],
                }),
    {
        proof {
            use_type_invariant(&self);
        }
        bitmap_into_raw(self.bitmap)
    }
}

} // verus!
