//! The pixel buffer, and what is assumed of the `image` crate that holds it.

use vstd::prelude::*;
use image::{Rgb, RgbImage};
use crate::color::Color;

verus! {

/// A raster of RGB pixels, stored in an `image::RgbImage`.
///
/// The verifier cannot take the declaration of `image::ImageBuffer`, whose
/// pixel type is bound by a trait of that crate, so the buffer is hidden
/// from it here: all that is known of a canvas is what the methods below
/// assume of the `image` functions they call, stated over [`canvas_rows`].
#[verifier::external_body]
pub struct Canvas {
    img: RgbImage,
}

/// The pixels a canvas holds, row by row: `canvas_rows(c)[y][x]` is the
/// colour at column `x` of row `y`.
pub uninterp spec fn canvas_rows(canvas: Canvas) -> Seq<Seq<Color>>;

/// The number of pixels in each row of a canvas. A canvas without rows has
/// a width too, which its rows cannot tell.
pub uninterp spec fn canvas_width(canvas: Canvas) -> nat;

/// `rows` is a grid of `height` rows of `width` pixels each.
pub open spec fn is_grid(rows: Seq<Seq<Color>>, width: nat, height: nat) -> bool {
    &&& rows.len() == height
    &&& forall|y: int| 0 <= y < height ==> (#[trigger] rows[y]).len() == width
}

/// The grid of `height` rows of `width` pixels that are all `color`.
pub open spec fn uniform_grid(width: nat, height: nat, color: Color) -> Seq<Seq<Color>> {
    Seq::new(height, |y: int| Seq::new(width, |x: int| color))
}

/// `rows` with the pixel at column `x` of row `y` replaced by `color`.
pub open spec fn with_pixel(rows: Seq<Seq<Color>>, x: int, y: int, color: Color) -> Seq<
    Seq<Color>,
> {
    rows.update(y, rows[y].update(x, color))
}

/// A buffer of three bytes to the pixel can be allocated for `height` rows
/// of `width` pixels: three times the width fits a `usize`, and the bytes
/// of all rows together are no more than a `Vec` holds.
pub open spec fn can_allocate(width: nat, height: nat) -> bool {
    &&& 3 * width <= usize::MAX
    &&& 3 * width * height <= isize::MAX
}

/// The byte for channel `channel` (0 for red, 1 for green, 2 for blue) of
/// `color`.
pub open spec fn channel_of(color: Color, channel: int) -> u8 {
    if channel == 0 {
        color.r
    } else if channel == 1 {
        color.g
    } else {
        color.b
    }
}

/// `bytes` holds `rows`, each `width` pixels wide, from top to bottom, each
/// row from left to right, three bytes (red, green, blue) to the pixel.
pub open spec fn is_raw_image(bytes: Seq<u8>, rows: Seq<Seq<Color>>, width: nat) -> bool {
    &&& bytes.len() == 3 * width * rows.len()
    &&& forall|x: int, y: int, channel: int|
        #![trigger channel_of(rows[y][x], channel)]
        0 <= x < width && 0 <= y < rows.len() && 0 <= channel < 3 ==> bytes[(y * width + x) * 3
            + channel] == channel_of(rows[y][x], channel)
}

impl Canvas {
    /// Calls `image::ImageBuffer::from_fn` with a function that gives the
    /// same pixel everywhere. Assumed: the new image has the dimensions
    /// asked for and every pixel of it is `color`. The bounds on the size
    /// keep out the inputs on which the call panics: it multiplies three by
    /// the width and the product by the height, each within `usize`, and
    /// then asks a `Vec` for that many bytes. Where the machine has not the
    /// memory for a buffer within the bounds, the allocator ends the
    /// process: of that nothing is said here.
    #[verifier::external_body]
    pub(crate) fn filled(width: u32, height: u32, color: Color) -> (canvas: Canvas)
        requires
            3 * width <= usize::MAX,
            3 * width * height <= isize::MAX,
        ensures
            canvas_rows(canvas) == uniform_grid(width as nat, height as nat, color),
            canvas_width(canvas) == width,
    {
        let pixel = Rgb([color.r, color.g, color.b]);
        Canvas { img: RgbImage::from_fn(width, height, |_, _| pixel) }
    }

    /// Calls `image::ImageBuffer::put_pixel`. Assumed: the pixel at `(x, y)`
    /// becomes `color`, no other pixel changes, and the width stays. The
    /// call panics outside the image, so the coordinates must lie inside it.
    #[verifier::external_body]
    pub(crate) fn put_pixel(&mut self, x: u32, y: u32, color: Color)
        requires
            y < canvas_rows(*old(self)).len(),
            x < canvas_rows(*old(self))[y as int].len(),
        ensures
            canvas_rows(*final(self)) == with_pixel(
                canvas_rows(*old(self)),
                x as int,
                y as int,
                color,
            ),
            canvas_width(*final(self)) == canvas_width(*old(self)),
    {
        self.img.put_pixel(x, y, Rgb([color.r, color.g, color.b]))
    }

    /// Calls `image::ImageBuffer::get_pixel`. Assumed: the result is the
    /// pixel at `(x, y)`. The call panics outside the image, so the
    /// coordinates must lie inside it.
    #[verifier::external_body]
    pub(crate) fn get_pixel(&self, x: u32, y: u32) -> (color: Color)
        requires
            y < canvas_rows(*self).len(),
            x < canvas_rows(*self)[y as int].len(),
        ensures
            color == canvas_rows(*self)[y as int][x as int],
    {
        let pixel = self.img.get_pixel(x, y);
        Color { r: pixel.0[0], g: pixel.0[1], b: pixel.0[2] }
    }

    /// Calls `image::ImageBuffer::width`. Assumed: the result is the width
    /// of the image, and every row of the image has this many pixels.
    #[verifier::external_body]
    pub(crate) fn raw_width(&self) -> (width: u32)
        ensures
            width == canvas_width(*self),
            forall|y: int|
                0 <= y < canvas_rows(*self).len() ==> (#[trigger] canvas_rows(*self)[y]).len()
                    == width,
    {
        self.img.width()
    }

    /// Calls `image::ImageBuffer::height`. Assumed: the image has this many
    /// rows.
    #[verifier::external_body]
    pub(crate) fn raw_height(&self) -> (height: u32)
        ensures
            canvas_rows(*self).len() == height,
    {
        self.img.height()
    }

    /// Calls `image::ImageBuffer::into_raw`. Assumed: the buffer of an image
    /// that `from_fn` made has three bytes for each pixel and no more, and
    /// holds the pixel at `(x, y)` from index `(y * width + x) * 3` on, red
    /// first.
    #[verifier::external_body]
    pub(crate) fn raw_bytes(self) -> (bytes: Vec<u8>)
        ensures
            is_raw_image(bytes@, canvas_rows(self), canvas_width(self)),
    {
        self.img.into_raw()
    }

    /// A canvas of `height` rows of `width` pixels, all of them `color`;
    /// `None` where no buffer of three bytes to the pixel can be allocated
    /// for it.
    pub fn blank(width: u32, height: u32, color: Color) -> (canvas: Option<Canvas>)
        ensures
            match canvas {
                Some(canvas) => {
                    &&& can_allocate(width as nat, height as nat)
                    &&& canvas_rows(canvas) == uniform_grid(width as nat, height as nat, color)
                    &&& canvas_width(canvas) == width
                },
                None => !can_allocate(width as nat, height as nat),
            },
    {
        let wide = width as u128;
        let high = height as u128;
        assert(wide * high <= 0xffff_ffff * 0xffff_ffff) by (nonlinear_arith)
            requires
                wide <= 0xffff_ffff,
                high <= 0xffff_ffff,
        ;
        let bytes: u128 = 3 * (wide * high);
        assert(bytes == 3 * width * height) by (nonlinear_arith)
            requires
                bytes == 3 * (width * height),
        ;
        if 3 * wide <= usize::MAX as u128 && bytes <= isize::MAX as u128 {
            Some(Canvas::filled(width, height, color))
        } else {
            None
        }
    }

    /// The number of pixels in each row.
    pub fn width(&self) -> (width: u32)
        ensures
            width == canvas_width(*self),
            forall|y: int|
                0 <= y < canvas_rows(*self).len() ==> (#[trigger] canvas_rows(*self)[y]).len()
                    == width,
    {
        self.raw_width()
    }

    /// The number of rows.
    pub fn height(&self) -> (height: u32)
        ensures
            canvas_rows(*self).len() == height,
    {
        self.raw_height()
    }

    /// The bytes of the canvas: its rows from top to bottom, each from left
    /// to right, three bytes (red, green, blue) to the pixel.
    pub fn into_raw(self) -> (bytes: Vec<u8>)
        ensures
            is_raw_image(bytes@, canvas_rows(self), canvas_width(self)),
    {
        self.raw_bytes()
    }

    /// The colour at column `x` of row `y`, or `None` where the canvas has
    /// no such pixel.
    pub fn pixel(&self, x: u32, y: u32) -> (color: Option<Color>)
        ensures
            color == (if y < canvas_rows(*self).len() && x < canvas_rows(*self)[y as int].len() {
                Some(canvas_rows(*self)[y as int][x as int])
            } else {
                None
            }),
    {
        if y < self.raw_height() && x < self.raw_width() {
            Some(self.get_pixel(x, y))
        } else {
            None
        }
    }
}

} // verus!
