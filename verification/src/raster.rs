//! The raster: an image buffer of the `image` crate, seen through its width,
//! its height and the colour of each pixel.
//!
//! The contracts that this file gives to functions of the `image` crate are
//! not proved: they state what that crate's code does, and the library is
//! verified against them.

use image::imageops::FilterType;
use image::DynamicImage;
use vstd::prelude::*;

verus! {

/// `image::DynamicImage`, a buffer of pixels whose inside Verus does not see.
#[verifier::external_type_specification]
#[verifier::external_body]
pub struct ExDynamicImage(DynamicImage);

/// `image::imageops::FilterType`, the resampling filters.
#[verifier::external_type_specification]
pub struct ExFilterType(FilterType);

/// Red, green, blue and alpha of one pixel.
pub type Pixel = (u8, u8, u8, u8);

/// What `DynamicImage::width` returns for `img`.
pub uninterp spec fn raster_width(img: DynamicImage) -> u32;

/// What `DynamicImage::height` returns for `img`.
pub uninterp spec fn raster_height(img: DynamicImage) -> u32;

/// The pixels that `img` holds: at `(x, y)`, for `x` below the width and `y`
/// below the height, the four channels that `GenericImageView::get_pixel`
/// returns for column `x` of row `y`.
pub uninterp spec fn raster_pixels(img: DynamicImage) -> Map<(int, int), Pixel>;

/// `DynamicImage::width` reads the width of the buffer.
pub assume_specification[ DynamicImage::width ](img: &DynamicImage) -> (width: u32)
    ensures
        width == raster_width(*img),
;

/// `DynamicImage::height` reads the height of the buffer.
pub assume_specification[ DynamicImage::height ](img: &DynamicImage) -> (height: u32)
    ensures
        height == raster_height(*img),
;

/// `DynamicImage::crop_imm` copies a rectangle out of the buffer. For a
/// rectangle that lies inside the image, the copy has the rectangle's size,
/// and its pixel at `(i, j)` is the image's pixel at `(x + i, y + j)`.
pub assume_specification[ DynamicImage::crop_imm ](
    img: &DynamicImage,
    x: u32,
    y: u32,
    width: u32,
    height: u32,
) -> (out: DynamicImage)
    requires
        x + width <= raster_width(*img),
        y + height <= raster_height(*img),
    ensures
        raster_width(out) == width,
        raster_height(out) == height,
        forall|i: int, j: int|
            0 <= i < width && 0 <= j < height ==> #[trigger] raster_pixels(out)[(i, j)]
                == raster_pixels(*img)[(x + i, y + j)],
;

/// `DynamicImage::resize_exact` resamples the buffer to `nwidth` by `nheight`
/// without regard to its aspect ratio. Only the size of the result is stated:
/// its pixels come from floating-point arithmetic. The call is admitted with
/// the Gaussian filter, for an image whose sides the filter's arithmetic
/// counts exactly, and where the two buffers it allocates, of sixteen bytes a
/// pixel at most, can be addressed.
pub assume_specification[ DynamicImage::resize_exact ](
    img: &DynamicImage,
    nwidth: u32,
    nheight: u32,
    filter: FilterType,
) -> (out: DynamicImage)
    requires
        filter == FilterType::Gaussian,
        raster_width(*img) <= 0x100_0000,
        raster_height(*img) <= 0x100_0000,
        16 * raster_width(*img) * nheight <= isize::MAX,
        16 * nwidth * nheight <= isize::MAX,
    ensures
        raster_width(out) == nwidth,
        raster_height(out) == nheight,
;

/// A decoded image.
#[derive(Debug, PartialEq)]
pub struct Raster {
    pub image: DynamicImage,
}

/// The mathematical value of a [`Raster`]: its size, and its pixels by column
/// and row.
pub struct RasterView {
    pub width: nat,
    pub height: nat,
    pub pixels: Map<(int, int), Pixel>,
}

impl RasterView {
    /// The `width` by `height` raster whose top left pixel is this raster's
    /// pixel at `(x, y)`.
    pub open spec fn window(self, x: nat, y: nat, width: nat, height: nat) -> RasterView {
        RasterView {
            width,
            height,
            pixels: Map::new(
                |p: (int, int)| 0 <= p.0 < width && 0 <= p.1 < height,
                |p: (int, int)| self.pixels[(x + p.0, y + p.1)],
            ),
        }
    }
}

impl View for Raster {
    type V = RasterView;

    open spec fn view(&self) -> RasterView {
        RasterView {
            width: raster_width(self.image) as nat,
            height: raster_height(self.image) as nat,
            pixels: Map::new(
                |p: (int, int)|
                    0 <= p.0 < raster_width(self.image) && 0 <= p.1 < raster_height(self.image),
                |p: (int, int)| raster_pixels(self.image)[p],
            ),
        }
    }
}

impl Raster {
    /// The number of columns.
    pub fn width(&self) -> (width: u32)
        ensures
            width == self@.width,
    {
        self.image.width()
    }

    /// The number of rows.
    pub fn height(&self) -> (height: u32)
        ensures
            height == self@.height,
    {
        self.image.height()
    }
}

} // verus!
