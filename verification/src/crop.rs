//! The square crop: the largest centred square of a raster.

use crate::config::ProcessingArguments;
use crate::error::BulkImageFormatError;
use crate::raster::Raster;
use crate::raster::RasterView;
use vstd::prelude::*;

verus! {

/// A rectangle of pixels: its top left corner and its size.
#[derive(Clone, Copy, Debug, PartialEq, Eq, Structural)]
pub struct CropWindow {
    pub x: u32,
    pub y: u32,
    pub width: u32,
    pub height: u32,
}

/// The largest square centred in a `width` by `height` raster. Its side is the
/// shorter of the two; along the longer one it starts at half the difference,
/// rounded down, so an odd difference leaves the extra pixel on the far side.
pub open spec fn square_window_spec(width: u32, height: u32) -> CropWindow {
    if width > height {
        CropWindow { x: ((width - height) / 2) as u32, y: 0, width: height, height: height }
    } else {
        CropWindow { x: 0, y: ((height - width) / 2) as u32, width: width, height: width }
    }
}

/// What the crop stage makes of a raster: the raster itself unless a square is
/// asked for and the raster is not one, else its centred square.
pub open spec fn cropped(raster: RasterView, square: bool) -> RasterView {
    if !square || raster.width == raster.height {
        raster
    } else {
        let w = square_window_spec(raster.width as u32, raster.height as u32);
        raster.window(w.x as nat, w.y as nat, w.width as nat, w.height as nat)
    }
}

/// The square window is as large as the raster allows and lies in its
/// middle: along each axis the margin after it is the margin before it, or one
/// pixel more.
pub proof fn lemma_square_window_is_centred(width: u32, height: u32)
    ensures
        ({
            let w = square_window_spec(width, height);
            &&& w.width == w.height
            &&& w.width == if width <= height { width } else { height }
            &&& 0 <= (width - w.x - w.width) - w.x <= 1
            &&& 0 <= (height - w.y - w.height) - w.y <= 1
        }),
{
}

/// The window that the square crop cuts out of a `width` by `height` raster.
/// It lies inside the raster.
pub fn square_window(width: u32, height: u32) -> (window: CropWindow)
    ensures
        window == square_window_spec(width, height),
        window.width == window.height,
        window.x + window.width <= width,
        window.y + window.height <= height,
{
    if width > height {
        CropWindow { x: (width - height) / 2, y: 0, width: height, height: height }
    } else {
        CropWindow { x: 0, y: (height - width) / 2, width: width, height: width }
    }
}

/// Crops `img` to its centred square where `arguments` ask for one. A raster
/// that is not cropped is handed back as it came.
pub fn crop_image(img: Raster, arguments: &ProcessingArguments) -> (res: Result<
    Raster,
    BulkImageFormatError,
>)
    ensures
        res is Ok,
        res->Ok_0@ == cropped(img@, arguments.square),
        !arguments.square || img@.width == img@.height ==> res->Ok_0 == img,
{
    let width: u32 = img.width();
    let height: u32 = img.height();
    if !arguments.square || width == height {
        return Ok(img);
    }
    let window = square_window(width, height);
    let out = Raster { image: img.image.crop_imm(window.x, window.y, window.width, window.height) };
    assert(out@.pixels =~= cropped(img@, arguments.square).pixels);
    Ok(out)
}

} // verus!
