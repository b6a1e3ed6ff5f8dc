//! The resize: both sides of a raster forced to one length.

use crate::config::ProcessingArguments;
use crate::error::BulkImageFormatError;
use crate::raster::Raster;
use image::imageops::FilterType;
use vstd::prelude::*;

verus! {

/// The longest side of a raster that can be resampled: up to here the
/// resampling filter counts columns and rows exactly.
pub const MAX_SIDE: u32 = 0x100_0000;

/// Whether a `width` by `height` raster can be resampled to a square of side
/// `side` on this machine: its sides are within [`MAX_SIDE`], and the
/// buffers of the resampling, of sixteen bytes a pixel at most, can be
/// addressed.
pub open spec fn resizable(width: nat, height: nat, side: nat) -> bool {
    &&& width <= MAX_SIDE
    &&& height <= MAX_SIDE
    &&& 16 * width * side <= isize::MAX
    &&& 16 * side * side <= isize::MAX
}

/// Whether the resize asked of a `width` by `height` raster is one that this
/// machine can do, or none at all.
pub open spec fn resize_in_reach(width: nat, height: nat, resize: Option<u32>) -> bool {
    match resize {
        Some(side) => resizable(width, height, side as nat),
        None => true,
    }
}

/// Tests whether `img` can go through the resize that `arguments` ask for.
pub fn can_resize(img: &Raster, arguments: &ProcessingArguments) -> (ok: bool)
    ensures
        ok == resize_in_reach(img@.width, img@.height, arguments.resize),
{
    match arguments.resize {
        None => true,
        Some(side) => {
            let width: u32 = img.width();
            let height: u32 = img.height();
            if width > MAX_SIDE || height > MAX_SIDE {
                return false;
            }
            let limit: u128 = isize::MAX as u128;
            let side: u128 = side as u128;
            let width: u128 = width as u128;
            assert(16 * width * side <= 16 * 0x100_0000 * 0x1_0000_0000) by (nonlinear_arith)
                requires
                    width <= 0x100_0000,
                    side < 0x1_0000_0000,
            ;
            assert(16 * side * side <= 16 * 0x1_0000_0000 * 0x1_0000_0000) by (nonlinear_arith)
                requires
                    side < 0x1_0000_0000,
            ;
            16 * width * side <= limit && 16 * side * side <= limit
        },
    }
}

/// Resizes `img` to the square that `arguments` name, whatever its aspect
/// ratio was. Without a side length the raster is handed back as it came.
pub fn resize_image(img: Raster, arguments: &ProcessingArguments) -> (res: Result<
    Raster,
    BulkImageFormatError,
>)
    requires
        resize_in_reach(img@.width, img@.height, arguments.resize),
    ensures
        res is Ok,
        match arguments.resize {
            Some(side) => res->Ok_0@.width == side && res->Ok_0@.height == side,
            None => res->Ok_0 == img,
        },
{
    match arguments.resize {
        None => Ok(img),
        Some(side) => Ok(Raster { image: img.image.resize_exact(side, side, FilterType::Gaussian) }),
    }
}

} // verus!
