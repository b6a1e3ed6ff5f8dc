//! One line from text to outcome: parse, decode, crop, resize, save.
//!
//! Decoding a file and writing one are the driver's work. The library says
//! after each stage what the driver has to do next, and takes back what came
//! of it.

use crate::config::ProcessingArguments;
use crate::crop::crop_image;
use crate::crop::cropped;
use crate::error::BulkImageFormatError;
use crate::error::OutcomeView;
use crate::error::ProcessingOutcome;
use crate::line::parsed_line;
use crate::line::turn_line_into_source_and_target;
use crate::line::BulkImageSourceTarget;
use crate::raster::Raster;
use crate::raster::RasterView;
use crate::resize::can_resize;
use crate::resize::resize_image;
use crate::resize::resize_in_reach;
use crate::target::final_path;
use crate::target::target_path;
use vstd::prelude::*;

verus! {

/// A raster that is ready to be written, the path to write it at, and the
/// target path as the line gave it.
#[derive(Debug, PartialEq)]
pub struct PendingSave {
    pub raster: Raster,
    pub path: String,
    pub target: String,
}

/// What the driver has to do next for a line.
#[derive(Debug, PartialEq)]
pub enum LineStep {
    /// Open and decode the source, then call [`process_source`].
    Read(BulkImageSourceTarget),
    /// Encode the raster and write it at the path, then call
    /// [`process_saved`].
    Save(PendingSave),
    /// Nothing: the line has its outcome.
    Done(ProcessingOutcome),
}

/// The failure of kind `kind` that concerns `context`.
pub open spec fn failure(kind: BulkImageFormatError, context: Seq<char>) -> OutcomeView {
    OutcomeView::Failure { kind, context }
}

/// Whether `out` is what cropping and resizing make of `img`: the cropped
/// raster where no side length is given, else a square of that side.
pub open spec fn is_transformed(
    out: RasterView,
    img: RasterView,
    arguments: ProcessingArguments,
) -> bool {
    match arguments.resize {
        Some(side) => out.width == side && out.height == side,
        None => out == cropped(img, arguments.square),
    }
}

/// Whether the raster that the crop stage makes of `img` can go through the
/// resize stage on this machine.
pub open spec fn transformable(img: RasterView, arguments: ProcessingArguments) -> bool {
    resize_in_reach(
        cropped(img, arguments.square).width,
        cropped(img, arguments.square).height,
        arguments.resize,
    )
}

/// Starts a line: parses it. A line that does not parse is done, with a
/// `LineError` that concerns the whole line.
pub fn process_line(line: String) -> (step: LineStep)
    ensures
        match parsed_line(line@) {
            Ok(pair) => step matches LineStep::Read(read) && read@ == pair,
            Err(_) => step matches LineStep::Done(outcome) && outcome@ == failure(
                BulkImageFormatError::LineError,
                line@,
            ),
        },
{
    match turn_line_into_source_and_target(line.as_str()) {
        Ok(pair) => LineStep::Read(pair),
        Err(_) => LineStep::Done(
            ProcessingOutcome::Failure { kind: BulkImageFormatError::LineError, context: line },
        ),
    }
}

/// The decode stage: a source that could not be opened or decoded is a
/// `ReadFailure`, whichever of the two it was.
pub fn format_from_source_to_target(decoded: Option<Raster>) -> (res: Result<
    Raster,
    BulkImageFormatError,
>)
    ensures
        res == match decoded {
            Some(img) => Ok::<Raster, BulkImageFormatError>(img),
            None => Err(BulkImageFormatError::ReadFailure),
        },
{
    match decoded {
        Some(img) => Ok(img),
        None => Err(BulkImageFormatError::ReadFailure),
    }
}

/// The crop stage, then the resize stage. A raster that this machine cannot
/// resize cannot be saved, and is refused with `SaveError`.
pub fn transform_image(img: Raster, arguments: &ProcessingArguments) -> (res: Result<
    Raster,
    BulkImageFormatError,
>)
    ensures
        match res {
            Ok(out) => {
                &&& transformable(img@, *arguments)
                &&& is_transformed(out@, img@, *arguments)
                &&& arguments.resize is None && (!arguments.square || img@.width == img@.height)
                    ==> out == img
            },
            Err(kind) => kind == BulkImageFormatError::SaveError && !transformable(
                img@,
                *arguments,
            ),
        },
{
    match crop_image(img, arguments) {
        Ok(square) => {
            if can_resize(&square, arguments) {
                resize_image(square, arguments)
            } else {
                Err(BulkImageFormatError::SaveError)
            }
        },
        Err(kind) => Err(kind),
    }
}

/// The save stage, up to the write: derives the path that `img` is to be
/// written at. A target without a file name cannot be written and is refused
/// with `SaveError`.
pub fn save_image_to_output(img: Raster, target: String, arguments: &ProcessingArguments) -> (res:
    Result<PendingSave, BulkImageFormatError>)
    ensures
        match final_path(target@, arguments.format.extension_spec()) {
            Some(path) => res matches Ok(pending) && pending.raster == img && pending.path@ == path
                && pending.target == target,
            None => res matches Err(kind) && kind == BulkImageFormatError::SaveError,
        },
{
    match target_path(target.as_str(), arguments.format) {
        Some(path) => Ok(PendingSave { raster: img, path, target }),
        None => Err(BulkImageFormatError::SaveError),
    }
}

/// Goes on with a line once the driver has tried to open and decode its
/// source: `decoded` is the raster, or `None` where there is none. The first
/// stage that fails ends the line: a missing raster with a `ReadFailure` that
/// concerns the source, a raster that cannot be transformed or has no path to
/// go to with a `SaveError` that concerns the target.
pub fn process_source(
    pair: BulkImageSourceTarget,
    decoded: Option<Raster>,
    arguments: &ProcessingArguments,
) -> (step: LineStep)
    ensures
        match decoded {
            None => step matches LineStep::Done(outcome) && outcome@ == failure(
                BulkImageFormatError::ReadFailure,
                pair.source@,
            ),
            Some(img) => match final_path(pair.target@, arguments.format.extension_spec()) {
                Some(path) if transformable(img@, *arguments) => {
                    &&& step matches LineStep::Save(pending)
                    &&& pending.path@ == path
                    &&& pending.target@ == pair.target@
                    &&& is_transformed(pending.raster@, img@, *arguments)
                    &&& arguments.resize is None && (!arguments.square || img@.width
                        == img@.height) ==> pending.raster == img
                },
                _ => step matches LineStep::Done(outcome) && outcome@ == failure(
                    BulkImageFormatError::SaveError,
                    pair.target@,
                ),
            },
        },
{
    let BulkImageSourceTarget { source, target } = pair;
    let img = match format_from_source_to_target(decoded) {
        Ok(img) => img,
        Err(kind) => {
            return LineStep::Done(ProcessingOutcome::Failure { kind, context: source });
        },
    };
    let out = match transform_image(img, arguments) {
        Ok(out) => out,
        Err(kind) => {
            return LineStep::Done(ProcessingOutcome::Failure { kind, context: target });
        },
    };
    let context = target.clone();
    match save_image_to_output(out, target, arguments) {
        Ok(pending) => LineStep::Save(pending),
        Err(kind) => LineStep::Done(ProcessingOutcome::Failure { kind, context }),
    }
}

/// Ends a line once the driver has tried to encode and write its raster: the
/// path that was written, or a `SaveError` that concerns the target as the
/// line gave it.
pub fn process_saved(pending: PendingSave, saved: bool) -> (outcome: ProcessingOutcome)
    ensures
        outcome@ == if saved {
            OutcomeView::Success { path: pending.path@ }
        } else {
            failure(BulkImageFormatError::SaveError, pending.target@)
        },
{
    if saved {
        ProcessingOutcome::Success { path: pending.path }
    } else {
        ProcessingOutcome::Failure {
            kind: BulkImageFormatError::SaveError,
            context: pending.target,
        }
    }
}

} // verus!
