//! Error kinds and the outcome of processing one line.

use vstd::prelude::*;

verus! {

/// The ways in which a line can fail.
#[derive(Clone, Copy, Debug, PartialEq, Eq, Structural)]
pub enum BulkImageFormatError {
    /// The raster could not be encoded or written at the target path.
    SaveError,
    /// The source path could not be opened or decoded.
    ReadFailure,
    /// The line holds no source segment.
    SourceError,
    /// The line holds a source but no target segment.
    TargetError,
    /// The line as a whole is not a `source:target` record.
    LineError,
}

/// What became of one line: the path that was written, or a classified failure
/// with the text it concerns (the line, the source path or the target path).
#[derive(Debug, PartialEq, Eq)]
pub enum ProcessingOutcome {
    Success { path: String },
    Failure { kind: BulkImageFormatError, context: String },
}

/// The mathematical value of a [`ProcessingOutcome`].
pub enum OutcomeView {
    Success { path: Seq<char> },
    Failure { kind: BulkImageFormatError, context: Seq<char> },
}

impl View for ProcessingOutcome {
    type V = OutcomeView;

    open spec fn view(&self) -> OutcomeView {
        match *self {
            ProcessingOutcome::Success { path } => OutcomeView::Success { path: path@ },
            ProcessingOutcome::Failure { kind, context } => OutcomeView::Failure {
                kind,
                context: context@,
            },
        }
    }
}

} // verus!
