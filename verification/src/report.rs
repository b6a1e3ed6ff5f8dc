//! What the driver writes for an outcome, and on which stream.

use crate::error::OutcomeView;
use crate::error::ProcessingOutcome;
use vstd::prelude::*;
use vstd::string::StringExecFns;

verus! {

/// The two streams of a batch.
#[derive(Clone, Copy, Debug, PartialEq, Eq, Structural)]
pub enum Stream {
    /// Where the paths of the rasters that were written go.
    Output,
    /// Where failures are told.
    Diagnostic,
}

/// A text and the stream to write it on.
#[derive(Debug, PartialEq, Eq)]
pub struct Report {
    pub stream: Stream,
    pub text: String,
}

impl View for Report {
    type V = (Stream, Seq<char>);

    open spec fn view(&self) -> (Stream, Seq<char>) {
        (self.stream, self.text@)
    }
}

/// The line that tells of a raster written at `path`.
pub open spec fn output_line(path: Seq<char>) -> Seq<char> {
    path.push('\n')
}

/// The line that tells of a failure that concerns `context`.
pub open spec fn diagnostic_line(context: Seq<char>) -> Seq<char> {
    (seq!['E', 'r', 'r', 'o', 'r', ':', ' '] + context).push('\n')
}

/// The report of an outcome: a success goes to the output stream, a failure
/// to the diagnostic stream and nowhere else.
pub open spec fn report_of(outcome: OutcomeView) -> (Stream, Seq<char>) {
    match outcome {
        OutcomeView::Success { path } => (Stream::Output, output_line(path)),
        OutcomeView::Failure { kind, context } => (Stream::Diagnostic, diagnostic_line(context)),
    }
}

/// What a driver that reports `outcomes` one after the other has written on
/// the output stream, line by line.
pub open spec fn output_stream(outcomes: Seq<OutcomeView>) -> Seq<Seq<char>>
    decreases outcomes.len(),
{
    if outcomes.len() == 0 {
        Seq::empty()
    } else {
        let before = output_stream(outcomes.drop_last());
        match report_of(outcomes.last()).0 {
            Stream::Output => before.push(report_of(outcomes.last()).1),
            Stream::Diagnostic => before,
        }
    }
}

/// The text to write for `outcome`, and the stream to write it on.
pub fn report(outcome: &ProcessingOutcome) -> (report: Report)
    ensures
        report@ == report_of(outcome@),
{
    proof {
        reveal_strlit("Error: ");
        reveal_strlit("\n");
    }
    match outcome {
        ProcessingOutcome::Success { path } => {
            let mut text = path.clone();
            text.append("\n");
            assert(text@ =~= output_line(path@));
            Report { stream: Stream::Output, text }
        },
        ProcessingOutcome::Failure { kind: _, context } => {
            let mut text = String::from_str("Error: ");
            text.append(context.as_str());
            text.append("\n");
            assert(text@ =~= diagnostic_line(context@));
            Report { stream: Stream::Diagnostic, text }
        },
    }
}

/// The output of two runs of outcomes, one after the other, is the output of
/// the first followed by the output of the second.
pub proof fn lemma_output_stream_concat(first: Seq<OutcomeView>, second: Seq<OutcomeView>)
    ensures
        output_stream(first + second) == output_stream(first) + output_stream(second),
    decreases second.len(),
{
    if second.len() == 0 {
        assert(first + second =~= first);
        assert(output_stream(first) + output_stream(second) =~= output_stream(first));
    } else {
        lemma_output_stream_concat(first, second.drop_last());
        assert((first + second).drop_last() =~= first + second.drop_last());
        assert((first + second).last() == second.last());
        match report_of(second.last()).0 {
            Stream::Output => {
                assert(output_stream(first + second) =~= output_stream(first) + output_stream(
                    second,
                ));
            },
            Stream::Diagnostic => {},
        }
    }
}

/// A failed line leaves the output stream as if the line had not been there:
/// what was written for the lines before it and after it is the same, in the
/// same order.
pub proof fn lemma_failure_is_isolated(
    before: Seq<OutcomeView>,
    failed: OutcomeView,
    after: Seq<OutcomeView>,
)
    requires
        failed is Failure,
    ensures
        output_stream(before.push(failed) + after) == output_stream(before + after),
{
    lemma_output_stream_concat(before.push(failed), after);
    lemma_output_stream_concat(before, after);
    assert(before.push(failed).drop_last() =~= before);
}

/// Where every line of a batch succeeds, the output stream holds one line for
/// each, in the order of the lines: the `i`-th is the path of the `i`-th.
pub proof fn lemma_output_keeps_order(outcomes: Seq<OutcomeView>)
    requires
        forall|i: int| 0 <= i < outcomes.len() ==> #[trigger] outcomes[i] is Success,
    ensures
        output_stream(outcomes).len() == outcomes.len(),
        forall|i: int|
            0 <= i < outcomes.len() ==> #[trigger] output_stream(outcomes)[i] == output_line(
                outcomes[i]->path,
            ),
    decreases outcomes.len(),
{
    if outcomes.len() > 0 {
        lemma_output_keeps_order(outcomes.drop_last());
        assert(outcomes.last() is Success);
    }
}

} // verus!
