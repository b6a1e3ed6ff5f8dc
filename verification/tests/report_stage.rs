use bif::error::BulkImageFormatError;
use bif::error::ProcessingOutcome;
use bif::report::report;
use bif::report::Report;
use bif::report::Stream;

fn success(path: &str) -> ProcessingOutcome {
    ProcessingOutcome::Success { path: path.to_string() }
}

fn failure(kind: BulkImageFormatError, context: &str) -> ProcessingOutcome {
    ProcessingOutcome::Failure { kind, context: context.to_string() }
}

#[test]
fn success_goes_to_the_output_stream() {
    assert_eq!(
        report(&success("dst.png")),
        Report { stream: Stream::Output, text: "dst.png\n".to_string() }
    );
}

#[test]
fn failure_goes_to_the_diagnostic_stream() {
    assert_eq!(
        report(&failure(BulkImageFormatError::ReadFailure, "missing.jpg")),
        Report { stream: Stream::Diagnostic, text: "Error: missing.jpg\n".to_string() }
    );
    assert_eq!(
        report(&failure(BulkImageFormatError::SaveError, "")),
        Report { stream: Stream::Diagnostic, text: "Error: \n".to_string() }
    );
}

#[test]
fn every_kind_of_failure_is_a_diagnostic() {
    for kind in [
        BulkImageFormatError::SaveError,
        BulkImageFormatError::ReadFailure,
        BulkImageFormatError::SourceError,
        BulkImageFormatError::TargetError,
        BulkImageFormatError::LineError,
    ] {
        assert_eq!(report(&failure(kind, "x")).stream, Stream::Diagnostic);
    }
}

#[test]
fn successes_are_reported_in_their_order() {
    let outcomes = [success("a.png"), success("b.png"), success("c.png"), success("a.png")];
    let output: Vec<String> = outcomes
        .iter()
        .map(report)
        .filter(|r| r.stream == Stream::Output)
        .map(|r| r.text)
        .collect();
    assert_eq!(output, vec!["a.png\n", "b.png\n", "c.png\n", "a.png\n"]);
}

#[test]
fn failure_between_successes_leaves_the_output_alone() {
    let outcomes = [
        success("a.png"),
        failure(BulkImageFormatError::ReadFailure, "gone.jpg"),
        success("c.png"),
    ];
    let reports: Vec<Report> = outcomes.iter().map(report).collect();
    let output: Vec<&str> =
        reports.iter().filter(|r| r.stream == Stream::Output).map(|r| r.text.as_str()).collect();
    let diagnostics: Vec<&str> = reports
        .iter()
        .filter(|r| r.stream == Stream::Diagnostic)
        .map(|r| r.text.as_str())
        .collect();
    assert_eq!(output, vec!["a.png\n", "c.png\n"]);
    assert_eq!(diagnostics, vec!["Error: gone.jpg\n"]);
}
