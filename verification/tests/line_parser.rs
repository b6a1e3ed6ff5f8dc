use bif::error::BulkImageFormatError;
use bif::error::ProcessingOutcome;
use bif::line::find_segment_end;
use bif::line::turn_line_into_source_and_target;
use bif::line::BulkImageSourceTarget;
use bif::pipeline::process_line;
use bif::pipeline::LineStep;
use bif::text::chars_of;
use bif::text::slice_of;

fn pair(source: &str, target: &str) -> BulkImageSourceTarget {
    BulkImageSourceTarget { source: source.to_string(), target: target.to_string() }
}

#[test]
fn parses_source_and_target() {
    assert_eq!(turn_line_into_source_and_target("a.jpg:b.png"), Ok(pair("a.jpg", "b.png")));
}

#[test]
fn line_without_delimiter_has_no_target() {
    assert_eq!(turn_line_into_source_and_target("a.jpg"), Err(BulkImageFormatError::TargetError));
}

#[test]
fn empty_line_has_no_source() {
    assert_eq!(turn_line_into_source_and_target(""), Err(BulkImageFormatError::SourceError));
}

#[test]
fn text_after_second_delimiter_is_ignored() {
    assert_eq!(turn_line_into_source_and_target("a:b:c"), Ok(pair("a", "b")));
    assert_eq!(turn_line_into_source_and_target("a:b:"), Ok(pair("a", "b")));
    assert_eq!(turn_line_into_source_and_target("a::c"), Ok(pair("a", "")));
}

#[test]
fn empty_segments_are_accepted() {
    assert_eq!(turn_line_into_source_and_target(":"), Ok(pair("", "")));
    assert_eq!(turn_line_into_source_and_target("a:"), Ok(pair("a", "")));
    assert_eq!(turn_line_into_source_and_target(":b"), Ok(pair("", "b")));
}

#[test]
fn whitespace_is_kept() {
    assert_eq!(turn_line_into_source_and_target(" a : b "), Ok(pair(" a ", " b ")));
}

#[test]
fn segments_are_cut_by_characters_not_bytes() {
    assert_eq!(
        turn_line_into_source_and_target("caf\u{e9}.jpg:\u{65e5}\u{672c}.png:x"),
        Ok(pair("caf\u{e9}.jpg", "\u{65e5}\u{672c}.png"))
    );
}

#[test]
fn segment_ends_at_delimiter_or_end() {
    let chars = chars_of("ab:cd");
    assert_eq!(find_segment_end(&chars, 0), 2);
    assert_eq!(find_segment_end(&chars, 2), 2);
    assert_eq!(find_segment_end(&chars, 3), 5);
    assert_eq!(find_segment_end(&chars, 5), 5);
}

#[test]
fn chars_and_slices_follow_the_text() {
    assert_eq!(chars_of("a\u{e9}:"), vec!['a', '\u{e9}', ':']);
    assert_eq!(chars_of(""), Vec::<char>::new());
    assert_eq!(slice_of("h\u{e9}llo", 1, 3), "\u{e9}l");
    assert_eq!(slice_of("hello", 2, 2), "");
    assert_eq!(slice_of("hello", 0, 5), "hello");
}

#[test]
fn well_formed_line_asks_for_its_source() {
    assert_eq!(process_line("src.jpg:dst".to_string()), LineStep::Read(pair("src.jpg", "dst")));
}

#[test]
fn malformed_line_is_a_line_error() {
    assert_eq!(
        process_line("src.jpg".to_string()),
        LineStep::Done(ProcessingOutcome::Failure {
            kind: BulkImageFormatError::LineError,
            context: "src.jpg".to_string(),
        })
    );
    assert_eq!(
        process_line(String::new()),
        LineStep::Done(ProcessingOutcome::Failure {
            kind: BulkImageFormatError::LineError,
            context: String::new(),
        })
    );
}
