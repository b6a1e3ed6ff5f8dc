//! The line parser: one `source:target` record.

use crate::error::BulkImageFormatError;
use crate::text::chars_of;
use crate::text::slice_of;
use vstd::prelude::*;

verus! {

/// The character that parts the segments of a line.
pub const DELIMITER: char = ':';

/// A source path and the target path that its raster is written to.
#[derive(Debug, PartialEq, Eq)]
pub struct BulkImageSourceTarget {
    pub source: String,
    pub target: String,
}

impl View for BulkImageSourceTarget {
    type V = (Seq<char>, Seq<char>);

    open spec fn view(&self) -> (Seq<char>, Seq<char>) {
        (self.source@, self.target@)
    }
}

/// Where the segment that starts at `from` ends: at the first delimiter at or
/// after `from`, or at the end of the line where there is none.
pub open spec fn segment_end(line: Seq<char>, from: int) -> int
    decreases line.len() - from,
{
    if from < 0 || from >= line.len() {
        line.len() as int
    } else if line[from] == DELIMITER {
        from
    } else {
        segment_end(line, from + 1)
    }
}

/// What a line parses to. An empty line has no source. A line without a
/// delimiter has no target. Otherwise the source is the first segment and the
/// target the second; what follows a second delimiter is ignored.
pub open spec fn parsed_line(line: Seq<char>) -> Result<
    (Seq<char>, Seq<char>),
    BulkImageFormatError,
> {
    let first: int = segment_end(line, 0);
    if line.len() == 0 {
        Err(BulkImageFormatError::SourceError)
    } else if first == line.len() {
        Err(BulkImageFormatError::TargetError)
    } else {
        Ok((line.subrange(0, first), line.subrange(first + 1, segment_end(line, first + 1))))
    }
}

/// A segment holds no delimiter, and ends at a delimiter or at the end of the
/// line.
pub proof fn lemma_segment_end(line: Seq<char>, from: int)
    requires
        0 <= from <= line.len(),
    ensures
        from <= segment_end(line, from) <= line.len(),
        forall|k: int| from <= k < segment_end(line, from) ==> #[trigger] line[k] != DELIMITER,
        segment_end(line, from) < line.len() ==> line[segment_end(line, from)] == DELIMITER,
    decreases line.len() - from,
{
    if from < line.len() && line[from] != DELIMITER {
        lemma_segment_end(line, from + 1);
    }
}

/// What the parser makes of a line, said without a search. An empty line is
/// refused for want of a source, a line without a delimiter for want of a
/// target. Of any other line the source and the target hold no delimiter, the
/// line starts with the source, a delimiter and the target, and what follows,
/// if anything, starts with a delimiter.
pub proof fn lemma_parsed_line(line: Seq<char>)
    ensures
        match parsed_line(line) {
            Ok((source, target)) => {
                let used: nat = source.len() + 1 + target.len();
                &&& !source.contains(DELIMITER)
                &&& !target.contains(DELIMITER)
                &&& used <= line.len()
                &&& line.subrange(0, used as int) == source.push(DELIMITER) + target
                &&& used < line.len() ==> line[used as int] == DELIMITER
            },
            Err(BulkImageFormatError::SourceError) => line.len() == 0,
            Err(BulkImageFormatError::TargetError) => line.len() > 0 && !line.contains(DELIMITER),
            Err(_) => false,
        },
{
    lemma_segment_end(line, 0);
    let first: int = segment_end(line, 0);
    if first < line.len() {
        lemma_segment_end(line, first + 1);
        let second: int = segment_end(line, first + 1);
        let source = line.subrange(0, first);
        let target = line.subrange(first + 1, second);
        assert(line.subrange(0, second) =~= source.push(DELIMITER) + target);
    }
}

/// The end of the segment of `chars` that starts at `from`.
pub fn find_segment_end(chars: &Vec<char>, from: usize) -> (end: usize)
    requires
        from <= chars@.len(),
    ensures
        end == segment_end(chars@, from as int),
        from <= end <= chars@.len(),
{
    let mut end: usize = from;
    while end < chars.len() && chars[end] != DELIMITER
        invariant
            from <= end <= chars@.len(),
            segment_end(chars@, from as int) == segment_end(chars@, end as int),
        decreases chars@.len() - end,
    {
        end = end + 1;
    }
    end
}

/// Parses one line into its source and target.
pub fn turn_line_into_source_and_target(line: &str) -> (res: Result<
    BulkImageSourceTarget,
    BulkImageFormatError,
>)
    ensures
        match res {
            Ok(pair) => parsed_line(line@) == Ok::<_, BulkImageFormatError>(pair@),
            Err(kind) => parsed_line(line@) == Err::<(Seq<char>, Seq<char>), _>(kind),
        },
{
    let chars = chars_of(line);
    if chars.len() == 0 {
        return Err(BulkImageFormatError::SourceError);
    }
    let first: usize = find_segment_end(&chars, 0);
    if first == chars.len() {
        return Err(BulkImageFormatError::TargetError);
    }
    let second: usize = find_segment_end(&chars, first + 1);
    Ok(
        BulkImageSourceTarget {
            source: slice_of(line, 0, first),
            target: slice_of(line, first + 1, second),
        },
    )
}

} // verus!
