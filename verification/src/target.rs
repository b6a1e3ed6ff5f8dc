//! The path a raster is written to: the target path with its extension set
//! to that of the output format.

use crate::config::OutputFormat;
use crate::text::chars_of;
use crate::text::slice_of;
use vstd::prelude::*;
use vstd::string::StringExecFns;

verus! {

/// The character that parts the components of a path.
pub const SEPARATOR: char = '/';

/// The character that parts a file name from its extension.
pub const DOT: char = '.';

/// Where the file name of `path[..end]` ends: trailing separators and
/// trailing `.` components do not count. Zero where nothing is left.
pub open spec fn name_end(path: Seq<char>, end: int) -> int
    decreases end,
{
    if end <= 0 || end > path.len() {
        0
    } else if path[end - 1] == SEPARATOR {
        name_end(path, end - 1)
    } else if path[end - 1] == DOT && (end == 1 || path[end - 2] == SEPARATOR) {
        name_end(path, end - 1)
    } else {
        end
    }
}

/// Where the component that ends at `end` starts: after the last separator
/// before `end`, or at the start of the path.
pub open spec fn name_start(path: Seq<char>, end: int) -> int
    decreases end,
{
    if end <= 0 || end > path.len() {
        0
    } else if path[end - 1] == SEPARATOR {
        end
    } else {
        name_start(path, end - 1)
    }
}

/// Whether `path[start..end]` is the component `..`.
pub open spec fn is_parent(path: Seq<char>, start: int, end: int) -> bool {
    end == start + 2 && path[start] == DOT && path[start + 1] == DOT
}

/// Where the stem of the file name `path[start..end]` ends: at its last dot,
/// unless that dot is the name's first character, else at the end of the name.
/// `at` is how far back from `end` the search has come.
pub open spec fn stem_end(path: Seq<char>, start: int, end: int, at: int) -> int
    decreases at - start,
{
    if start < 0 || at <= start + 1 || at > path.len() {
        end
    } else if path[at - 1] == DOT {
        at - 1
    } else {
        stem_end(path, start, end, at - 1)
    }
}

/// The path that a raster for `target` is written to. A target with a file
/// name keeps all up to the stem of that name and gets a dot and `extension`
/// in place of the rest: an extension is replaced, a missing one added. A
/// target without a file name (empty, a root, `.` or one that ends in `..`)
/// has no such path.
pub open spec fn final_path(target: Seq<char>, extension: Seq<char>) -> Option<Seq<char>> {
    let end: int = name_end(target, target.len() as int);
    let start: int = name_start(target, end);
    if end == 0 || is_parent(target, start, end) {
        None
    } else {
        Some(target.subrange(0, stem_end(target, start, end, end)).push(DOT) + extension)
    }
}

/// The file name that [`name_end`] finds is not empty and holds no separator,
/// and only separators and `.` components follow it.
pub proof fn lemma_name_end(path: Seq<char>, end: int)
    requires
        0 <= end <= path.len(),
    ensures
        0 <= name_end(path, end) <= end,
        name_end(path, end) > 0 ==> path[name_end(path, end) - 1] != SEPARATOR,
        forall|k: int|
            name_end(path, end) <= k < end ==> #[trigger] path[k] == SEPARATOR || (path[k] == DOT
                && (k == 0 || path[k - 1] == SEPARATOR)),
    decreases end,
{
    if end > 0 && (path[end - 1] == SEPARATOR || (path[end - 1] == DOT && (end == 1 || path[end
        - 2] == SEPARATOR))) {
        lemma_name_end(path, end - 1);
    }
}

/// A component starts at the start of the path or after a separator, and
/// holds none.
pub proof fn lemma_name_start(path: Seq<char>, end: int)
    requires
        0 <= end <= path.len(),
    ensures
        0 <= name_start(path, end) <= end,
        end > 0 && path[end - 1] != SEPARATOR ==> name_start(path, end) < end,
        name_start(path, end) > 0 ==> path[name_start(path, end) - 1] == SEPARATOR,
        forall|k: int| name_start(path, end) <= k < end ==> #[trigger] path[k] != SEPARATOR,
    decreases end,
{
    if end > 0 && path[end - 1] != SEPARATOR {
        lemma_name_start(path, end - 1);
    }
}

/// The stem ends inside the name, after its first character, and no dot
/// follows the one it ends at.
pub proof fn lemma_stem_end(path: Seq<char>, start: int, end: int, at: int)
    requires
        0 <= start < end <= path.len(),
        start < at <= end,
    ensures
        start < stem_end(path, start, end, at) <= end,
        stem_end(path, start, end, at) < at ==> path[stem_end(path, start, end, at)] == DOT,
        stem_end(path, start, end, at) == end || stem_end(path, start, end, at) < at,
        forall|k: int|
            stem_end(path, start, end, at) < k < at ==> #[trigger] path[k] != DOT,
        stem_end(path, start, end, at) == end ==> forall|k: int|
            start < k < at ==> #[trigger] path[k] != DOT,
    decreases at,
{
    if at > start + 1 && path[at - 1] != DOT {
        lemma_stem_end(path, start, end, at - 1);
    }
}

/// A target whose file name holds no dot gets a dot and the extension added.
/// The file name is what follows the last separator; here the target does not
/// end in one.
pub proof fn lemma_extension_added(target: Seq<char>, extension: Seq<char>)
    requires
        target.len() > 0,
        target.last() != SEPARATOR,
        forall|k: int|
            name_start(target, target.len() as int) <= k < target.len() ==> #[trigger] target[k]
                != DOT,
    ensures
        final_path(target, extension) == Some(target.push(DOT) + extension),
{
    let end: int = target.len() as int;
    lemma_name_start(target, end);
    let start: int = name_start(target, end);
    assert(target[end - 1] != DOT);
    lemma_stem_end(target, start, end, end);
    assert(target.subrange(0, end) =~= target);
}

/// A target that ends in a dot and an extension gets the extension replaced:
/// what stands before the dot stays. The old extension is not empty and holds
/// neither dot nor separator, and the dot is not the first character of the
/// file name.
pub proof fn lemma_extension_replaced(stem: Seq<char>, old: Seq<char>, extension: Seq<char>)
    requires
        stem.len() > 0,
        stem.last() != SEPARATOR,
        old.len() > 0,
        !old.contains(DOT),
        !old.contains(SEPARATOR),
    ensures
        final_path(stem.push(DOT) + old, extension) == Some(stem.push(DOT) + extension),
{
    let target = stem.push(DOT) + old;
    let end: int = target.len() as int;
    let dot: int = stem.len() as int;
    assert(forall|k: int| dot < k < end ==> target[k] == old[k - dot - 1]);
    assert(target[end - 1] == old[end - dot - 2]);
    assert(target[dot - 1] == stem.last());
    assert(target[dot] == DOT);
    lemma_name_start(target, end);
    let start: int = name_start(target, end);
    assert(start < dot) by {
        if start > 0 {
            assert(target[start - 1] == SEPARATOR);
            if start - 1 > dot {
                assert(old[start - 1 - dot - 1] == SEPARATOR);
            }
        }
    }
    lemma_stem_end(target, start, end, end);
    let cut: int = stem_end(target, start, end, end);
    assert(cut == dot) by {
        if cut > dot && cut < end {
            assert(old[cut - dot - 1] == DOT);
        }
    }
    assert(target.subrange(0, dot) =~= stem);
}

fn find_name_end(chars: &Vec<char>) -> (end: usize)
    ensures
        end == name_end(chars@, chars@.len() as int),
        end <= chars@.len(),
{
    let mut end: usize = chars.len();
    while end > 0 && (chars[end - 1] == SEPARATOR || (chars[end - 1] == DOT && (end == 1
        || chars[end - 2] == SEPARATOR)))
        invariant
            end <= chars@.len(),
            name_end(chars@, chars@.len() as int) == name_end(chars@, end as int),
        decreases end,
    {
        end = end - 1;
    }
    end
}

fn find_name_start(chars: &Vec<char>, end: usize) -> (start: usize)
    requires
        end <= chars@.len(),
    ensures
        start == name_start(chars@, end as int),
        start <= end,
{
    let mut start: usize = end;
    while start > 0 && chars[start - 1] != SEPARATOR
        invariant
            start <= end <= chars@.len(),
            name_start(chars@, end as int) == name_start(chars@, start as int),
        decreases start,
    {
        start = start - 1;
    }
    start
}

fn find_stem_end(chars: &Vec<char>, start: usize, end: usize) -> (stem: usize)
    requires
        start < end <= chars@.len(),
    ensures
        stem == stem_end(chars@, start as int, end as int, end as int),
        start < stem <= end,
{
    let mut at: usize = end;
    while at > start + 1 && chars[at - 1] != DOT
        invariant
            start < at <= end <= chars@.len(),
            stem_end(chars@, start as int, end as int, end as int) == stem_end(
                chars@,
                start as int,
                end as int,
                at as int,
            ),
        decreases at,
    {
        at = at - 1;
    }
    if at > start + 1 {
        at - 1
    } else {
        end
    }
}

/// The path that a raster for `target` is written to in `format`, if there is
/// one.
pub fn target_path(target: &str, format: OutputFormat) -> (path: Option<String>)
    ensures
        match path {
            Some(path) => final_path(target@, format.extension_spec()) == Some(path@),
            None => final_path(target@, format.extension_spec()) is None,
        },
{
    let chars = chars_of(target);
    let end: usize = find_name_end(&chars);
    if end == 0 {
        return None;
    }
    let start: usize = find_name_start(&chars, end);
    proof {
        lemma_name_end(chars@, chars@.len() as int);
        lemma_name_start(chars@, end as int);
    }
    if end - start == 2 && chars[start] == DOT && chars[start + 1] == DOT {
        return None;
    }
    let stem: usize = find_stem_end(&chars, start, end);
    let mut path = slice_of(target, 0, stem);
    path.append(".");
    path.append(format.extension());
    proof {
        reveal_strlit(".");
        assert("."@ =~= seq![DOT]);
        assert(path@ =~= target@.subrange(0, stem as int).push(DOT) + format.extension_spec());
    }
    Some(path)
}

} // verus!
