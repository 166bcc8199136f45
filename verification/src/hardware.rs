//! What the processor says of itself.

use crate::text::{find_from, has_part_at, part_at, position_from};
use vstd::prelude::*;
use vstd::string::*;

verus! {

/// A line begins at `at`: at the beginning of the text, or behind a line
/// feed.
pub open spec fn line_begins(info: Seq<u8>, at: int) -> bool {
    at == 0 || (0 < at <= info.len() && info[at - 1] == 10)
}

/// Where the first line begins, at or behind `from`, that starts with
/// `model name`; none where no line does.
pub open spec fn model_line(info: Seq<u8>, from: int) -> Option<int>
    decreases info.len() - from,
{
    if from < 0 || from >= info.len() {
        None
    } else if line_begins(info, from) && has_part_at(info, "model name".spec_bytes(), from) {
        Some(from)
    } else {
        model_line(info, from + 1)
    }
}

/// Where the model name stands in the processor information `info`: in the
/// first line that starts with `model name`, between the first colon and the
/// second, or the end of the line. None where there is no such line, or no
/// colon in it.
pub open spec fn model_range(info: Seq<u8>) -> Option<(int, int)> {
    match model_line(info, 0) {
        None => None,
        Some(line) => {
            let end = position_from(info, 10, line);
            let colon = position_from(info.subrange(0, end), 58, line);
            if colon >= end {
                None
            } else {
                Some((colon + 1, position_from(info.subrange(0, end), 58, colon + 1)))
            }
        },
    }
}

/// No line begins inside a line: the search for the model line may go on
/// from where the next line begins.
proof fn lemma_skip_line(info: Seq<u8>, from: int, to: int)
    requires
        0 <= from < to <= info.len() + 1,
        forall|k: int| from <= k < to - 1 ==> info[k] != 10,
        !(line_begins(info, from) && has_part_at(info, "model name".spec_bytes(), from)),
    ensures
        model_line(info, from) == model_line(info, to),
    decreases to - from,
{
    if from + 1 < to {
        assert(!line_begins(info, from + 1));
        lemma_skip_line(info, from + 1, to);
    }
}

/// Finds the model name in the processor information: the place of its
/// first byte and the place behind its last. The whitespace around it is
/// part of what is found.
pub fn cpu_model(info: &[u8]) -> (found: Option<(usize, usize)>)
    ensures
        match found {
            Some((start, end)) => model_range(info@) == Some((start as int, end as int)) && start
                <= end <= info@.len(),
            None => model_range(info@) is None,
        },
{
    let len = info.len();
    let mut line: usize = 0;
    while line < len
        invariant
            line <= len,
            len == info@.len(),
            line_begins(info@, line as int),
            model_line(info@, 0) == model_line(info@, line as int),
        decreases len - line,
    {
        let end = find_from(info, 10, line);
        if part_at(info, "model name".as_bytes(), line) {
            let row = vstd::slice::slice_subrange(info, 0, end);
            let colon = find_from(row, 58, line);
            if colon >= end {
                return None;
            }
            let second = find_from(row, 58, colon + 1);
            return Some((colon + 1, second));
        }
        proof {
            lemma_skip_line(info@, line as int, end + 1);
        }
        if end >= len {
            return None;
        }
        line = end + 1;
    }
    None
}

} // verus!
