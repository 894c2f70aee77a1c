//! Locating a (line, column) position inside raw source text.
//!
//! Parsers report failures as one-based line/column pairs; diagnostics
//! need a byte offset into the original text.  `create_span` performs
//! that conversion, clamping out-of-range positions to the nearest
//! byte of the requested line.

use vstd::prelude::*;
use vstd::string::StringSliceAdditionalSpecFns;

verus! {

/// A byte region inside a source text.  Failure locations are reported
/// as zero-length spans: `offset` points at the failing byte and
/// `length` is zero.
#[derive(Clone, Copy, Debug, PartialEq, Eq, Structural)]
pub struct Span {
    pub offset: usize,
    pub length: usize,
}

/// The index just after the first newline byte at or after `i`, or the
/// end of the text when no newline follows.
pub open spec fn after_next_newline(text: Seq<u8>, i: int) -> int
    decreases text.len() - i,
{
    if i < 0 || i >= text.len() {
        text.len() as int
    } else if text[i] == 10u8 {
        i + 1
    } else {
        after_next_newline(text, i + 1)
    }
}

/// The byte offset at which a one-based line begins: line 1 starts at
/// offset 0, and each further line starts just after the previous
/// line's newline.
pub open spec fn line_start(text: Seq<u8>, line: nat) -> int
    decreases line,
{
    if line <= 1 {
        0
    } else {
        after_next_newline(text, line_start(text, (line - 1) as nat))
    }
}

/// The byte offset of a one-based (line, column) position: the start of
/// the line plus the column, clamped so that it never runs past the
/// line's own newline (nor past the end of the text).
pub open spec fn location_offset(text: Seq<u8>, line: nat, column: nat) -> int {
    let start = line_start(text, line);
    let bound = after_next_newline(text, start);
    let col_off = if column <= 1 {
        0
    } else {
        column - 1
    };
    if start + col_off < bound {
        start + col_off
    } else {
        bound
    }
}

proof fn lemma_after_next_newline_bounds(text: Seq<u8>, i: int)
    requires
        0 <= i <= text.len(),
    ensures
        i <= after_next_newline(text, i) <= text.len(),
    decreases text.len() - i,
{
    if i < text.len() && text[i] != 10u8 {
        lemma_after_next_newline_bounds(text, i + 1);
    }
}

proof fn lemma_line_start_bounds(text: Seq<u8>, line: nat)
    ensures
        0 <= line_start(text, line) <= text.len(),
    decreases line,
{
    if line > 1 {
        lemma_line_start_bounds(text, (line - 1) as nat);
        lemma_after_next_newline_bounds(text, line_start(text, (line - 1) as nat));
    }
}

/// Finds the index just after the next newline at or after `i` by a
/// linear scan.
fn scan_after_next_newline(bytes: &[u8], i: usize) -> (r: usize)
    requires
        i <= bytes@.len(),
    ensures
        r == after_next_newline(bytes@, i as int),
        i <= r <= bytes@.len(),
{
    let mut j = i;
    loop
        invariant
            i <= j <= bytes@.len(),
            after_next_newline(bytes@, i as int) == after_next_newline(bytes@, j as int),
        decreases bytes@.len() - j,
    {
        if j >= bytes.len() {
            return j;
        }
        if bytes[j] == 10u8 {
            return j + 1;
        }
        j = j + 1;
    }
}

/// Converts a one-based (line, column) location inside `content` into a
/// zero-length span whose offset is the byte position of that location,
/// clamped to the addressed line.
pub fn create_span(content: &str, line: usize, column: usize) -> (r: Span)
    ensures
        r.offset == location_offset(content.spec_bytes(), line as nat, column as nat),
        r.length == 0,
{
    let bytes: &[u8] = content.as_bytes();
    let mut current: usize = 1;
    let mut start: usize = 0;
    proof {
        assert(line_start(bytes@, 1nat) == 0);
    }
    while current < line
        invariant
            1 <= current,
            current <= line || (line == 0 && current == 1),
            start == line_start(bytes@, current as nat),
            0 <= start <= bytes@.len(),
        decreases line - current,
    {
        let next = scan_after_next_newline(bytes, start);
        proof {
            lemma_after_next_newline_bounds(bytes@, start as int);
        }
        start = next;
        current = current + 1;
    }
    proof {
        if line == 0 {
            assert(line_start(bytes@, 0nat) == 0);
        }
        lemma_line_start_bounds(bytes@, line as nat);
    }
    let bound = scan_after_next_newline(bytes, start);
    let col_off: usize = if column <= 1 {
        0
    } else {
        column - 1
    };
    let offset = if col_off < bound - start {
        start + col_off
    } else {
        bound
    };
    Span { offset, length: 0 }
}

} // verus!
