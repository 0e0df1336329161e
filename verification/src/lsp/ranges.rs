//! PrSM spans (1-based lines and columns, end exclusive) as LSP ranges (0-based).
use vstd::prelude::*;
use crate::token::{Position, Span};

verus! {

/// An LSP range: 0-based start and end, as (line, character) pairs.
#[derive(Debug, Clone, Copy, PartialEq, Eq, Structural)]
pub struct LspRange {
    pub start_line: u32,
    pub start_character: u32,
    pub end_line: u32,
    pub end_character: u32,
}

/// `v - 1`, or 0 for 0.
pub open spec fn spec_before(v: u32) -> u32 {
    if v == 0 { 0 } else { (v - 1) as u32 }
}

/// A span as an LSP range; an empty or backwards span becomes the one character at its start.
pub open spec fn spec_lsp_range(span: Span) -> LspRange {
    let sl = spec_before(span.start.line);
    let sc = spec_before(span.start.col);
    let el = spec_before(span.end.line);
    let ec = spec_before(span.end.col);
    if el < sl || (el == sl && ec <= sc) {
        LspRange { start_line: sl, start_character: sc, end_line: sl, end_character: (sc + 1) as u32 }
    } else {
        LspRange { start_line: sl, start_character: sc, end_line: el, end_character: ec }
    }
}

/// The LSP range of a span; never empty.
pub fn lsp_range(span: Span) -> (r: LspRange)
    ensures
        r == spec_lsp_range(span),
{
    let start_line = span.start.line.saturating_sub(1);
    let start_col = span.start.col.saturating_sub(1);
    let mut end_line = span.end.line.saturating_sub(1);
    let mut end_col = span.end.col.saturating_sub(1);
    if end_line < start_line || (end_line == start_line && end_col <= start_col) {
        end_line = start_line;
        end_col = start_col + 1;
    }
    LspRange { start_line, start_character: start_col, end_line, end_character: end_col }
}

/// The LSP range of a text edit between two positions, converted as they are.
pub fn lsp_text_edit_range(start: Position, end: Position) -> (r: LspRange)
    ensures
        r == (LspRange {
            start_line: spec_before(start.line),
            start_character: spec_before(start.col),
            end_line: spec_before(end.line),
            end_character: spec_before(end.col),
        }),
{
    LspRange {
        start_line: start.line.saturating_sub(1),
        start_character: start.col.saturating_sub(1),
        end_line: end.line.saturating_sub(1),
        end_character: end.col.saturating_sub(1),
    }
}

/// `v` clamped to `max`.
pub open spec fn spec_clamp(v: int, max: int) -> int {
    if v < max { v } else { max }
}

/// A diagnostic's span as an LSP range inside a document with the given line lengths (a
/// document with none counts as one empty line): lines and columns are clamped into the
/// document; an empty or backwards range grows to one character when its line has room.
pub open spec fn spec_diagnostic_range(span: Span, line_lengths: Seq<usize>) -> (int, int, int, int) {
    let lengths = if line_lengths.len() == 0 { seq![0usize] } else { line_lengths };
    let max_line = lengths.len() - 1;
    let sl = spec_clamp(spec_before(span.start.line) as int, max_line);
    let sc = spec_clamp(spec_before(span.start.col) as int, lengths[sl] as int);
    let el = spec_clamp(spec_before(span.end.line) as int, max_line);
    let ec = spec_clamp(spec_before(span.end.col) as int, lengths[el] as int);
    if el < sl || (el == sl && ec <= sc) {
        (sl, sc, sl, spec_clamp(sc + 1, lengths[sl] as int))
    } else {
        (sl, sc, el, ec)
    }
}

/// The LSP range of a diagnostic, as (start line, start character, end line, end character).
pub fn diagnostic_range(span: Span, line_lengths: &Vec<usize>) -> (r: (usize, usize, usize, usize))
    ensures
        (r.0 as int, r.1 as int, r.2 as int, r.3 as int) == spec_diagnostic_range(span, line_lengths@),
{
    let mut lengths: Vec<usize> = Vec::new();
    if line_lengths.len() == 0 {
        lengths.push(0);
    } else {
        let mut i: usize = 0;
        while i < line_lengths.len()
            invariant
                i <= line_lengths@.len(),
                lengths@ == line_lengths@.take(i as int),
            decreases line_lengths@.len() - i,
        {
            lengths.push(line_lengths[i]);
            proof {
                assert(lengths@ =~= line_lengths@.take(i + 1));
            }
            i = i + 1;
        }
        proof {
            assert(line_lengths@.take(line_lengths@.len() as int) =~= line_lengths@);
        }
    }
    proof {
        if line_lengths@.len() == 0 {
            assert(lengths@ =~= seq![0usize]);
        }
    }
    let max_line = lengths.len() - 1;
    let a = span.start.line.saturating_sub(1) as usize;
    let start_line = if a < max_line { a } else { max_line };
    let b = span.start.col.saturating_sub(1) as usize;
    let start_col = if b < lengths[start_line] { b } else { lengths[start_line] };
    let c = span.end.line.saturating_sub(1) as usize;
    let mut end_line = if c < max_line { c } else { max_line };
    let d = span.end.col.saturating_sub(1) as usize;
    let mut end_col = if d < lengths[end_line] { d } else { lengths[end_line] };
    if end_line < start_line || (end_line == start_line && end_col <= start_col) {
        end_line = start_line;
        end_col = if start_col < lengths[start_line] { start_col + 1 } else { lengths[start_line] };
    }
    (start_line, start_col, end_line, end_col)
}

} // verus!
