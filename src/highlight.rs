use vstd::prelude::*;
use crate::types::{BackBuffer, Buffer, Cell, Point};
use crate::back_buffer::{flat_index, style_range, styled_cells, GUTTER_WIDTH};
use crate::command::{get_color_from_tag, tag_color};
use crate::text::{line_of, line_start, rope_char_to_line, rope_len_chars, rope_line_to_char, rope_text};

verus! {

/// A run of chars of a buffer's text: where it starts and how many chars it holds.
#[derive(Debug, Clone, Copy, PartialEq, Eq, Structural)]
pub struct TextSpan {
    pub start: usize,
    pub len: usize,
}

/// A span of text with the syntax tag it is highlighted by.
#[derive(Debug, Clone, PartialEq)]
pub struct Highlight {
    pub span: TextSpan,
    pub tag: String,
}

/// Where char index `start` of `text` is drawn when the buffer shows lines from
/// `start_line` on: right of the line-number gutter, on its line's row. `None` where
/// its line is scrolled out above, the index is past the text, or the place does not
/// fit a position.
pub open spec fn span_point(text: Seq<char>, start_line: usize, start: nat) -> Option<Point> {
    if start > text.len() {
        None
    } else {
        let line = line_of(text, start);
        let col = start - line_start(text, line) + GUTTER_WIDTH;
        let row = line - start_line;
        if line < start_line || start < line_start(text, line) || col > u16::MAX || row > u16::MAX {
            None
        } else {
            Some(Point { x: col as u16, y: row as u16 })
        }
    }
}

/// Returns where a span of the buffer's text is drawn, as `span_point` says, and its
/// length.
pub fn get_pos_len_from_text_range(text_range: TextSpan, buffer: &Buffer) -> (r: (Option<Point>, usize))
    ensures
        r.0 == span_point(rope_text(buffer.rope), buffer.start_line, text_range.start as nat),
        r.1 == text_range.len,
{
    let start = text_range.start;
    if start > rope_len_chars(&buffer.rope) {
        return (None, text_range.len);
    }
    let line = rope_char_to_line(&buffer.rope, start);
    let line_begin = rope_line_to_char(&buffer.rope, line);
    if line < buffer.start_line || start < line_begin {
        return (None, text_range.len);
    }
    let offset = start - line_begin;
    let row = line - buffer.start_line;
    if offset > (u16::MAX - GUTTER_WIDTH) as usize || row > u16::MAX as usize {
        return (None, text_range.len);
    }
    (Some(Point { x: offset as u16 + GUTTER_WIDTH, y: row as u16 }), text_range.len)
}

/// The cells after drawing highlights in order: a highlight whose place is known gets
/// its tag's color over its length, and drawing stops at the first one placed below
/// row `height`.
pub open spec fn highlighted_cells(
    cells: Seq<Cell>,
    w: u16,
    text: Seq<char>,
    start_line: usize,
    hs: Seq<Highlight>,
    height: u16,
) -> Seq<Cell>
    decreases hs.len(),
{
    if hs.len() == 0 {
        cells
    } else {
        let h = hs[0];
        match span_point(text, start_line, h.span.start as nat) {
            Some(p) => if p.y > height {
                cells
            } else {
                let next = match tag_color(h.tag@) {
                    Some(c) => styled_cells(cells, flat_index(p, w), h.span.len as nat, None, Some(c), None),
                    None => cells,
                };
                highlighted_cells(next, w, text, start_line, hs.drop_first(), height)
            },
            None => highlighted_cells(cells, w, text, start_line, hs.drop_first(), height),
        }
    }
}

/// Colors the highlighted spans of a buffer shown on a terminal `height` rows high.
pub fn draw_syntax_highlighting(
    highlights: &Vec<Highlight>,
    buffer: &Buffer,
    back_buffer: &mut BackBuffer,
    height: u16,
)
    ensures
        final(back_buffer).dim == old(back_buffer).dim,
        final(back_buffer).cells@ == highlighted_cells(
            old(back_buffer).cells@,
            old(back_buffer).dim.w,
            rope_text(buffer.rope),
            buffer.start_line,
            highlights@,
            height,
        ),
{
    let ghost text = rope_text(buffer.rope);
    let ghost w = back_buffer.dim.w;
    let ghost whole = highlighted_cells(back_buffer.cells@, w, text, buffer.start_line, highlights@, height);
    let mut i: usize = 0;
    assert(highlights@.skip(0) =~= highlights@);
    while i < highlights.len()
        invariant_except_break
            i <= highlights@.len(),
            w == back_buffer.dim.w,
            back_buffer.dim == old(back_buffer).dim,
            text == rope_text(buffer.rope),
            highlighted_cells(back_buffer.cells@, w, text, buffer.start_line, highlights@.skip(i as int), height)
                == whole,
        ensures
            back_buffer.dim == old(back_buffer).dim,
            back_buffer.cells@ == whole,
        decreases highlights@.len() - i,
    {
        let h = &highlights[i];
        assert(highlights@.skip(i as int).drop_first() =~= highlights@.skip(i + 1));
        assert(highlights@.skip(i as int)[0] == highlights@[i as int]);
        let (place, length) = get_pos_len_from_text_range(h.span, buffer);
        if let Some(p) = place {
            if p.y > height {
                break;
            }
            match get_color_from_tag(h.tag.as_str()) {
                Some(c) => style_range(back_buffer, &p, length, None, Some(c), None),
                None => {},
            }
        }
        i = i + 1;
        proof {
            if i >= highlights@.len() {
                assert(highlights@.skip(i as int).len() == 0);
            }
        }
    }
}

} // verus!
