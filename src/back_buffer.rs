use vstd::prelude::*;
use vstd::string::*;
use ropey::RopeSlice;
use crate::types::{blank_cell, BackBuffer, Cell, Color, Point, Rect, Style};
use crate::text::{line_count, line_start, slice_len_lines, slice_line_to_char, slice_text};
use crate::terminal::{
    bg_code, bold_code, char_text, fg_code, goto_code, invert_code, reset_code, restore_cursor_code,
    save_cursor_code, show_cursor_code, underline_code, goto_text, rgb_text, reset_text,
    restore_cursor_text, save_cursor_text, show_cursor_text, bold_text, underline_text, invert_text,
};

verus! {

/// The flat row-major index of a point in a grid `width` cells wide.
pub open spec fn flat_index(p: Point, width: u16) -> nat {
    p.y as nat * width as nat + p.x as nat
}

/// A cell after a partial update: each field given as `Some` replaces the old one.
pub open spec fn updated_cell(
    c: Cell,
    letter: Option<char>,
    style: Option<Style>,
    fg: Option<Color>,
    bg: Option<Color>,
) -> Cell {
    Cell {
        value: if letter is Some { letter } else { c.value },
        fg: if fg is Some { fg } else { c.fg },
        bg: if bg is Some { bg } else { c.bg },
        style: if style is Some { style } else { c.style },
    }
}

/// The cells after styling `length` cells from flat index `start`, clipped at the end of the grid.
pub open spec fn styled_cells(
    cells: Seq<Cell>,
    start: nat,
    length: nat,
    style: Option<Style>,
    fg: Option<Color>,
    bg: Option<Color>,
) -> Seq<Cell> {
    Seq::new(
        cells.len(),
        |j: int|
            if start <= j < start + length {
                updated_cell(cells[j], None, style, fg, bg)
            } else {
                cells[j]
            },
    )
}

/// The cells after writing `text` from column `x`, row `y` of a grid `w` wide and `h` high:
/// a line break moves to column 0 of the next row, other characters fill one cell each,
/// and nothing is written from row `h` on or past the last cell.
pub open spec fn written_cells(
    cells: Seq<Cell>,
    w: nat,
    h: nat,
    x: nat,
    y: nat,
    text: Seq<char>,
    style: Option<Style>,
    fg: Option<Color>,
    bg: Option<Color>,
) -> Seq<Cell>
    decreases text.len(),
{
    if text.len() == 0 || y >= h {
        cells
    } else if text[0] == '\n' {
        written_cells(cells, w, h, 0, y + 1, text.drop_first(), style, fg, bg)
    } else {
        let i = y * w + x;
        let next = if i < cells.len() {
            cells.update(i as int, updated_cell(cells[i as int], Some(text[0]), style, fg, bg))
        } else {
            cells
        };
        written_cells(next, w, h, x + 1, y, text.drop_first(), style, fg, bg)
    }
}

proof fn lemma_written_cells_len(
    cells: Seq<Cell>,
    w: nat,
    h: nat,
    x: nat,
    y: nat,
    text: Seq<char>,
    style: Option<Style>,
    fg: Option<Color>,
    bg: Option<Color>,
)
    ensures
        written_cells(cells, w, h, x, y, text, style, fg, bg).len() == cells.len(),
    decreases text.len(),
{
    if text.len() == 0 || y >= h {
    } else if text[0] == '\n' {
        lemma_written_cells_len(cells, w, h, 0, y + 1, text.drop_first(), style, fg, bg);
    } else {
        let i = y * w + x;
        let next = if i < cells.len() {
            cells.update(i as int, updated_cell(cells[i as int], Some(text[0]), style, fg, bg))
        } else {
            cells
        };
        lemma_written_cells_len(next, w, h, x + 1, y, text.drop_first(), style, fg, bg);
    }
}

proof fn lemma_written_cells_past_end(
    cells: Seq<Cell>,
    w: nat,
    h: nat,
    x: nat,
    y: nat,
    text: Seq<char>,
    style: Option<Style>,
    fg: Option<Color>,
    bg: Option<Color>,
)
    requires
        x >= cells.len(),
    ensures
        written_cells(cells, w, h, x + 1, y, text, style, fg, bg) == written_cells(
            cells,
            w,
            h,
            x,
            y,
            text,
            style,
            fg,
            bg,
        ),
    decreases text.len(),
{
    if text.len() == 0 || y >= h {
    } else if text[0] == '\n' {
    } else {
        assert(y * w + x >= x) by (nonlinear_arith);
        assert(y * w + x + 1 >= x) by (nonlinear_arith);
        lemma_written_cells_past_end(cells, w, h, x + 1, y, text.drop_first(), style, fg, bg);
    }
}

/// Returns the index of `p` in the buffer's cell vector (`row * width + col`).
pub fn index_from_point(back_buffer: &BackBuffer, p: &Point) -> (r: usize)
    ensures
        r as nat == flat_index(*p, back_buffer.dim.w),
{
    proof {
        assert(p.y as nat * back_buffer.dim.w as nat <= 0xffff * 0xffff) by (nonlinear_arith)
            requires
                p.y <= 0xffff,
                back_buffer.dim.w <= 0xffff,
        ;
    }
    p.y as usize * back_buffer.dim.w as usize + p.x as usize
}

fn apply_updates_to_cell(
    cell: &mut Cell,
    letter: Option<char>,
    style: Option<Style>,
    fg: Option<Color>,
    bg: Option<Color>,
)
    ensures
        *final(cell) == updated_cell(*old(cell), letter, style, fg, bg),
{
    if letter.is_some() {
        cell.value = letter;
    }
    if style.is_some() {
        cell.style = style;
    }
    if fg.is_some() {
        cell.fg = fg;
    }
    if bg.is_some() {
        cell.bg = bg;
    }
}

fn style_cells(
    back_buffer: &mut BackBuffer,
    index: usize,
    length: usize,
    style: Option<Style>,
    fg: Option<Color>,
    bg: Option<Color>,
)
    ensures
        final(back_buffer).dim == old(back_buffer).dim,
        final(back_buffer).cells@ == styled_cells(
            old(back_buffer).cells@,
            index as nat,
            length as nat,
            style,
            fg,
            bg,
        ),
{
    let ghost start = index as nat;
    let ghost orig = back_buffer.cells@;
    let mut offset: usize = 0;
    while offset < length
        invariant_except_break
            back_buffer.dim == old(back_buffer).dim,
            orig == old(back_buffer).cells@,
            start == index as nat,
            offset <= length,
            back_buffer.cells@ == styled_cells(orig, start, offset as nat, style, fg, bg),
        ensures
            back_buffer.dim == old(back_buffer).dim,
            back_buffer.cells@ == styled_cells(orig, start, length as nat, style, fg, bg),
        decreases length - offset,
    {
        if index >= back_buffer.cells.len() || offset >= back_buffer.cells.len() - index {
            proof {
                assert(back_buffer.cells@ =~= styled_cells(orig, start, length as nat, style, fg, bg));
            }
            break;
        }
        let i = index + offset;
        let mut cell = back_buffer.cells[i];
        apply_updates_to_cell(&mut cell, None, style, fg, bg);
        back_buffer.cells.set(i, cell);
        offset = offset + 1;
        proof {
            assert(back_buffer.cells@ =~= styled_cells(orig, start, offset as nat, style, fg, bg));
        }
    }
}

/// Applies the given style and colors to `length` consecutive cells from `start_point`,
/// counting in row-major order. Cells past the end of the grid are left out.
pub fn style_range(
    back_buffer: &mut BackBuffer,
    start_point: &Point,
    length: usize,
    style: Option<Style>,
    fg: Option<Color>,
    bg: Option<Color>,
)
    ensures
        final(back_buffer).dim == old(back_buffer).dim,
        final(back_buffer).cells@ == styled_cells(
            old(back_buffer).cells@,
            flat_index(*start_point, old(back_buffer).dim.w),
            length as nat,
            style,
            fg,
            bg,
        ),
{
    let index = index_from_point(back_buffer, start_point);
    style_cells(back_buffer, index, length, style, fg, bg);
}

/// How many characters line `k` of `text` holds, line break included.
pub open spec fn line_len(text: Seq<char>, k: nat) -> nat {
    if line_start(text, k + 1) >= line_start(text, k) {
        (line_start(text, k + 1) - line_start(text, k)) as nat
    } else {
        0
    }
}

/// The cells after styling lines `k` on of `text`, line `k` from column `x` of row `y`
/// and each later line from column 4 of the next row, past the line-number gutter.
pub open spec fn styled_lines(
    cells: Seq<Cell>,
    w: nat,
    text: Seq<char>,
    k: nat,
    x: nat,
    y: nat,
    style: Option<Style>,
    fg: Option<Color>,
    bg: Option<Color>,
) -> Seq<Cell>
    decreases line_count(text) - k,
{
    if k >= line_count(text) {
        cells
    } else {
        styled_lines(
            styled_cells(cells, y * w + x, line_len(text, k), style, fg, bg),
            w,
            text,
            k + 1,
            GUTTER_WIDTH as nat,
            y + 1,
            style,
            fg,
            bg,
        )
    }
}

/// The column where text starts, right of the line numbers.
pub const GUTTER_WIDTH: u16 = 4;

proof fn lemma_styled_lines_below_grid(
    cells: Seq<Cell>,
    w: nat,
    h: nat,
    text: Seq<char>,
    k: nat,
    x: nat,
    y: nat,
    style: Option<Style>,
    fg: Option<Color>,
    bg: Option<Color>,
)
    requires
        cells.len() == w * h,
        y >= h,
    ensures
        styled_lines(cells, w, text, k, x, y, style, fg, bg) == cells,
    decreases line_count(text) - k,
{
    if k < line_count(text) {
        assert(y * w + x >= h * w) by (nonlinear_arith)
            requires
                y >= h,
        ;
        assert(h * w == w * h) by (nonlinear_arith);
        assert(styled_cells(cells, y * w + x, line_len(text, k), style, fg, bg) =~= cells);
        lemma_styled_lines_below_grid(cells, w, h, text, k + 1, GUTTER_WIDTH as nat, y + 1, style, fg, bg);
    }
}

/// Styles each line of `rope_slice` as `style_range` does: the first line from
/// `position`, each later one from the first text column of the next row.
pub fn style_rope_slice_range(
    back_buffer: &mut BackBuffer,
    rope_slice: &RopeSlice,
    position: Point,
    style: Option<Style>,
    fg: Option<Color>,
    bg: Option<Color>,
)
    requires
        old(back_buffer).wf(),
    ensures
        final(back_buffer).dim == old(back_buffer).dim,
        final(back_buffer).cells@ == styled_lines(
            old(back_buffer).cells@,
            old(back_buffer).dim.w as nat,
            slice_text(*rope_slice),
            0,
            position.x as nat,
            position.y as nat,
            style,
            fg,
            bg,
        ),
{
    let ghost text = slice_text(*rope_slice);
    let ghost w = back_buffer.dim.w as nat;
    let ghost whole = styled_lines(back_buffer.cells@, w, text, 0, position.x as nat, position.y as nat, style, fg, bg);
    let count = slice_len_lines(rope_slice);
    let width = back_buffer.dim.w as usize;
    let height = back_buffer.dim.h as usize;
    let mut k: usize = 0;
    let mut x: usize = position.x as usize;
    let mut y: usize = position.y as usize;
    while k < count
        invariant_except_break
            count == line_count(text),
            text == slice_text(*rope_slice),
            width as nat == w,
            w == back_buffer.dim.w,
            height == back_buffer.dim.h,
            back_buffer.dim == old(back_buffer).dim,
            back_buffer.wf(),
            k <= count,
            x <= 0xffff,
            y <= 0xffff + k,
            styled_lines(back_buffer.cells@, w, text, k as nat, x as nat, y as nat, style, fg, bg) == whole,
        ensures
            back_buffer.dim == old(back_buffer).dim,
            back_buffer.cells@ == whole,
        decreases count - k,
    {
        if y >= height {
            proof {
                lemma_styled_lines_below_grid(back_buffer.cells@, w, height as nat, text, k as nat, x as nat, y as nat, style, fg, bg);
            }
            break;
        }
        proof {
            assert(y * width <= 0xffff * 0xffff) by (nonlinear_arith)
                requires
                    y < height,
                    height <= 0xffff,
                    width <= 0xffff,
            ;
        }
        let begin = slice_line_to_char(rope_slice, k);
        let end = slice_line_to_char(rope_slice, k + 1);
        let length = if end >= begin { end - begin } else { 0 };
        style_cells(back_buffer, y * width + x, length, style, fg, bg);
        x = GUTTER_WIDTH as usize;
        y = y + 1;
        k = k + 1;
    }
}

/// Writes `value` into the grid from `start_point`, one cell per character. A line
/// break moves to the first column of the next row; characters at or below the last
/// row, or past the last cell, are dropped.
pub fn write_to_buffer(
    back_buffer: &mut BackBuffer,
    start_point: &Point,
    value: &str,
    style: Option<Style>,
    fg: Option<Color>,
    bg: Option<Color>,
)
    ensures
        final(back_buffer).dim == old(back_buffer).dim,
        final(back_buffer).cells@.len() == old(back_buffer).cells@.len(),
        final(back_buffer).cells@ == written_cells(
            old(back_buffer).cells@,
            old(back_buffer).dim.w as nat,
            old(back_buffer).dim.h as nat,
            start_point.x as nat,
            start_point.y as nat,
            value@,
            style,
            fg,
            bg,
        ),
{
    let ghost w = back_buffer.dim.w as nat;
    let ghost h = back_buffer.dim.h as nat;
    let ghost whole = written_cells(
        back_buffer.cells@,
        w,
        h,
        start_point.x as nat,
        start_point.y as nat,
        value@,
        style,
        fg,
        bg,
    );
    proof {
        lemma_written_cells_len(back_buffer.cells@, w, h, start_point.x as nat, start_point.y as nat, value@, style, fg, bg);
    }
    let n = value.unicode_len();
    let width = back_buffer.dim.w as usize;
    let height = back_buffer.dim.h as usize;
    let len = back_buffer.cells.len();
    let mut x: usize = start_point.x as usize;
    let mut y: usize = start_point.y as usize;
    let mut i: usize = 0;
    assert(value@.skip(0) =~= value@);
    while i < n
        invariant
            n == value@.len(),
            width as nat == w,
            height as nat == h,
            w == back_buffer.dim.w,
            h == back_buffer.dim.h,
            back_buffer.dim == old(back_buffer).dim,
            len == back_buffer.cells@.len(),
            len == old(back_buffer).cells@.len(),
            i <= n,
            x <= 0xffff || x <= len,
            y <= h || (y == start_point.y && i == 0),
            whole.len() == len,
            written_cells(back_buffer.cells@, w, h, x as nat, y as nat, value@.skip(i as int), style, fg, bg)
                == whole,
        ensures
            back_buffer.dim == old(back_buffer).dim,
            i >= n || y >= h,
            written_cells(back_buffer.cells@, w, h, x as nat, y as nat, value@.skip(i as int), style, fg, bg)
                == whole,
        decreases n - i,
    {
        if y >= height {
            break;
        }
        let c = value.get_char(i);
        assert(value@.skip(i as int).drop_first() =~= value@.skip(i + 1));
        if c == '\n' {
            x = 0;
            y = y + 1;
        } else {
            proof {
                assert(y * width <= 0xffff * 0xffff) by (nonlinear_arith)
                    requires
                        y < height,
                        height <= 0xffff,
                        width <= 0xffff,
                ;
            }
            let base = y * width;
            if base < len && x < len - base {
                let index = base + x;
                let mut cell = back_buffer.cells[index];
                apply_updates_to_cell(&mut cell, Some(c), style, fg, bg);
                back_buffer.cells.set(index, cell);
            }
            if x < len {
                x = x + 1;
            } else {
                proof {
                    lemma_written_cells_past_end(back_buffer.cells@, w, h, x as nat, y as nat, value@.skip(i + 1), style, fg, bg);
                }
            }
        }
        i = i + 1;
    }
    proof {
        if i >= n {
            assert(value@.skip(i as int).len() == 0);
        }
        assert(written_cells(back_buffer.cells@, w, h, x as nat, y as nat, value@.skip(i as int), style, fg, bg)
            == back_buffer.cells@);
    }
}

/// Returns a grid of `size.w * size.h` blank cells.
pub fn create_back_buffer(size: Rect) -> (b: BackBuffer)
    ensures
        b.dim == size,
        b.wf(),
        forall|i: int| 0 <= i < b.cells@.len() ==> b.cells@[i] == blank_cell(),
{
    let Rect { w, h } = size;
    proof {
        assert(w as nat * h as nat <= 0xffff * 0xffff) by (nonlinear_arith)
            requires
                w <= 0xffff,
                h <= 0xffff,
        ;
    }
    let total = w as usize * h as usize;
    let mut cells: Vec<Cell> = Vec::with_capacity(total);
    let mut k: usize = 0;
    while k < total
        invariant
            k <= total,
            total as nat == w as nat * h as nat,
            cells@.len() == k,
            forall|i: int| 0 <= i < cells@.len() ==> cells@[i] == blank_cell(),
        decreases total - k,
    {
        cells.push(Cell::default());
        k = k + 1;
    }
    BackBuffer { cells, dim: size }
}

/// The indices below `n` at which the two grids differ, in increasing order.
pub open spec fn changed_upto(a: Seq<Cell>, b: Seq<Cell>, n: nat) -> Seq<nat>
    decreases n,
{
    if n == 0 {
        seq![]
    } else {
        let rest = changed_upto(a, b, (n - 1) as nat);
        if a[n - 1] != b[n - 1] {
            rest.push((n - 1) as nat)
        } else {
            rest
        }
    }
}

/// The indices, in row-major scan order, at which two grids walked in lockstep differ.
pub open spec fn changed_indices(a: Seq<Cell>, b: Seq<Cell>) -> Seq<nat> {
    changed_upto(a, b, if a.len() <= b.len() { a.len() } else { b.len() })
}

/// The attribute code of a style; nothing for no style.
pub open spec fn style_text(s: Option<Style>) -> Seq<char> {
    match s {
        None => seq![],
        Some(Style::Underlined) => underline_text(),
        Some(Style::Highlighted) => invert_text(),
        Some(Style::Bold) => bold_text(),
    }
}

/// What is sent for the cell at flat index `i` of a grid `w` wide: the cursor move to it
/// (counted from 1), an attribute reset, its colors and style, then its glyph or a space.
pub open spec fn cell_text(i: nat, c: Cell, w: nat) -> Seq<char> {
    goto_text(i % w + 1, i / w + 1) + reset_text() + match c.fg {
        Some(col) => rgb_text(38, col),
        None => seq![],
    } + match c.bg {
        Some(col) => rgb_text(48, col),
        None => seq![],
    } + style_text(c.style) + match c.value {
        Some(ch) => seq![ch],
        None => seq![' '],
    }
}

/// The updates for the cells of `cells` at `indices`, in that order.
pub open spec fn updates_text(indices: Seq<nat>, cells: Seq<Cell>, w: nat) -> Seq<char>
    decreases indices.len(),
{
    if indices.len() == 0 {
        seq![]
    } else {
        updates_text(indices.drop_last(), cells, w) + cell_text(
            indices.last(),
            cells[indices.last() as int],
            w,
        )
    }
}

/// The whole output that brings a terminal showing `a` to `b`.
pub open spec fn frame_text(a: Seq<Cell>, b: Seq<Cell>, w: nat) -> Seq<char> {
    save_cursor_text() + updates_text(changed_indices(a, b), b, w) + restore_cursor_text()
        + show_cursor_text()
}

/// Comparing a grid with itself finds no change, so the output updates no cell: it
/// only saves, restores and shows the cursor.
pub proof fn lemma_no_change_no_update(a: Seq<Cell>, w: nat)
    ensures
        changed_indices(a, a).len() == 0,
        frame_text(a, a, w) == save_cursor_text() + restore_cursor_text() + show_cursor_text(),
{
    lemma_changed_upto_exact(a, a, a.len());
    assert(updates_text(changed_indices(a, a), a, w) == Seq::<char>::empty());
    assert(save_cursor_text() + Seq::<char>::empty() =~= save_cursor_text());
}

/// The changed indices are exactly those below the common length where the grids
/// differ, each once, in increasing (row-major) order.
pub proof fn lemma_changed_indices_exact(a: Seq<Cell>, b: Seq<Cell>)
    ensures
        forall|k: nat|
            #[trigger] changed_indices(a, b).contains(k) <==> (k < a.len() && k < b.len() && a[k as int]
                != b[k as int]),
        forall|p: int, q: int|
            0 <= p < q < changed_indices(a, b).len() ==> changed_indices(a, b)[p]
                < changed_indices(a, b)[q],
{
    let n = if a.len() <= b.len() { a.len() } else { b.len() };
    lemma_changed_upto_exact(a, b, n);
}

proof fn lemma_changed_upto_exact(a: Seq<Cell>, b: Seq<Cell>, n: nat)
    ensures
        forall|k: nat| #[trigger] changed_upto(a, b, n).contains(k) <==> (k < n && a[k as int] != b[k as int]),
        forall|p: int, q: int|
            0 <= p < q < changed_upto(a, b, n).len() ==> changed_upto(a, b, n)[p] < changed_upto(
                a,
                b,
                n,
            )[q],
        forall|p: int| 0 <= p < changed_upto(a, b, n).len() ==> changed_upto(a, b, n)[p] < n,
        a == b ==> changed_upto(a, b, n).len() == 0,
    decreases n,
{
    if n > 0 {
        lemma_changed_upto_exact(a, b, (n - 1) as nat);
        let rest = changed_upto(a, b, (n - 1) as nat);
        if a[n - 1] != b[n - 1] {
            assert forall|k: nat|
                changed_upto(a, b, n).contains(k) <==> (k < n && a[k as int] != b[k as int]) by {
                if k == n - 1 {
                    assert(changed_upto(a, b, n)[rest.len() as int] == k);
                }
                if changed_upto(a, b, n).contains(k) && k != n - 1 {
                    let j = choose|j: int| 0 <= j < changed_upto(a, b, n).len() && changed_upto(a, b, n)[j] == k;
                    assert(rest[j] == k);
                }
                if rest.contains(k) {
                    let j = choose|j: int| 0 <= j < rest.len() && rest[j] == k;
                    assert(changed_upto(a, b, n)[j] == k);
                }
            }
        }
    }
}

/// Returns, in row-major order, the indices at which the two grids differ, walking both
/// in lockstep up to the shorter one.
pub fn changed_cells(old_buffer: &BackBuffer, new_buffer: &BackBuffer) -> (r: Vec<usize>)
    ensures
        r@.len() == changed_indices(old_buffer.cells@, new_buffer.cells@).len(),
        forall|k: int|
            0 <= k < r@.len() ==> r@[k] as nat == changed_indices(old_buffer.cells@, new_buffer.cells@)[k],
{
    let n = if old_buffer.cells.len() <= new_buffer.cells.len() {
        old_buffer.cells.len()
    } else {
        new_buffer.cells.len()
    };
    let ghost a = old_buffer.cells@;
    let ghost b = new_buffer.cells@;
    let mut r: Vec<usize> = Vec::new();
    let mut i: usize = 0;
    while i < n
        invariant
            i <= n,
            n <= a.len(),
            n <= b.len(),
            a == old_buffer.cells@,
            b == new_buffer.cells@,
            n == (if a.len() <= b.len() { a.len() } else { b.len() }),
            r@.len() == changed_upto(a, b, i as nat).len(),
            forall|k: int| 0 <= k < r@.len() ==> r@[k] as nat == changed_upto(a, b, i as nat)[k],
        decreases n - i,
    {
        if old_buffer.cells[i] != new_buffer.cells[i] {
            r.push(i);
        }
        i = i + 1;
    }
    r
}

fn cell_code(i: usize, c: Cell, w: u16, h: u16) -> (r: String)
    requires
        w > 0,
        (i as nat) < w as nat * h as nat,
    ensures
        r@ == cell_text(i as nat, c, w as nat),
{
    proof {
        vstd::arithmetic::div_mod::lemma_multiply_divide_lt(i as int, w as int, h as int);
        vstd::arithmetic::div_mod::lemma_mod_bound(i as int, w as int);
    }
    let x = (i % (w as usize)) as u16 + 1;
    let y = (i / (w as usize)) as u16 + 1;
    let mut out = goto_code(x, y);
    out.append(reset_code().as_str());
    let ghost head = out@;
    if let Some(col) = c.fg {
        out.append(fg_code(col).as_str());
    }
    let ghost with_fg = out@;
    assert(with_fg == head + match c.fg {
        Some(col) => rgb_text(38, col),
        None => seq![],
    }) by {
        if c.fg is None {
            assert(with_fg =~= head + seq![]);
        }
    }
    if let Some(col) = c.bg {
        out.append(bg_code(col).as_str());
    }
    let ghost with_bg = out@;
    assert(with_bg == with_fg + match c.bg {
        Some(col) => rgb_text(48, col),
        None => seq![],
    }) by {
        if c.bg is None {
            assert(with_bg =~= with_fg + seq![]);
        }
    }
    match c.style {
        None => {},
        Some(Style::Underlined) => out.append(underline_code().as_str()),
        Some(Style::Highlighted) => out.append(invert_code().as_str()),
        Some(Style::Bold) => out.append(bold_code().as_str()),
    }
    let ghost with_style = out@;
    assert(with_style == with_bg + style_text(c.style)) by {
        if c.style is None {
            assert(with_style =~= with_bg + seq![]);
        }
    }
    match c.value {
        Some(ch) => out.append(char_text(ch).as_str()),
        None => out.append(char_text(' ').as_str()),
    }
    out
}

/// Returns the terminal output that turns a screen showing `old_buffer` into one showing
/// `new_buffer`: for each differing cell, in row-major order, a cursor move, an attribute
/// reset, its colors and style and its glyph; framed by saving, restoring and showing
/// the cursor.
pub fn update_stdout(old_buffer: &BackBuffer, new_buffer: &BackBuffer) -> (r: String)
    requires
        new_buffer.wf(),
    ensures
        r@ == frame_text(old_buffer.cells@, new_buffer.cells@, new_buffer.dim.w as nat),
{
    let changed = changed_cells(old_buffer, new_buffer);
    let ghost a = old_buffer.cells@;
    let ghost b = new_buffer.cells@;
    let ghost idx = changed_indices(a, b);
    let ghost w = new_buffer.dim.w as nat;
    proof {
        lemma_changed_indices_exact(a, b);
    }
    let mut out = save_cursor_code();
    let mut j: usize = 0;
    while j < changed.len()
        invariant
            j <= changed@.len(),
            changed@.len() == idx.len(),
            forall|k: int| 0 <= k < changed@.len() ==> changed@[k] as nat == idx[k],
            forall|k: nat| #[trigger] idx.contains(k) ==> k < b.len(),
            b == new_buffer.cells@,
            new_buffer.wf(),
            w == new_buffer.dim.w,
            out@ == save_cursor_text() + updates_text(idx.take(j as int), b, w),
        decreases changed@.len() - j,
    {
        let i = changed[j];
        assert(idx[j as int] == i as nat);
        assert(idx.contains(i as nat));
        assert(idx.take(j + 1).drop_last() =~= idx.take(j as int));
        let ghost before = out@;
        let code = cell_code(i, new_buffer.cells[i], new_buffer.dim.w, new_buffer.dim.h);
        out.append(code.as_str());
        j = j + 1;
        assert(out@ =~= save_cursor_text() + updates_text(idx.take(j as int), b, w));
    }
    assert(idx.take(j as int) =~= idx);
    out.append(restore_cursor_code().as_str());
    out.append(show_cursor_code().as_str());
    assert(out@ =~= frame_text(a, b, w));
    out
}

} // verus!
