use vstd::prelude::*;
use ropey::Rope;
use crate::types::{
    BackBuffer, Buffer, BufferIndex, Client, ClientIndex, Cmd, DeleteDirection, Direction, JumpType,
    Mode, Point, Rect,
};
use crate::state::{set_client_mode, GlobalData};
use crate::registry::buffer_at_mut;
use crate::back_buffer::{line_len, style_rope_slice_range, styled_lines, write_to_buffer, written_cells};
use crate::text::{
    checked_ropey_index, line_count, position_in_range, rope_index, rope_len_chars, rope_len_lines,
    rope_line_to_char, rope_slice, rope_text, rope_text_between,
};
use crate::types::Color;

verus! {

/// A client's cursor in one buffer: its position (columns from 1), the column it keeps
/// across shorter lines, and where a selection started.
#[derive(Debug, Clone, Copy, PartialEq, Eq, Structural)]
pub struct Cursor {
    pub position: Point,
    pub stored_x: u16,
    pub selection_anchor: Option<Point>,
}

impl Default for Cursor {
    fn default() -> (c: Cursor)
        ensures
            c.position == (Point { x: 1, y: 0 }),
            c.stored_x == 0,
            c.selection_anchor is None,
    {
        Cursor { selection_anchor: None, position: Point { x: 1, y: 0 }, stored_x: 0 }
    }
}

/// Whether line `y` exists and its length fits a column.
pub open spec fn has_short_line(text: Seq<char>, y: nat) -> bool {
    y < line_count(text) && line_len(text, y) <= u16::MAX
}

fn line_length(rope: &Rope, y: usize) -> (r: Option<u16>)
    ensures
        r is Some <==> has_short_line(rope_text(*rope), y as nat),
        r matches Some(n) ==> n as nat == line_len(rope_text(*rope), y as nat),
{
    if y >= rope_len_lines(rope) {
        return None;
    }
    let begin = rope_line_to_char(rope, y);
    let end = rope_line_to_char(rope, y + 1);
    let n = if end >= begin { end - begin } else { 0 };
    if n > u16::MAX as usize {
        return None;
    }
    Some(n as u16)
}

/// Returns the position one to the left: the previous column, or from the first column
/// the end of the previous line. `None` at the start of the text, or where that line
/// is missing or too long for a column.
pub fn get_point_to_left(position: &Point, rope: &Rope) -> (r: Option<Point>)
    ensures
        position.x > 1 ==> r == Some(Point { x: (position.x - 1) as u16, y: position.y }),
        position.x <= 1 ==> {
            &&& r is Some <==> (position.y >= 1 && has_short_line(rope_text(*rope), (position.y - 1) as nat))
            &&& r matches Some(p) ==> p.y == position.y - 1 && p.x as nat == line_len(rope_text(*rope), (position.y - 1) as nat)
        },
{
    if position.x > 1 {
        return Some(Point { x: position.x - 1, y: position.y });
    }
    if position.y == 0 {
        return None;
    }
    let new_y = position.y - 1;
    match line_length(rope, new_y as usize) {
        Some(n) => Some(Point { x: n, y: new_y }),
        None => None,
    }
}

/// Returns the position one to the right: the next column, or from the end of a line
/// the first column of the next one. `None` where the line is missing or too long for
/// a column, or on the last row a position can name.
pub fn get_point_to_right(position: &Point, rope: &Rope) -> (r: Option<Point>)
    ensures
        r is Some <==> (has_short_line(rope_text(*rope), position.y as nat) && (position.x
            < line_len(rope_text(*rope), position.y as nat) || position.y < u16::MAX)),
        r matches Some(p) ==> if position.x < line_len(rope_text(*rope), position.y as nat) {
            p == Point { x: (position.x + 1) as u16, y: position.y }
        } else {
            p == Point { x: 1, y: (position.y + 1) as u16 }
        },
{
    let n = match line_length(rope, position.y as usize) {
        Some(n) => n,
        None => return None,
    };
    if position.x >= n {
        if position.y == u16::MAX {
            return None;
        }
        Some(Point { x: 1, y: position.y + 1 })
    } else {
        Some(Point { x: position.x + 1, y: position.y })
    }
}

/// Returns the column the cursor settles on in its line: the column it keeps, or its
/// own if further right, but not past the end of the line (nor left of column 1).
/// `None` where the line is missing or too long for a column.
pub fn get_new_x_position(cursor: &Cursor, rope: &Rope) -> (r: Option<u16>)
    ensures
        r is Some <==> has_short_line(rope_text(*rope), cursor.position.y as nat),
        r matches Some(x) ==> x == vstd::math::min(
            vstd::math::max(cursor.position.x as int, cursor.stored_x as int),
            vstd::math::max(1, line_len(rope_text(*rope), cursor.position.y as nat) as int),
        ),
{
    let n = match line_length(rope, cursor.position.y as usize) {
        Some(n) => n,
        None => return None,
    };
    let wanted = if cursor.position.x >= cursor.stored_x { cursor.position.x } else { cursor.stored_x };
    let limit = if n >= 1 { n } else { 1 };
    Some(if wanted <= limit { wanted } else { limit })
}

/// The name of a mode on the status line.
pub open spec fn mode_label(mode: Mode) -> Seq<char> {
    match mode {
        Mode::Normal => "NORMAL"@,
        Mode::Insert => "INSERT"@,
        Mode::Command => "COMMAND"@,
        Mode::Search => "SEARCH"@,
    }
}

/// Writes the client's mode at the right end of its bottom row, one column from the
/// edge, where its size is known and the label fits; otherwise changes nothing.
pub fn write_mode_status(back_buffer: &mut BackBuffer, client: &Client)
    ensures
        final(back_buffer).dim == old(back_buffer).dim,
        match client.size {
            Some(Rect { w, h }) => if w as nat >= mode_label(client.mode).len() + 1 && h >= 1 {
                final(back_buffer).cells@ == written_cells(
                    old(back_buffer).cells@,
                    old(back_buffer).dim.w as nat,
                    old(back_buffer).dim.h as nat,
                    (w - mode_label(client.mode).len() - 1) as nat,
                    (h - 1) as nat,
                    mode_label(client.mode),
                    None,
                    None,
                    None,
                )
            } else {
                *final(back_buffer) == *old(back_buffer)
            },
            None => *final(back_buffer) == *old(back_buffer),
        },
{
    if let Some(Rect { w, h }) = client.size {
        let label = match client.mode {
            Mode::Normal => "NORMAL",
            Mode::Insert => "INSERT",
            Mode::Command => "COMMAND",
            Mode::Search => "SEARCH",
        };
        let n = label.unicode_len();
        if (w as usize) <= n || h < 1 {
            return;
        }
        let x = (w as usize - n - 1) as u16;
        write_to_buffer(back_buffer, &Point { x, y: h - 1 }, label, None, None, None);
    }
}

/// Moves the cursor one step and scrolls the buffer to keep it in view. Left and right
/// cross line ends and set the kept column; up and down change rows within the text,
/// scrolling when the cursor leaves the rows shown (all but the status row of a
/// terminal `height` rows high). The column then settles within the line.
pub fn move_cursor_position(cursor: &mut Cursor, dir: Direction, current_buffer: &mut Buffer, height: u16)
    ensures
        final(current_buffer).rope == old(current_buffer).rope,
        final(current_buffer).source == old(current_buffer).source,
        *final(cursor) == moved_cursor(*old(cursor), dir, rope_text(old(current_buffer).rope)),
        final(current_buffer).start_line == scrolled(
            old(current_buffer).start_line,
            dir,
            moved_point(rope_text(old(current_buffer).rope), old(cursor).position, dir).y,
            height,
        ),
{
    let rope = &current_buffer.rope;
    match dir {
        Direction::Left => {
            if let Some(q) = get_point_to_left(&cursor.position, rope) {
                cursor.position = q;
            }
            cursor.stored_x = cursor.position.x;
        },
        Direction::Right => {
            if let Some(q) = get_point_to_right(&cursor.position, rope) {
                cursor.position = q;
            }
            cursor.stored_x = cursor.position.x;
        },
        Direction::Up => {
            if cursor.position.y > 0 {
                cursor.position.y = cursor.position.y - 1;
            }
            if (cursor.position.y as usize) < current_buffer.start_line {
                current_buffer.start_line = current_buffer.start_line - 1;
            }
        },
        Direction::Down => {
            let lines = rope_len_lines(&current_buffer.rope);
            if cursor.position.y < u16::MAX && (cursor.position.y as usize) < lines
                && lines - (cursor.position.y as usize) > 2 {
                cursor.position.y = cursor.position.y + 1;
            }
            if height >= 1 && current_buffer.start_line < usize::MAX - 0xffff
                && cursor.position.y as usize >= current_buffer.start_line + (height as usize - 1) {
                current_buffer.start_line = current_buffer.start_line + 1;
            }
        },
    }
    if let Some(x) = get_new_x_position(cursor, &current_buffer.rope) {
        cursor.position.x = x;
    }
}

/// Where one step in `dir` takes a position, before its column settles: left and right
/// cross line ends, up and down stay within the text's rows (the last, empty row after
/// a final line break is not entered).
pub open spec fn moved_point(text: Seq<char>, p: Point, dir: Direction) -> Point {
    match dir {
        Direction::Left => match left_of(text, p) {
            Some(q) => q,
            None => p,
        },
        Direction::Right => match right_of(text, p) {
            Some(q) => q,
            None => p,
        },
        Direction::Up => if p.y > 0 {
            Point { x: p.x, y: (p.y - 1) as u16 }
        } else {
            p
        },
        Direction::Down => if p.y + 2 < line_count(text) && p.y < u16::MAX {
            Point { x: p.x, y: (p.y + 1) as u16 }
        } else {
            p
        },
    }
}

/// The column a cursor settles on in row `y`: the kept column, or its own if further
/// right, within the line.
pub open spec fn settled_x(text: Seq<char>, x: u16, stored: u16, y: u16) -> u16 {
    if has_short_line(text, y as nat) {
        vstd::math::min(
            vstd::math::max(x as int, stored as int),
            vstd::math::max(1, line_len(text, y as nat) as int),
        ) as u16
    } else {
        x
    }
}

/// The cursor after one step in `dir`: left and right also set the kept column.
pub open spec fn moved_cursor(c: Cursor, dir: Direction, text: Seq<char>) -> Cursor {
    let moved = moved_point(text, c.position, dir);
    let stored = match dir {
        Direction::Left | Direction::Right => moved.x,
        _ => c.stored_x,
    };
    Cursor {
        position: Point { x: settled_x(text, moved.x, stored, moved.y), y: moved.y },
        stored_x: stored,
        selection_anchor: c.selection_anchor,
    }
}

/// The first row shown after the cursor moved to row `y`: one up when it went above the
/// rows shown, one down when it went below them.
pub open spec fn scrolled(start: usize, dir: Direction, y: u16, height: u16) -> usize {
    match dir {
        Direction::Up => if (y as int) < start && start > 0 {
            (start - 1) as usize
        } else {
            start
        },
        Direction::Down => if height >= 1 && y as int >= start + height - 1 && start < usize::MAX {
            (start + 1) as usize
        } else {
            start
        },
        _ => start,
    }
}

/// The position left of `p`, as `get_point_to_left` finds it.
pub open spec fn left_of(text: Seq<char>, p: Point) -> Option<Point> {
    if p.x > 1 {
        Some(Point { x: (p.x - 1) as u16, y: p.y })
    } else if p.y >= 1 && has_short_line(text, (p.y - 1) as nat) {
        Some(Point { x: line_len(text, (p.y - 1) as nat) as u16, y: (p.y - 1) as u16 })
    } else {
        None
    }
}

/// The position right of `p`, as `get_point_to_right` finds it.
pub open spec fn right_of(text: Seq<char>, p: Point) -> Option<Point> {
    if !has_short_line(text, p.y as nat) {
        None
    } else if p.x < line_len(text, p.y as nat) {
        Some(Point { x: (p.x + 1) as u16, y: p.y })
    } else if p.y < u16::MAX {
        Some(Point { x: 1, y: (p.y + 1) as u16 })
    } else {
        None
    }
}

/// The cursor of a buffer no client has moved yet.
pub open spec fn start_cursor() -> Cursor {
    Cursor { position: Point { x: 1, y: 0 }, stored_x: 0, selection_anchor: None }
}

/// Whether `a` comes before `b` in the text: an earlier row, or the same row and an
/// earlier column.
pub open spec fn point_before(a: Point, b: Point) -> bool {
    a.y < b.y || (a.y == b.y && a.x < b.x)
}

/// Where a deletion ends: at the selection's start, else at the cursor.
pub open spec fn deletion_end(c: Cursor) -> Point {
    match c.selection_anchor {
        Some(a) => a,
        None => c.position,
    }
}

/// The cursor after a deletion: the selection ends, the cursor goes back to where the
/// selection started if that was earlier, and keeps its new column.
pub open spec fn after_delete(c: Cursor) -> Cursor {
    let p = match c.selection_anchor {
        Some(a) => if point_before(a, c.position) {
            a
        } else {
            c.position
        },
        None => c.position,
    };
    Cursor { position: p, stored_x: p.x, selection_anchor: None }
}

/// The text between the cursor and the selection's start, both included, where both
/// name chars of the text.
pub open spec fn yank_text(text: Seq<char>, p: Point, a: Point) -> Option<Seq<char>> {
    if position_in_range(text, p) && position_in_range(text, a) && vstd::math::max(
        rope_index(text, p),
        rope_index(text, a),
    ) < text.len() {
        let lo = vstd::math::min(rope_index(text, p), rope_index(text, a));
        let hi = vstd::math::max(rope_index(text, p), rope_index(text, a));
        Some(text.subrange(lo, hi + 1))
    } else {
        None
    }
}

/// The cursor after a command from a client in `mode`. Moves may extend or end the
/// selection and, outside command mode, move the cursor; mode changes and typing end
/// the selection; deletions outside command mode end it as `after_delete` says (from
/// the start of the text there is nothing to delete before the cursor); jumps go to
/// the end or the start of the line.
pub open spec fn cursor_after(c: Cursor, mode: Mode, cmd: Cmd, text: Seq<char>) -> Cursor {
    match cmd {
        Cmd::MoveCursor(dir, selecting) => {
            let anchor = if selecting {
                if c.selection_anchor is None {
                    Some(c.position)
                } else {
                    c.selection_anchor
                }
            } else {
                None
            };
            let c1 = Cursor { selection_anchor: anchor, ..c };
            if mode != Mode::Command {
                moved_cursor(c1, dir, text)
            } else {
                c1
            }
        },
        Cmd::ChangeMode(_) => Cursor { selection_anchor: None, ..c },
        Cmd::InsertChar(_) => if mode != Mode::Command {
            Cursor { selection_anchor: None, ..c }
        } else {
            c
        },
        Cmd::DeleteChar(DeleteDirection::After) => if mode != Mode::Command {
            after_delete(c)
        } else {
            c
        },
        Cmd::DeleteChar(DeleteDirection::Before) => if mode != Mode::Command && left_of(
            text,
            c.position,
        ) is Some {
            after_delete(c)
        } else {
            c
        },
        Cmd::Jump(JumpType::EndOfLine) => if has_short_line(text, c.position.y as nat) {
            Cursor {
                position: Point { x: line_len(text, c.position.y as nat) as u16, y: c.position.y },
                ..c
            }
        } else {
            c
        },
        Cmd::Jump(JumpType::StartOfLine) => Cursor {
            position: Point { x: 1, y: c.position.y },
            ..c
        },
        _ => c,
    }
}

/// What the cursor module sends for a command: typing inserts at the cursor and moves
/// right; deleting removes the selection (or the char under the cursor), or the char
/// before the cursor, and announces the change; yanking sends the selected text;
/// pasting asks for the register at the cursor. Command mode leaves typing and
/// deleting to the command line.
pub open spec fn cursor_reply_ok(r: Seq<Cmd>, c: Cursor, mode: Mode, cmd: Cmd, text: Seq<char>) -> bool {
    match cmd {
        Cmd::InsertChar(ch) => r == if mode != Mode::Command {
            seq![Cmd::InsertCharAtPoint(ch, c.position), Cmd::MoveCursor(Direction::Right, false)]
        } else {
            Seq::<Cmd>::empty()
        },
        Cmd::DeleteChar(DeleteDirection::After) => r == if mode != Mode::Command {
            seq![Cmd::DeleteCharRange(c.position, deletion_end(c)), Cmd::BufferModified]
        } else {
            Seq::<Cmd>::empty()
        },
        Cmd::DeleteChar(DeleteDirection::Before) => r == if mode != Mode::Command {
            match left_of(text, c.position) {
                Some(d) => seq![
                    Cmd::MoveCursor(Direction::Left, false),
                    Cmd::DeleteCharRange(d, d),
                    Cmd::BufferModified,
                ],
                None => Seq::<Cmd>::empty(),
            }
        } else {
            Seq::<Cmd>::empty()
        },
        Cmd::Yank => match c.selection_anchor {
            Some(a) => match yank_text(text, c.position, a) {
                Some(t) => r.len() == 1 && (r[0] matches Cmd::YankValue(s) && s@ == t),
                None => r.len() == 0,
            },
            None => r.len() == 0,
        },
        Cmd::Paste => r == seq![Cmd::PasteAtPoint(c.position)],
        _ => r.len() == 0,
    }
}

/// The cursor module's state: one cursor per buffer, shared by the clients showing it.
pub struct CursorState {
    pub buffers: Vec<BufferIndex>,
    pub cursors: Vec<Cursor>,
}

impl CursorState {
    /// One cursor per listed buffer, no buffer listed twice.
    pub open spec fn wf(&self) -> bool {
        &&& self.buffers@.len() == self.cursors@.len()
        &&& self.buffers@.no_duplicates()
    }

    /// The cursor of a buffer: the one kept for it, else where every cursor starts.
    pub open spec fn cursor_for(&self, b: BufferIndex) -> Cursor {
        if self.buffers@.contains(b) {
            self.cursors@[choose|i: int| 0 <= i < self.buffers@.len() && self.buffers@[i] == b]
        } else {
            start_cursor()
        }
    }

    proof fn lemma_cursor_at(&self, i: int)
        requires
            self.wf(),
            0 <= i < self.buffers@.len(),
        ensures
            self.cursor_for(self.buffers@[i]) == self.cursors@[i],
    {
        let b = self.buffers@[i];
        assert(self.buffers@.contains(b));
        let j = choose|j: int| 0 <= j < self.buffers@.len() && self.buffers@[j] == b;
        assert(j == i);
    }

    /// No cursor kept yet.
    pub fn new() -> (s: CursorState)
        ensures
            s.wf(),
            forall|b: BufferIndex| s.cursor_for(b) == start_cursor(),
    {
        CursorState { buffers: Vec::new(), cursors: Vec::new() }
    }

    fn slot(&mut self, b: BufferIndex) -> (i: usize)
        requires
            old(self).wf(),
        ensures
            final(self).wf(),
            i < final(self).buffers@.len(),
            final(self).buffers@[i as int] == b,
            forall|b2: BufferIndex| final(self).cursor_for(b2) == old(self).cursor_for(b2),
    {
        let mut i: usize = 0;
        while i < self.buffers.len()
            invariant
                self.wf(),
                *self == *old(self),
                i <= self.buffers@.len(),
                forall|j: int| 0 <= j < i ==> self.buffers@[j] != b,
            decreases self.buffers@.len() - i,
        {
            if self.buffers[i] == b {
                return i;
            }
            i = i + 1;
        }
        let ghost before = *self;
        self.buffers.push(b);
        self.cursors.push(Cursor::default());
        proof {
            assert(!before.buffers@.contains(b));
            assert forall|p: int, q: int| 0 <= p < q < self.buffers@.len() implies self.buffers@[p] != self.buffers@[q] by {
                if q == i {
                    assert(self.buffers@[p] == before.buffers@[p]);
                } else {
                    assert(before.buffers@[p] != before.buffers@[q]);
                }
            }
            assert forall|b2: BufferIndex| self.cursor_for(b2) == before.cursor_for(b2) by {
                if b2 == b {
                    self.lemma_cursor_at(i as int);
                } else if before.buffers@.contains(b2) {
                    let j = choose|j: int| 0 <= j < before.buffers@.len() && before.buffers@[j] == b2;
                    before.lemma_cursor_at(j);
                    self.lemma_cursor_at(j);
                    assert(self.buffers@[j] == b2);
                } else {
                    assert(!self.buffers@.contains(b2)) by {
                        if self.buffers@.contains(b2) {
                            let j = choose|j: int| 0 <= j < self.buffers@.len() && self.buffers@[j] == b2;
                            assert(j < before.buffers@.len());
                            assert(before.buffers@[j] == b2);
                        }
                    }
                }
            }
        }
        i
    }

    fn store(&mut self, i: usize, c: Cursor)
        requires
            old(self).wf(),
            i < old(self).buffers@.len(),
        ensures
            final(self).wf(),
            final(self).buffers == old(self).buffers,
            final(self).cursor_for(old(self).buffers@[i as int]) == c,
            forall|b2: BufferIndex| b2 != old(self).buffers@[i as int] ==> final(self).cursor_for(b2) == old(self).cursor_for(b2),
    {
        let ghost before = *self;
        self.cursors.set(i, c);
        proof {
            self.lemma_cursor_at(i as int);
            assert forall|b2: BufferIndex| b2 != before.buffers@[i as int] implies self.cursor_for(b2) == before.cursor_for(b2) by {
                if before.buffers@.contains(b2) {
                    let j = choose|j: int| 0 <= j < before.buffers@.len() && before.buffers@[j] == b2;
                    before.lemma_cursor_at(j);
                    self.lemma_cursor_at(j);
                }
            }
        }
    }

    /// Handles one command for a live client: moves, selects, jumps and the other
    /// cursor commands act on the cursor of the client's buffer, mode changes set the
    /// client's mode, moves scroll the buffer, and the commands for the other modules
    /// are returned in the order to send them.
    pub fn update(&mut self, g: &mut GlobalData, client: ClientIndex, cmd: &Cmd) -> (r: Vec<Cmd>)
        requires
            old(self).wf(),
            old(g).wf(),
            old(g).client_map().contains_key(client),
        ensures
            final(self).wf(),
            final(g).wf(),
            ({
                let before = old(g).client_map()[client];
                let b = before.buffer;
                let text = rope_text(old(g).buffer_map()[b].rope);
                let c = old(self).cursor_for(b);
                let height: u16 = match before.size {
                    Some(s) => s.h,
                    None => 0,
                };
                let start = old(g).buffer_map()[b].start_line;
                &&& final(self).cursor_for(b) == cursor_after(c, before.mode, *cmd, text)
                &&& forall|b2: BufferIndex| b2 != b ==> final(self).cursor_for(b2) == old(self).cursor_for(b2)
                &&& cursor_reply_ok(r@, c, before.mode, *cmd, text)
                &&& final(g).client_map() == old(g).client_map().insert(
                    client,
                    Client {
                        mode: match *cmd {
                            Cmd::ChangeMode(m) => m,
                            _ => before.mode,
                        },
                        ..before
                    },
                )
                &&& final(g).buffer_map() == old(g).buffer_map().insert(
                    b,
                    Buffer {
                        start_line: match *cmd {
                            Cmd::MoveCursor(dir, _) => if before.mode != Mode::Command {
                                scrolled(start, dir, moved_point(text, c.position, dir).y, height)
                            } else {
                                start
                            },
                            _ => start,
                        },
                        ..old(g).buffer_map()[b]
                    },
                )
            }),
    {
        let b = g.client(client).buffer;
        let mode = g.client(client).mode;
        let height: u16 = match g.client(client).size {
            Some(s) => s.h,
            None => 0,
        };
        let in_command = match mode {
            Mode::Command => true,
            _ => false,
        };
        let ghost g0 = *g;
        let i = self.slot(b);
        proof {
            self.lemma_cursor_at(i as int);
        }
        let mut c = self.cursors[i];
        let mut sent: Vec<Cmd> = Vec::new();
        match cmd {
            Cmd::MoveCursor(dir, selecting) => {
                if *selecting {
                    if c.selection_anchor.is_none() {
                        c.selection_anchor = Some(c.position);
                    }
                } else {
                    c.selection_anchor = None;
                }
                if !in_command {
                    let buf = buffer_at_mut(&mut g.buffers, b);
                    move_cursor_position(&mut c, *dir, buf, height);
                }
            },
            Cmd::ChangeMode(m) => {
                set_client_mode(g, client, *m);
                c.selection_anchor = None;
            },
            Cmd::InsertChar(ch) => {
                if !in_command {
                    sent.push(Cmd::InsertCharAtPoint(*ch, c.position));
                    sent.push(Cmd::MoveCursor(Direction::Right, false));
                    c.selection_anchor = None;
                }
            },
            Cmd::DeleteChar(dir) => {
                if !in_command {
                    let mut deleting = true;
                    match dir {
                        DeleteDirection::After => {
                            let end = match c.selection_anchor {
                                Some(a) => a,
                                None => c.position,
                            };
                            sent.push(Cmd::DeleteCharRange(c.position, end));
                        },
                        DeleteDirection::Before => {
                            match get_point_to_left(&c.position, &g.buffer(b).rope) {
                                Some(d) => {
                                    sent.push(Cmd::MoveCursor(Direction::Left, false));
                                    sent.push(Cmd::DeleteCharRange(d, d));
                                },
                                None => {
                                    deleting = false;
                                },
                            }
                        },
                    }
                    if deleting {
                        sent.push(Cmd::BufferModified);
                        if let Some(a) = c.selection_anchor {
                            if a.y < c.position.y || (a.y == c.position.y && a.x < c.position.x) {
                                c.position = a;
                            }
                        }
                        c.selection_anchor = None;
                        c.stored_x = c.position.x;
                    }
                }
            },
            Cmd::Jump(JumpType::EndOfLine) => {
                if let Some(n) = line_length(&g.buffer(b).rope, c.position.y as usize) {
                    c.position.x = n;
                }
            },
            Cmd::Jump(JumpType::StartOfLine) => {
                c.position.x = 1;
            },
            Cmd::Yank => {
                if let Some(a) = c.selection_anchor {
                    let rope = &g.buffer(b).rope;
                    match (checked_ropey_index(&c.position, rope), checked_ropey_index(&a, rope)) {
                        (Some(p), Some(q)) => {
                            let (lo, hi) = if p < q { (p, q) } else { (q, p) };
                            if hi < rope_len_chars(rope) {
                                sent.push(Cmd::YankValue(rope_text_between(rope, lo, hi)));
                            }
                        },
                        _ => {},
                    }
                }
            },
            Cmd::Paste => {
                sent.push(Cmd::PasteAtPoint(c.position));
            },
            _ => {},
        }
        self.store(i, c);
        proof {
            assert(g.buffer_map() =~= g0.buffer_map().insert(b, g.buffer_map()[b]));
            assert(g.client_map() =~= g0.client_map().insert(client, g.client_map()[client]));
            if sent@.len() == 2 {
                assert(sent@ =~= seq![sent@[0], sent@[1]]);
            }
            if sent@.len() == 3 {
                assert(sent@ =~= seq![sent@[0], sent@[1], sent@[2]]);
            }
            if sent@.len() == 1 {
                assert(sent@ =~= seq![sent@[0]]);
            }
        }
        sent
    }
}

/// The background of selected text.
pub open spec fn selection_color() -> Color {
    Color { r: 0, g: 50, b: 200 }
}

/// Where the selection between the cursor and `anchor` starts on the screen, with the
/// buffer shown from line `start_line`: at whichever of the two comes first, right of
/// the line-number gutter.
pub open spec fn selection_origin(position: Point, anchor: Point, start_line: usize) -> Option<Point> {
    let first = if point_before(position, anchor) { position } else { anchor };
    if first.y < start_line || first.x + 3 > u16::MAX {
        None
    } else {
        Some(Point { x: (first.x + 3) as u16, y: (first.y - start_line) as u16 })
    }
}

/// Gives the selected text the selection background, line by line, where the cursor has
/// a selection whose ends name chars of the text and whose start is on the screen;
/// otherwise changes nothing.
pub fn apply_selection_style(back_buffer: &mut BackBuffer, cursor: &Cursor, rope: &Rope, start_line: usize)
    requires
        old(back_buffer).wf(),
    ensures
        final(back_buffer).dim == old(back_buffer).dim,
        ({
            let text = rope_text(*rope);
            match cursor.selection_anchor {
                Some(a) => match (yank_text(text, cursor.position, a), selection_origin(cursor.position, a, start_line)) {
                    (Some(selected), Some(origin)) => final(back_buffer).cells@ == styled_lines(
                        old(back_buffer).cells@,
                        old(back_buffer).dim.w as nat,
                        selected,
                        0,
                        origin.x as nat,
                        origin.y as nat,
                        None,
                        None,
                        Some(selection_color()),
                    ),
                    _ => *final(back_buffer) == *old(back_buffer),
                },
                None => *final(back_buffer) == *old(back_buffer),
            }
        }),
{
    let a = match cursor.selection_anchor {
        Some(a) => a,
        None => return,
    };
    let p = match checked_ropey_index(&cursor.position, rope) {
        Some(i) => i,
        None => return,
    };
    let q = match checked_ropey_index(&a, rope) {
        Some(i) => i,
        None => return,
    };
    let (lo, hi) = if p < q { (p, q) } else { (q, p) };
    if hi >= rope_len_chars(rope) {
        return;
    }
    let first = if cursor.position.y < a.y || (cursor.position.y == a.y && cursor.position.x < a.x) {
        cursor.position
    } else {
        a
    };
    if (first.y as usize) < start_line || first.x > u16::MAX - 3 {
        return;
    }
    let origin = Point { x: first.x + 3, y: (first.y as usize - start_line) as u16 };
    let slice = rope_slice(rope, lo, hi);
    style_rope_slice_range(back_buffer, &slice, origin, None, None, Some(Color { r: 0, g: 50, b: 200 }));
}

} // verus!
