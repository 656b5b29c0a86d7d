use vstd::prelude::*;
use ropey::Rope;
use slotmap::DefaultKey;

verus! {

/// A 24-bit terminal color.
#[derive(Debug, Clone, Copy, PartialEq, Eq, Structural)]
pub struct Color {
    pub r: u8,
    pub g: u8,
    pub b: u8,
}

/// A text attribute of one cell.
#[derive(Debug, Clone, Copy, PartialEq, Eq, Structural)]
pub enum Style {
    Underlined,
    Highlighted,
    Bold,
}

/// One terminal character slot.
#[derive(Debug, Clone, Copy, PartialEq, Eq, Structural)]
pub struct Cell {
    pub value: Option<char>,
    pub fg: Option<Color>,
    pub bg: Option<Color>,
    pub style: Option<Style>,
}

/// A cell with no glyph, no colors and no style.
pub open spec fn blank_cell() -> Cell {
    Cell { value: None, fg: None, bg: None, style: None }
}

impl Default for Cell {
    fn default() -> (c: Cell)
        ensures
            c == blank_cell(),
    {
        Cell { value: None, fg: None, bg: None, style: None }
    }
}

/// A position on the screen: row `y`, column `x`. Positions order by row, then column.
#[derive(Debug, Clone, Copy, PartialEq, Eq, PartialOrd, Structural)]
pub struct Point {
    pub y: u16,
    pub x: u16,
}

impl Default for Point {
    fn default() -> (p: Point)
        ensures
            p.x == 0 && p.y == 0,
    {
        Point { y: 0, x: 0 }
    }
}

/// The size of a terminal: `w` columns by `h` rows.
#[derive(Debug, Clone, Copy, PartialEq, Eq, Structural)]
pub struct Rect {
    pub w: u16,
    pub h: u16,
}

impl Default for Rect {
    fn default() -> (r: Rect)
        ensures
            r.w == 0 && r.h == 0,
    {
        Rect { w: 0, h: 0 }
    }
}

/// One frame of one client: a row-major grid of cells with its size.
#[derive(Debug, Clone)]
pub struct BackBuffer {
    pub dim: Rect,
    pub cells: Vec<Cell>,
}

impl BackBuffer {
    /// The grid holds exactly `width * height` cells.
    pub open spec fn wf(&self) -> bool {
        self.cells@.len() == self.dim.w as nat * self.dim.h as nat
    }
}

impl Default for BackBuffer {
    fn default() -> (b: BackBuffer)
        ensures
            b.dim.w == 0 && b.dim.h == 0 && b.cells@.len() == 0,
    {
        BackBuffer { dim: Rect { w: 0, h: 0 }, cells: Vec::new() }
    }
}

/// The editing mode of a client.
#[derive(Debug, Clone, Copy, PartialEq, Eq, Structural)]
pub enum Mode {
    Normal,
    Insert,
    Command,
    Search,
}

/// A direction of cursor movement.
#[derive(Debug, Clone, Copy, PartialEq, Eq, Structural)]
pub enum Direction {
    Left,
    Right,
    Up,
    Down,
}

/// Which side of the cursor a deletion takes.
#[derive(Debug, Clone, Copy, PartialEq, Eq, Structural)]
pub enum DeleteDirection {
    Before,
    After,
}

/// Where a cursor jump goes.
#[derive(Debug, Clone, Copy, PartialEq, Eq, Structural)]
pub enum JumpType {
    EndOfLine,
    StartOfLine,
    BeginningOfBuffer,
    EndOfBuffer,
    StartOfWord,
    EndOfWord,
    MatchingBrace,
}

/// A handle to a connected client: a slot number with a generation.
pub type ClientIndex = DefaultKey;

/// A handle to an open buffer: a slot number with a generation.
pub type BufferIndex = DefaultKey;

/// A domain command. The runtime itself acts on `Quit`, `Kill`, `CleanRender` and
/// `ResizeClient`; the others are handed to the extension modules as they are.
/// Paths are held as text.
#[derive(Debug, Clone, PartialEq)]
pub enum Cmd {
    MoveCursor(Direction, bool),
    Quit,
    Kill,
    ChangeMode(Mode),
    InsertChar(char),
    InsertCharAtPoint(char, Point),
    InsertStringAtPoint(String, Point),
    DeleteCharRange(Point, Point),
    DeleteChar(DeleteDirection),
    Jump(JumpType),
    RunCommand,
    WriteBuffer(String),
    LoadFile(String),
    BufferLoaded,
    BufferModified,
    SearchFiles,
    CleanRender,
    ResizeClient(Rect),
    Yank,
    YankValue(String),
    Paste,
    PasteAtPoint(Point),
}

/// The envelope of a command sent from another process: which client, what command.
#[derive(Debug, PartialEq)]
pub struct RemoteCommand(pub ClientIndex, pub Cmd);

/// The envelope that tells a newly connected client its own index.
#[derive(Debug, PartialEq)]
pub struct InitializeClient(pub ClientIndex);

/// An open text buffer: its text, the path it was loaded from and its scroll offset.
#[derive(Debug)]
pub struct Buffer {
    pub rope: Rope,
    pub source: String,
    pub start_line: usize,
}

/// The editor-side state of a connected client. Its connection is held by the
/// runtime beside the registry, under the same index.
#[derive(Debug)]
pub struct Client {
    pub buffer: BufferIndex,
    pub mode: Mode,
    pub back_buffer: BackBuffer,
    pub size: Option<Rect>,
}

} // verus!
