use vstd::prelude::*;
use crate::event_loop::Key;
use crate::types::{Cmd, DeleteDirection, Direction, JumpType, Mode};

verus! {

/// The cursor move an arrow key asks for in every mode.
pub open spec fn arrow_commands(key: Key) -> Seq<Cmd> {
    match key {
        Key::Left => seq![Cmd::MoveCursor(Direction::Left, false)],
        Key::Right => seq![Cmd::MoveCursor(Direction::Right, false)],
        Key::Up => seq![Cmd::MoveCursor(Direction::Up, false)],
        Key::Down => seq![Cmd::MoveCursor(Direction::Down, false)],
        _ => seq![],
    }
}

/// The commands a key asks for in a given mode, besides the arrow keys' moves. In
/// normal mode letters move (`hjkl`, capitals to select), switch mode (`i`, `a`, `A`,
/// `I`, `:`) or delete (`d`), and `Ctrl-p` searches for files; in insert mode letters
/// are typed, `Esc` leaves and `Backspace` deletes; command mode types too, and a line
/// break runs the command.
pub open spec fn mode_commands(mode: Mode, key: Key) -> Seq<Cmd> {
    match mode {
        Mode::Normal => match key {
            Key::Char('i') => seq![Cmd::ChangeMode(Mode::Insert)],
            Key::Char('l') => seq![Cmd::MoveCursor(Direction::Right, false)],
            Key::Char('h') => seq![Cmd::MoveCursor(Direction::Left, false)],
            Key::Char('j') => seq![Cmd::MoveCursor(Direction::Down, false)],
            Key::Char('k') => seq![Cmd::MoveCursor(Direction::Up, false)],
            Key::Char('L') => seq![Cmd::MoveCursor(Direction::Right, true)],
            Key::Char('H') => seq![Cmd::MoveCursor(Direction::Left, true)],
            Key::Char('J') => seq![Cmd::MoveCursor(Direction::Down, true)],
            Key::Char('K') => seq![Cmd::MoveCursor(Direction::Up, true)],
            Key::Char('d') => seq![Cmd::DeleteChar(DeleteDirection::After)],
            Key::Char('a') => seq![
                Cmd::MoveCursor(Direction::Right, false),
                Cmd::ChangeMode(Mode::Insert),
            ],
            Key::Char('A') => seq![Cmd::Jump(JumpType::EndOfLine), Cmd::ChangeMode(Mode::Insert)],
            Key::Char('I') => seq![Cmd::Jump(JumpType::StartOfLine), Cmd::ChangeMode(Mode::Insert)],
            Key::Char(':') => seq![Cmd::ChangeMode(Mode::Command)],
            Key::Ctrl('p') => seq![Cmd::SearchFiles],
            _ => seq![],
        },
        Mode::Insert => match key {
            Key::Esc => seq![Cmd::ChangeMode(Mode::Normal)],
            Key::Backspace => seq![Cmd::DeleteChar(DeleteDirection::Before)],
            Key::Char(c) => seq![Cmd::InsertChar(c)],
            _ => seq![],
        },
        Mode::Command => match key {
            Key::Char('\n') => seq![Cmd::RunCommand],
            Key::Char(c) => seq![Cmd::InsertChar(c)],
            Key::Backspace => seq![Cmd::DeleteChar(DeleteDirection::Before)],
            Key::Esc => seq![Cmd::ChangeMode(Mode::Normal)],
            _ => seq![],
        },
        Mode::Search => seq![],
    }
}

fn mode_commands_exec(mode: Mode, key: Key) -> (r: Vec<Cmd>)
    ensures
        r@ == mode_commands(mode, key),
{
    match mode {
        Mode::Normal => match key {
            Key::Char('i') => vec![Cmd::ChangeMode(Mode::Insert)],
            Key::Char('l') => vec![Cmd::MoveCursor(Direction::Right, false)],
            Key::Char('h') => vec![Cmd::MoveCursor(Direction::Left, false)],
            Key::Char('j') => vec![Cmd::MoveCursor(Direction::Down, false)],
            Key::Char('k') => vec![Cmd::MoveCursor(Direction::Up, false)],
            Key::Char('L') => vec![Cmd::MoveCursor(Direction::Right, true)],
            Key::Char('H') => vec![Cmd::MoveCursor(Direction::Left, true)],
            Key::Char('J') => vec![Cmd::MoveCursor(Direction::Down, true)],
            Key::Char('K') => vec![Cmd::MoveCursor(Direction::Up, true)],
            Key::Char('d') => vec![Cmd::DeleteChar(DeleteDirection::After)],
            Key::Char('a') => vec![
                Cmd::MoveCursor(Direction::Right, false),
                Cmd::ChangeMode(Mode::Insert),
            ],
            Key::Char('A') => vec![Cmd::Jump(JumpType::EndOfLine), Cmd::ChangeMode(Mode::Insert)],
            Key::Char('I') => vec![Cmd::Jump(JumpType::StartOfLine), Cmd::ChangeMode(Mode::Insert)],
            Key::Char(':') => vec![Cmd::ChangeMode(Mode::Command)],
            Key::Ctrl('p') => vec![Cmd::SearchFiles],
            _ => Vec::new(),
        },
        Mode::Insert => match key {
            Key::Esc => vec![Cmd::ChangeMode(Mode::Normal)],
            Key::Backspace => vec![Cmd::DeleteChar(DeleteDirection::Before)],
            Key::Char(c) => vec![Cmd::InsertChar(c)],
            _ => Vec::new(),
        },
        Mode::Command => match key {
            Key::Char('\n') => vec![Cmd::RunCommand],
            Key::Char(c) => vec![Cmd::InsertChar(c)],
            Key::Backspace => vec![Cmd::DeleteChar(DeleteDirection::Before)],
            Key::Esc => vec![Cmd::ChangeMode(Mode::Normal)],
            _ => Vec::new(),
        },
        Mode::Search => Vec::new(),
    }
}

/// Returns the commands a key read from a client's terminal asks for, in order: an
/// arrow key's cursor move first, then what the key means in the client's mode.
pub fn commands_for_key(mode: Mode, key: Key) -> (r: Vec<Cmd>)
    ensures
        r@ == arrow_commands(key) + mode_commands(mode, key),
{
    let mut r = match key {
        Key::Left => vec![Cmd::MoveCursor(Direction::Left, false)],
        Key::Right => vec![Cmd::MoveCursor(Direction::Right, false)],
        Key::Up => vec![Cmd::MoveCursor(Direction::Up, false)],
        Key::Down => vec![Cmd::MoveCursor(Direction::Down, false)],
        _ => Vec::new(),
    };
    let mut rest = mode_commands_exec(mode, key);
    r.append(&mut rest);
    r
}

} // verus!
