use myedit::back_buffer::create_back_buffer;
use myedit::command::{run_command_line, CommandLine};
use myedit::cursor::{
    apply_selection_style, get_new_x_position, get_point_to_left, get_point_to_right,
    move_cursor_position,
    write_mode_status, Cursor, CursorState,
};
use myedit::registers::Registers;
use myedit::types::{BackBuffer, Buffer, Client, Rect};
use myedit::edit::edit_buffer;
use myedit::event_loop::Key;
use myedit::input::commands_for_key;
use myedit::state::{add_client, initial_state, load_buffer};
use myedit::types::{Cmd, DeleteDirection, Direction, JumpType, Mode, Point};
use ropey::Rope;

#[test]
fn test_update_delete_char_range() {
    let mut global_data = initial_state();
    let client = add_client(&mut global_data).unwrap();
    let rope = Rope::from_str("test someting with \nlots of test data");
    let buffer = load_buffer(&mut global_data, client, String::new(), rope).unwrap();
    let start_point = Point { x: 5, y: 0 };
    let end_point = Point { x: 5, y: 1 };
    let cmd = Cmd::DeleteCharRange(start_point, end_point);
    let sent = edit_buffer(&mut global_data, client, &cmd);
    assert_eq!(sent, Some(Cmd::BufferModified));
    assert_eq!(
        String::from(global_data.buffer(buffer).rope.clone()).as_str(),
        "testof test data"
    );
}

#[test]
fn inserts_go_in_at_the_cursor() {
    let mut g = initial_state();
    let client = add_client(&mut g).unwrap();
    let buffer = load_buffer(&mut g, client, String::from("a.txt"), Rope::from_str("ab\ncd")).unwrap();
    let sent = edit_buffer(&mut g, client, &Cmd::InsertCharAtPoint('X', Point { x: 2, y: 1 }));
    assert_eq!(sent, Some(Cmd::BufferModified));
    assert_eq!(String::from(g.buffer(buffer).rope.clone()), "ab\ncXd");
    let sent = edit_buffer(
        &mut g,
        client,
        &Cmd::InsertStringAtPoint(String::from("yz"), Point { x: 1, y: 0 }),
    );
    assert_eq!(sent, Some(Cmd::BufferModified));
    assert_eq!(String::from(g.buffer(buffer).rope.clone()), "yzab\ncXd");
}

#[test]
fn edits_outside_the_text_change_nothing() {
    let mut g = initial_state();
    let client = add_client(&mut g).unwrap();
    let buffer = load_buffer(&mut g, client, String::from("a.txt"), Rope::from_str("ab")).unwrap();
    assert_eq!(edit_buffer(&mut g, client, &Cmd::InsertCharAtPoint('X', Point { x: 0, y: 0 })), None);
    assert_eq!(edit_buffer(&mut g, client, &Cmd::InsertCharAtPoint('X', Point { x: 9, y: 0 })), None);
    assert_eq!(edit_buffer(&mut g, client, &Cmd::InsertCharAtPoint('X', Point { x: 1, y: 4 })), None);
    assert_eq!(
        edit_buffer(&mut g, client, &Cmd::DeleteCharRange(Point { x: 1, y: 0 }, Point { x: 3, y: 0 })),
        None
    );
    assert_eq!(edit_buffer(&mut g, client, &Cmd::Paste), None);
    assert_eq!(String::from(g.buffer(buffer).rope.clone()), "ab");
}

#[test]
fn keys_map_to_commands_by_mode() {
    assert_eq!(commands_for_key(Mode::Normal, Key::Char('i')), vec![Cmd::ChangeMode(Mode::Insert)]);
    assert_eq!(
        commands_for_key(Mode::Normal, Key::Char('K')),
        vec![Cmd::MoveCursor(Direction::Up, true)]
    );
    assert_eq!(
        commands_for_key(Mode::Normal, Key::Char('A')),
        vec![Cmd::Jump(JumpType::EndOfLine), Cmd::ChangeMode(Mode::Insert)]
    );
    assert_eq!(commands_for_key(Mode::Normal, Key::Ctrl('p')), vec![Cmd::SearchFiles]);
    assert_eq!(commands_for_key(Mode::Normal, Key::Char('z')), vec![]);
    assert_eq!(commands_for_key(Mode::Insert, Key::Char('z')), vec![Cmd::InsertChar('z')]);
    assert_eq!(
        commands_for_key(Mode::Insert, Key::Backspace),
        vec![Cmd::DeleteChar(DeleteDirection::Before)]
    );
    assert_eq!(commands_for_key(Mode::Command, Key::Char('\n')), vec![Cmd::RunCommand]);
    assert_eq!(commands_for_key(Mode::Command, Key::Esc), vec![Cmd::ChangeMode(Mode::Normal)]);
    assert_eq!(commands_for_key(Mode::Search, Key::Char('x')), vec![]);
}

#[test]
fn arrow_keys_move_in_every_mode() {
    assert_eq!(
        commands_for_key(Mode::Insert, Key::Left),
        vec![Cmd::MoveCursor(Direction::Left, false)]
    );
    assert_eq!(
        commands_for_key(Mode::Search, Key::Down),
        vec![Cmd::MoveCursor(Direction::Down, false)]
    );
}

#[test]
fn command_lines_become_commands() {
    let source = String::from("main.rs");
    let back = Cmd::ChangeMode(Mode::Normal);
    assert_eq!(
        run_command_line("w", &source),
        vec![Cmd::WriteBuffer(String::from("main.rs")), back.clone()]
    );
    assert_eq!(
        run_command_line("w other.rs", &source),
        vec![Cmd::WriteBuffer(String::from("other.rs")), back.clone()]
    );
    assert_eq!(
        run_command_line("e lib.rs", &source),
        vec![Cmd::LoadFile(String::from("lib.rs")), back.clone()]
    );
    assert_eq!(run_command_line("q", &source), vec![Cmd::Quit, back.clone()]);
    assert_eq!(
        run_command_line("wq", &source),
        vec![Cmd::WriteBuffer(String::from("main.rs")), Cmd::Quit, back.clone()]
    );
    assert_eq!(run_command_line("kill", &source), vec![Cmd::Kill, back.clone()]);
    assert_eq!(run_command_line("help", &source), vec![back.clone()]);
    assert_eq!(run_command_line("", &source), vec![back]);
}

#[test]
fn cursor_moves_across_line_ends() {
    let rope = Rope::from_str("abc\nde\n");
    assert_eq!(get_point_to_left(&Point { x: 3, y: 1 }, &rope), Some(Point { x: 2, y: 1 }));
    assert_eq!(get_point_to_left(&Point { x: 1, y: 1 }, &rope), Some(Point { x: 4, y: 0 }));
    assert_eq!(get_point_to_left(&Point { x: 1, y: 0 }, &rope), None);
    assert_eq!(get_point_to_right(&Point { x: 1, y: 0 }, &rope), Some(Point { x: 2, y: 0 }));
    assert_eq!(get_point_to_right(&Point { x: 4, y: 0 }, &rope), Some(Point { x: 1, y: 1 }));
    assert_eq!(get_point_to_right(&Point { x: 1, y: 3 }, &rope), None);
}

#[test]
fn cursor_column_is_kept_within_the_line() {
    let rope = Rope::from_str("abcdef\nxy\n\n");
    let cursor = Cursor { position: Point { x: 2, y: 1 }, stored_x: 5, selection_anchor: None };
    assert_eq!(get_new_x_position(&cursor, &rope), Some(3));
    let cursor = Cursor { position: Point { x: 2, y: 0 }, stored_x: 5, selection_anchor: None };
    assert_eq!(get_new_x_position(&cursor, &rope), Some(5));
    let cursor = Cursor { position: Point { x: 3, y: 3 }, stored_x: 0, selection_anchor: None };
    assert_eq!(get_new_x_position(&cursor, &rope), Some(1));
    let cursor = Cursor { position: Point { x: 3, y: 4 }, stored_x: 0, selection_anchor: None };
    assert_eq!(get_new_x_position(&cursor, &rope), None);
    assert_eq!(Cursor::default().position, Point { x: 1, y: 0 });
}

#[test]
fn yanked_text_is_pasted_at_the_point() {
    let mut r = Registers::new();
    assert_eq!(r.update(&Cmd::YankValue(String::from("abc"))), None);
    assert_eq!(r.register, "abc");
    assert_eq!(
        r.update(&Cmd::PasteAtPoint(Point { x: 3, y: 1 })),
        Some(Cmd::InsertStringAtPoint(String::from("abc"), Point { x: 3, y: 1 }))
    );
    assert_eq!(r.update(&Cmd::Paste), None);
    assert_eq!(r.register, "abc");
}

#[test]
fn command_line_is_typed_edited_and_run() {
    let source = String::from("notes.txt");
    let mut line = CommandLine::new();
    assert!(line.update(Mode::Command, &Cmd::ChangeMode(Mode::Command), &source).is_empty());
    for c in "wq".chars() {
        let sent = line.update(Mode::Command, &Cmd::InsertChar(c), &source);
        assert_eq!(sent, vec![Cmd::MoveCursor(Direction::Right, false)]);
        line.update(Mode::Command, &sent[0], &source);
    }
    assert_eq!(line.line(), "wq");
    assert_eq!(line.index, 2);
    let sent = line.update(Mode::Command, &Cmd::DeleteChar(DeleteDirection::Before), &source);
    assert_eq!(sent, vec![Cmd::MoveCursor(Direction::Left, false)]);
    assert_eq!(line.line(), "w");
    line.update(Mode::Command, &sent[0], &source);
    assert_eq!(line.index, 1);
    assert!(line.update(Mode::Normal, &Cmd::InsertChar('x'), &source).is_empty());
    assert_eq!(line.line(), "w");
    assert_eq!(
        line.update(Mode::Command, &Cmd::RunCommand, &source),
        vec![Cmd::WriteBuffer(String::from("notes.txt")), Cmd::ChangeMode(Mode::Normal)]
    );
    line.update(Mode::Command, &Cmd::ChangeMode(Mode::Command), &source);
    assert_eq!(line.line(), "");
    assert_eq!(line.index, 0);
}

#[test]
fn command_line_cursor_stays_within_the_line() {
    let source = String::new();
    let mut line = CommandLine::new();
    line.update(Mode::Command, &Cmd::MoveCursor(Direction::Left, false), &source);
    assert_eq!(line.index, 0);
    line.update(Mode::Command, &Cmd::InsertChar('a'), &source);
    line.update(Mode::Command, &Cmd::MoveCursor(Direction::Right, false), &source);
    line.update(Mode::Command, &Cmd::MoveCursor(Direction::Right, false), &source);
    assert_eq!(line.index, 1);
    assert!(line.update(Mode::Command, &Cmd::DeleteChar(DeleteDirection::After), &source).is_empty());
    assert_eq!(line.line(), "a");
}

fn status_row(b: &BackBuffer) -> String {
    let w = b.dim.w as usize;
    b.cells[b.cells.len() - w..].iter().map(|c| c.value.unwrap_or('.')).collect()
}

#[test]
fn mode_is_shown_at_the_right_of_the_bottom_row() {
    let mut b = create_back_buffer(Rect { w: 10, h: 2 });
    let client = Client {
        buffer: slotmap::DefaultKey::default(),
        mode: Mode::Insert,
        back_buffer: create_back_buffer(Rect { w: 0, h: 0 }),
        size: Some(Rect { w: 10, h: 2 }),
    };
    write_mode_status(&mut b, &client);
    assert_eq!(status_row(&b), "...INSERT.");
    let mut narrow = create_back_buffer(Rect { w: 6, h: 1 });
    let client = Client { size: Some(Rect { w: 6, h: 1 }), ..client };
    write_mode_status(&mut narrow, &client);
    assert_eq!(status_row(&narrow), "......");
}

#[test]
fn cursor_moves_and_scrolls() {
    let mut buffer = Buffer {
        rope: Rope::from_str("abcdef
xy
last
"),
        source: String::new(),
        start_line: 0,
    };
    let mut cursor = Cursor { position: Point { x: 5, y: 0 }, stored_x: 5, selection_anchor: None };
    move_cursor_position(&mut cursor, Direction::Down, &mut buffer, 2);
    assert_eq!(cursor.position, Point { x: 3, y: 1 });
    assert_eq!(buffer.start_line, 1);
    move_cursor_position(&mut cursor, Direction::Down, &mut buffer, 2);
    assert_eq!(cursor.position, Point { x: 5, y: 2 });
    assert_eq!(buffer.start_line, 2);
    move_cursor_position(&mut cursor, Direction::Down, &mut buffer, 2);
    assert_eq!(cursor.position.y, 2);
    move_cursor_position(&mut cursor, Direction::Up, &mut buffer, 2);
    assert_eq!(cursor.position, Point { x: 3, y: 1 });
    assert_eq!(buffer.start_line, 1);
    move_cursor_position(&mut cursor, Direction::Right, &mut buffer, 2);
    assert_eq!(cursor.position, Point { x: 1, y: 2 });
    assert_eq!(cursor.stored_x, 1);
    move_cursor_position(&mut cursor, Direction::Left, &mut buffer, 2);
    assert_eq!(cursor.position, Point { x: 3, y: 1 });
    assert_eq!(cursor.stored_x, 3);
}

#[test]
fn cursor_module_moves_selects_and_deletes() {
    let mut g = initial_state();
    let client = add_client(&mut g).unwrap();
    load_buffer(&mut g, client, String::from("a.txt"), Rope::from_str("hello\nworld\n")).unwrap();
    let mut cursors = CursorState::new();
    assert!(cursors.update(&mut g, client, &Cmd::MoveCursor(Direction::Right, false)).is_empty());
    assert!(cursors.update(&mut g, client, &Cmd::MoveCursor(Direction::Right, true)).is_empty());
    assert_eq!(
        cursors.update(&mut g, client, &Cmd::Yank),
        vec![Cmd::YankValue(String::from("el"))]
    );
    assert_eq!(
        cursors.update(&mut g, client, &Cmd::DeleteChar(DeleteDirection::After)),
        vec![
            Cmd::DeleteCharRange(Point { x: 3, y: 0 }, Point { x: 2, y: 0 }),
            Cmd::BufferModified
        ]
    );
    assert_eq!(
        cursors.update(&mut g, client, &Cmd::InsertChar('z')),
        vec![
            Cmd::InsertCharAtPoint('z', Point { x: 2, y: 0 }),
            Cmd::MoveCursor(Direction::Right, false)
        ]
    );
    assert_eq!(
        cursors.update(&mut g, client, &Cmd::Paste),
        vec![Cmd::PasteAtPoint(Point { x: 2, y: 0 })]
    );
}

#[test]
fn cursor_module_sets_mode_and_jumps() {
    let mut g = initial_state();
    let client = add_client(&mut g).unwrap();
    load_buffer(&mut g, client, String::from("a.txt"), Rope::from_str("abc\nde")).unwrap();
    let mut cursors = CursorState::new();
    cursors.update(&mut g, client, &Cmd::ChangeMode(Mode::Command));
    assert_eq!(g.client(client).mode, Mode::Command);
    assert!(cursors.update(&mut g, client, &Cmd::InsertChar('x')).is_empty());
    assert!(cursors.update(&mut g, client, &Cmd::MoveCursor(Direction::Down, false)).is_empty());
    cursors.update(&mut g, client, &Cmd::ChangeMode(Mode::Normal));
    cursors.update(&mut g, client, &Cmd::Jump(JumpType::EndOfLine));
    assert_eq!(
        cursors.update(&mut g, client, &Cmd::DeleteChar(DeleteDirection::Before)),
        vec![
            Cmd::MoveCursor(Direction::Left, false),
            Cmd::DeleteCharRange(Point { x: 3, y: 0 }, Point { x: 3, y: 0 }),
            Cmd::BufferModified
        ]
    );
    cursors.update(&mut g, client, &Cmd::Jump(JumpType::StartOfLine));
    assert!(cursors.update(&mut g, client, &Cmd::DeleteChar(DeleteDirection::Before)).is_empty());
}

#[test]
fn selection_gets_its_background_line_by_line() {
    let rope = Rope::from_str("hello\nworld\n");
    let mut frame = create_back_buffer(Rect { w: 12, h: 3 });
    let cursor = Cursor {
        position: Point { x: 2, y: 0 },
        stored_x: 2,
        selection_anchor: Some(Point { x: 3, y: 1 }),
    };
    apply_selection_style(&mut frame, &cursor, &rope, 0);
    let marked: Vec<usize> = (0..frame.cells.len()).filter(|i| frame.cells[*i].bg.is_some()).collect();
    assert_eq!(marked, vec![5, 6, 7, 8, 9, 16, 17, 18]);
    let mut untouched = create_back_buffer(Rect { w: 12, h: 3 });
    let no_selection = Cursor { selection_anchor: None, ..cursor };
    apply_selection_style(&mut untouched, &no_selection, &rope, 0);
    assert!(untouched.cells.iter().all(|c| c.bg.is_none()));
    apply_selection_style(&mut untouched, &cursor, &rope, 1);
    assert!(untouched.cells.iter().all(|c| c.bg.is_none()));
}
