use myedit::back_buffer::{create_back_buffer, write_to_buffer};
use myedit::event_loop::{finish_frame, handle_message, render_targets, Action, Key, Msg};
use myedit::state::{
    add_client, drop_client, find_buffer_by_source, initial_state, load_buffer,
    switch_to_open_buffer, GlobalData,
};
use myedit::types::{Cmd, Mode, Point, Rect};
use ropey::Rope;

fn connect(g: &mut GlobalData, file: &Option<String>) -> slotmap::DefaultKey {
    let step = handle_message(g, &Msg::NewClient, file);
    assert!(step.dispatch);
    match step.actions[0] {
        Action::Greet(k) => k,
        ref other => panic!("expected a greeting, got {:?}", other),
    }
}

#[test]
fn session_starts_with_one_scratch_buffer_and_no_client() {
    let g = initial_state();
    assert_eq!(g.client_indices().len(), 0);
    let buffers = g.buffer_indices();
    assert_eq!(buffers.len(), 1);
    let b = g.buffer(buffers[0]);
    assert_eq!(b.source, "");
    assert_eq!(b.rope.len_chars(), 0);
    assert_eq!(b.start_line, 0);
}

#[test]
fn new_client_is_greeted_and_sent_the_initial_file() {
    let mut g = initial_state();
    let file = Some(String::from("notes.txt"));
    let step = handle_message(&mut g, &Msg::NewClient, &file);
    let k = match step.actions[0] {
        Action::Greet(k) => k,
        ref other => panic!("expected a greeting, got {:?}", other),
    };
    assert_eq!(
        step.actions,
        vec![Action::Greet(k), Action::Send(k, Cmd::LoadFile(String::from("notes.txt")))]
    );
    assert!(g.has_client(k));
    let c = g.client(k);
    assert_eq!(c.mode, Mode::Normal);
    assert_eq!(c.size, None);
    assert_eq!(c.buffer, g.buffer_indices()[0]);
    let other = connect(&mut g, &None);
    assert_ne!(other, k);
}

#[test]
fn message_for_unknown_client_is_dropped_without_dispatch() {
    let mut g = initial_state();
    let gone = connect(&mut g, &None);
    drop_client(&mut g, gone);
    let step = handle_message(&mut g, &Msg::Cmd(gone, Cmd::ResizeClient(Rect { w: 10, h: 5 })), &None);
    assert!(step.actions.is_empty());
    assert!(!step.dispatch);
    let step = handle_message(&mut g, &Msg::StdinEvent(gone, Key::Char('x')), &None);
    assert!(step.actions.is_empty());
    assert!(!step.dispatch);
    let never = slotmap::DefaultKey::default();
    let step = handle_message(&mut g, &Msg::Cmd(never, Cmd::Quit), &None);
    assert!(step.actions.is_empty());
    assert!(!step.dispatch);
}

#[test]
fn two_clients_loading_one_path_share_the_buffer() {
    let mut g = initial_state();
    let a = connect(&mut g, &None);
    let b = connect(&mut g, &None);
    let path = String::from("foo.txt");
    assert_eq!(switch_to_open_buffer(&mut g, a, &path), None);
    let loaded = load_buffer(&mut g, a, path.clone(), Rope::from_str("hello\n")).unwrap();
    assert_eq!(g.client(a).buffer, loaded);
    let edited = g.buffer(loaded);
    assert_eq!(edited.source, "foo.txt");
    let reused = switch_to_open_buffer(&mut g, b, &path);
    assert_eq!(reused, Some(loaded));
    assert_eq!(g.client(b).buffer, loaded);
    assert_eq!(g.buffer_indices().len(), 2);
    assert_eq!(find_buffer_by_source(&g, &String::from("bar.txt")), None);
}

#[test]
fn resize_queues_clean_render_and_rendering_waits_for_an_empty_queue() {
    let mut g = initial_state();
    let k = connect(&mut g, &None);
    let step = handle_message(&mut g, &Msg::Cmd(k, Cmd::ResizeClient(Rect { w: 80, h: 24 })), &None);
    assert_eq!(step.actions, vec![Action::Send(k, Cmd::CleanRender)]);
    assert!(step.dispatch);
    assert_eq!(g.client(k).size, Some(Rect { w: 80, h: 24 }));
    assert!(render_targets(&g, false).is_empty());
    let step = handle_message(&mut g, &Msg::Cmd(k, Cmd::CleanRender), &None);
    assert_eq!(step.actions, vec![Action::ClearScreen(k)]);
    assert!(step.dispatch);
    assert_eq!(g.client(k).back_buffer.cells.len(), 80 * 24);
    assert_eq!(render_targets(&g, true), vec![(k, Rect { w: 80, h: 24 })]);
}

#[test]
fn clients_without_a_size_are_not_drawn() {
    let mut g = initial_state();
    let a = connect(&mut g, &None);
    let b = connect(&mut g, &None);
    handle_message(&mut g, &Msg::Cmd(b, Cmd::ResizeClient(Rect { w: 2, h: 2 })), &None);
    assert_eq!(render_targets(&g, true), vec![(b, Rect { w: 2, h: 2 })]);
    assert!(g.client(a).size.is_none());
}

#[test]
fn quit_removes_the_client_and_later_messages_are_dropped() {
    let mut g = initial_state();
    let k = connect(&mut g, &None);
    let other = connect(&mut g, &None);
    let step = handle_message(&mut g, &Msg::Cmd(k, Cmd::Quit), &None);
    assert_eq!(step.actions, vec![Action::CloseConnection(k)]);
    assert!(!step.dispatch);
    assert!(!g.has_client(k));
    assert!(g.has_client(other));
    assert_eq!(g.client_indices(), vec![other]);
    let step = handle_message(&mut g, &Msg::Cmd(k, Cmd::InsertChar('a')), &None);
    assert!(step.actions.is_empty());
    assert!(!step.dispatch);
    let fresh = connect(&mut g, &None);
    assert_ne!(fresh, k);
    assert!(!g.has_client(k));
}

#[test]
fn kill_ctrl_c_and_reload_are_reported() {
    let mut g = initial_state();
    let k = connect(&mut g, &None);
    let step = handle_message(&mut g, &Msg::Cmd(k, Cmd::Kill), &None);
    assert_eq!(step.actions, vec![Action::RemoveSocketsAndExit]);
    assert!(!step.dispatch);
    let step = handle_message(&mut g, &Msg::StdinEvent(k, Key::Ctrl('c')), &None);
    assert_eq!(step.actions, vec![Action::Stop]);
    assert!(!step.dispatch);
    let step = handle_message(&mut g, &Msg::StdinEvent(k, Key::Char('c')), &None);
    assert!(step.actions.is_empty());
    assert!(step.dispatch);
    let step = handle_message(&mut g, &Msg::LibraryEvent(String::from("libcursor.so")), &None);
    assert_eq!(step.actions, vec![Action::ReloadModule(String::from("libcursor.so"))]);
    assert!(step.dispatch);
    let step = handle_message(&mut g, &Msg::Cmd(k, Cmd::MoveCursor(myedit::types::Direction::Left, false)), &None);
    assert!(step.actions.is_empty());
    assert!(step.dispatch);
}

#[test]
fn finished_frame_becomes_the_previous_one() {
    let mut g = initial_state();
    let k = add_client(&mut g).unwrap();
    handle_message(&mut g, &Msg::Cmd(k, Cmd::ResizeClient(Rect { w: 2, h: 1 })), &None);
    handle_message(&mut g, &Msg::Cmd(k, Cmd::CleanRender), &None);
    let mut frame = create_back_buffer(Rect { w: 2, h: 1 });
    write_to_buffer(&mut frame, &Point { x: 1, y: 0 }, "q", None, None, None);
    let out = finish_frame(&mut g, k, frame);
    assert_eq!(out, "\x1b[s\x1b[1;2H\x1b[mq\x1b[u\x1b[?25h");
    assert_eq!(g.client(k).back_buffer.cells[1].value, Some('q'));
    let mut same = create_back_buffer(Rect { w: 2, h: 1 });
    write_to_buffer(&mut same, &Point { x: 1, y: 0 }, "q", None, None, None);
    assert_eq!(finish_frame(&mut g, k, same), "\x1b[s\x1b[u\x1b[?25h");
}
