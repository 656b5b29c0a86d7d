use vstd::prelude::*;
use crate::types::{blank_cell, BackBuffer, Client, ClientIndex, Cmd, Rect};
use crate::state::{
    add_client, drop_client, is_fresh_client, reset_back_buffer, set_client_size, store_frame,
    GlobalData,
};
use crate::registry::{client_history, MAX_ISSUED};
use crate::back_buffer::{frame_text, update_stdout};

verus! {

/// A key read from a client's terminal.
#[derive(Debug, Clone, Copy, PartialEq, Eq, Structural)]
pub enum Key {
    Char(char),
    Ctrl(char),
    Alt(char),
    Left,
    Right,
    Up,
    Down,
    Backspace,
    Esc,
    Other,
}

/// One event for the message loop.
#[derive(Debug, Clone, PartialEq)]
pub enum Msg {
    /// A module artifact of this file name was created or replaced.
    LibraryEvent(String),
    /// A key from a client's terminal.
    StdinEvent(ClientIndex, Key),
    /// A command for a client.
    Cmd(ClientIndex, Cmd),
    /// A terminal client connected; its connection waits beside the loop.
    NewClient,
}

/// What the runtime must do, in order, for a message.
#[derive(Debug, Clone, PartialEq)]
pub enum Action {
    /// End the message loop.
    Stop,
    /// Shut down this client's connection; it has left the registry.
    CloseConnection(ClientIndex),
    /// Remove both socket files and end the process.
    RemoveSocketsAndExit,
    /// Clear the client's terminal.
    ClearScreen(ClientIndex),
    /// Give the waiting connection this index: tell it so over the connection and
    /// start reading its input.
    Greet(ClientIndex),
    /// Close the waiting connection: the client registry is exhausted.
    RefuseConnection,
    /// Queue this command for the client behind the messages already queued.
    Send(ClientIndex, Cmd),
    /// Unload the module of this file name, if loaded, and load it afresh.
    ReloadModule(String),
}

/// The outcome of one message: the runtime's own actions, and whether every module's
/// `update` is then called with the message.
pub struct Step {
    pub actions: Vec<Action>,
    pub dispatch: bool,
}

/// The client a message is tagged with, if any.
pub open spec fn msg_client(msg: Msg) -> Option<ClientIndex> {
    match msg {
        Msg::StdinEvent(k, _) => Some(k),
        Msg::Cmd(k, _) => Some(k),
        _ => None,
    }
}

/// Decides what the runtime does with one message, and updates the shared state for
/// the messages it handles itself. A message tagged with a client that has left is
/// dropped; `Quit` removes the client; `Kill` ends the process; `CleanRender` blanks
/// the client's previous frame and screen; `NewClient` registers a client, which is
/// sent `initial_file` to load when one is given; `ResizeClient` records the size and
/// queues a `CleanRender`; `Ctrl-c` stops the loop. All others only go to the modules.
pub fn handle_message(g: &mut GlobalData, msg: &Msg, initial_file: &Option<String>) -> (s: Step)
    requires
        old(g).wf(),
    ensures
        final(g).wf(),
        final(g).buffer_map() == old(g).buffer_map(),
        (msg_client(*msg) matches Some(k) && !old(g).client_map().contains_key(k)) ==> {
            &&& s.actions@ == Seq::<Action>::empty()
            &&& !s.dispatch
            &&& *final(g) == *old(g)
        },
        (msg_client(*msg) matches Some(k) && old(g).client_map().contains_key(k)) ==> match *msg {
            Msg::Cmd(k, Cmd::Quit) => {
                &&& s.actions@ == seq![Action::CloseConnection(k)]
                &&& !s.dispatch
                &&& final(g).client_map() == old(g).client_map().remove(k)
                &&& client_history(final(g).clients) == client_history(old(g).clients)
            },
            Msg::Cmd(k, Cmd::Kill) => {
                &&& s.actions@ == seq![Action::RemoveSocketsAndExit]
                &&& !s.dispatch
                &&& *final(g) == *old(g)
            },
            Msg::Cmd(k, Cmd::CleanRender) => {
                &&& s.actions@ == seq![Action::ClearScreen(k)]
                &&& s.dispatch
                &&& final(g).client_map().dom() == old(g).client_map().dom()
                &&& final(g).client_map()[k].size == old(g).client_map()[k].size
                &&& final(g).client_map()[k].back_buffer.dim == (match old(g).client_map()[k].size {
                    Some(r) => r,
                    None => Rect { w: 0, h: 0 },
                })
                &&& final(g).client_map()[k].back_buffer.wf()
                &&& forall|i: int| 0 <= i < final(g).client_map()[k].back_buffer.cells@.len()
                    ==> final(g).client_map()[k].back_buffer.cells@[i] == blank_cell()
                &&& forall|j: ClientIndex| j != k && #[trigger] old(g).client_map().contains_key(j)
                    ==> final(g).client_map()[j] == old(g).client_map()[j]
            },
            Msg::Cmd(k, Cmd::ResizeClient(r)) => {
                &&& s.actions@ == seq![Action::Send(k, Cmd::CleanRender)]
                &&& s.dispatch
                &&& final(g).client_map() == old(g).client_map().insert(
                    k,
                    Client { size: Some(r), ..old(g).client_map()[k] },
                )
            },
            Msg::StdinEvent(_, Key::Ctrl('c')) => {
                &&& s.actions@ == seq![Action::Stop]
                &&& !s.dispatch
                &&& *final(g) == *old(g)
            },
            _ => {
                &&& s.actions@ == Seq::<Action>::empty()
                &&& s.dispatch
                &&& *final(g) == *old(g)
            },
        },
        *msg == Msg::NewClient ==> if old(g).clients_issued >= MAX_ISSUED {
            &&& s.actions@ == seq![Action::RefuseConnection]
            &&& !s.dispatch
            &&& *final(g) == *old(g)
        } else {
            exists|k: ClientIndex| {
                &&& !#[trigger] client_history(old(g).clients).contains(k)
                &&& final(g).client_map().dom() == old(g).client_map().dom().insert(k)
                &&& forall|j: ClientIndex| j != k && #[trigger] old(g).client_map().contains_key(j)
                    ==> final(g).client_map()[j] == old(g).client_map()[j]
                &&& is_fresh_client(final(g).client_map()[k], final(g).client_map()[k].buffer)
                &&& s.actions@ == match *initial_file {
                    Some(f) => seq![Action::Greet(k), Action::Send(k, Cmd::LoadFile(f))],
                    None => seq![Action::Greet(k)],
                }
                &&& s.dispatch
            }
        },
        *msg matches Msg::LibraryEvent(name) ==> {
            &&& s.actions@ == seq![Action::ReloadModule(name)]
            &&& s.dispatch
            &&& *final(g) == *old(g)
        },
{
    match msg {
        Msg::LibraryEvent(name) => {
            Step { actions: vec![Action::ReloadModule(name.clone())], dispatch: true }
        },
        Msg::NewClient => {
            match add_client(g) {
                Some(k) => {
                    let mut actions = vec![Action::Greet(k)];
                    match initial_file {
                        Some(f) => actions.push(Action::Send(k, Cmd::LoadFile(f.clone()))),
                        None => {},
                    }
                    proof {
                        assert(!client_history(old(g).clients).contains(k));
                    }
                    Step { actions, dispatch: true }
                },
                None => Step { actions: vec![Action::RefuseConnection], dispatch: false },
            }
        },
        Msg::StdinEvent(k, key) => {
            if !g.has_client(*k) {
                return Step { actions: Vec::new(), dispatch: false };
            }
            match key {
                Key::Ctrl('c') => Step { actions: vec![Action::Stop], dispatch: false },
                _ => Step { actions: Vec::new(), dispatch: true },
            }
        },
        Msg::Cmd(k, cmd) => {
            let k = *k;
            if !g.has_client(k) {
                return Step { actions: Vec::new(), dispatch: false };
            }
            match cmd {
                Cmd::Quit => {
                    drop_client(g, k);
                    Step { actions: vec![Action::CloseConnection(k)], dispatch: false }
                },
                Cmd::Kill => Step { actions: vec![Action::RemoveSocketsAndExit], dispatch: false },
                Cmd::CleanRender => {
                    reset_back_buffer(g, k);
                    Step { actions: vec![Action::ClearScreen(k)], dispatch: true }
                },
                Cmd::ResizeClient(r) => {
                    set_client_size(g, k, *r);
                    Step { actions: vec![Action::Send(k, Cmd::CleanRender)], dispatch: true }
                },
                _ => Step { actions: Vec::new(), dispatch: true },
            }
        },
    }
}

/// Returns the clients to draw after a message, with their sizes: none while more
/// messages wait in the queue, so that no intermediate state is drawn; otherwise every
/// client whose terminal size is known, each once.
pub fn render_targets(g: &GlobalData, queue_empty: bool) -> (r: Vec<(ClientIndex, Rect)>)
    ensures
        !queue_empty ==> r@.len() == 0,
        queue_empty ==> forall|k: ClientIndex, rect: Rect|
            #[trigger] r@.contains((k, rect)) <==> (g.client_map().contains_key(k)
                && g.client_map()[k].size == Some(rect)),
        forall|i: int, j: int| 0 <= i < j < r@.len() ==> r@[i].0 != r@[j].0,
{
    let mut r: Vec<(ClientIndex, Rect)> = Vec::new();
    if !queue_empty {
        return r;
    }
    let keys = g.client_indices();
    let mut i: usize = 0;
    while i < keys.len()
        invariant
            i <= keys@.len(),
            keys@.to_set() == g.client_map().dom(),
            keys@.no_duplicates(),
            forall|k: ClientIndex, rect: Rect|
                #[trigger] r@.contains((k, rect)) <==> (exists|j: int| 0 <= j < i && keys@[j] == k)
                    && g.client_map().contains_key(k) && g.client_map()[k].size == Some(rect),
            forall|p: int| 0 <= p < r@.len() ==> exists|j: int| 0 <= j < i && keys@[j] == #[trigger] r@[p].0,
            forall|p: int, q: int| 0 <= p < q < r@.len() ==> r@[p].0 != r@[q].0,
        decreases keys@.len() - i,
    {
        let k = keys[i];
        assert(keys@.to_set().contains(keys@[i as int]));
        let ghost before = r@;
        match g.client(k).size {
            Some(rect) => {
                r.push((k, rect));
                proof {
                    assert(r@.last() == (k, rect));
                    assert forall|p: int| 0 <= p < before.len() implies r@[p].0 != k by {
                        let j = choose|j: int| 0 <= j < i && keys@[j] == #[trigger] before[p].0;
                        assert(keys@[j] != keys@[i as int]);
                    }
                    assert forall|k2: ClientIndex, rect2: Rect|
                        #[trigger] r@.contains((k2, rect2)) <==> (exists|j: int| 0 <= j < i + 1 && keys@[j] == k2)
                            && g.client_map().contains_key(k2) && g.client_map()[k2].size == Some(rect2) by {
                        if r@.contains((k2, rect2)) {
                            let p = choose|p: int| 0 <= p < r@.len() && r@[p] == (k2, rect2);
                            if p < before.len() {
                                assert(before.contains((k2, rect2)));
                            }
                        }
                        if (exists|j: int| 0 <= j < i + 1 && keys@[j] == k2)
                            && g.client_map().contains_key(k2) && g.client_map()[k2].size == Some(rect2) {
                            let j = choose|j: int| 0 <= j < i + 1 && keys@[j] == k2;
                            if j < i {
                                assert(before.contains((k2, rect2)));
                                let p = choose|p: int| 0 <= p < before.len() && before[p] == (k2, rect2);
                                assert(r@[p] == (k2, rect2));
                            } else {
                                assert(r@[before.len() as int] == (k2, rect2));
                            }
                        }
                    }
                }
            },
            None => {
                proof {
                    assert forall|k2: ClientIndex, rect2: Rect|
                        #[trigger] r@.contains((k2, rect2)) <==> (exists|j: int| 0 <= j < i + 1 && keys@[j] == k2)
                            && g.client_map().contains_key(k2) && g.client_map()[k2].size == Some(rect2) by {
                        if (exists|j: int| 0 <= j < i + 1 && keys@[j] == k2)
                            && g.client_map().contains_key(k2) && g.client_map()[k2].size == Some(rect2) {
                            let j = choose|j: int| 0 <= j < i + 1 && keys@[j] == k2;
                            assert(j < i);
                        }
                    }
                }
            },
        }
        i = i + 1;
    }
    proof {
        assert forall|k: ClientIndex, rect: Rect|
            #[trigger] r@.contains((k, rect)) <==> (g.client_map().contains_key(k)
                && g.client_map()[k].size == Some(rect)) by {
            if g.client_map().contains_key(k) {
                assert(keys@.to_set().contains(k));
                let j = choose|j: int| 0 <= j < keys@.len() && keys@[j] == k;
            }
        }
    }
    r
}

/// Returns the terminal output that turns the client's screen from its previous frame
/// into `frame`, and keeps `frame` as the previous one.
pub fn finish_frame(g: &mut GlobalData, client: ClientIndex, frame: BackBuffer) -> (r: String)
    requires
        old(g).wf(),
        old(g).client_map().contains_key(client),
        frame.wf(),
    ensures
        final(g).wf(),
        final(g).buffer_map() == old(g).buffer_map(),
        r@ == frame_text(
            old(g).client_map()[client].back_buffer.cells@,
            frame.cells@,
            frame.dim.w as nat,
        ),
        final(g).client_map() == old(g).client_map().insert(
            client,
            Client { back_buffer: frame, ..old(g).client_map()[client] },
        ),
{
    let out = update_stdout(&g.client(client).back_buffer, &frame);
    store_frame(g, client, frame);
    out
}

} // verus!
