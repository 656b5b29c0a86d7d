use vstd::prelude::*;
use ropey::Rope;
use crate::types::{blank_cell, BackBuffer, Buffer, BufferIndex, Client, ClientIndex, Mode, Rect};
use crate::back_buffer::create_back_buffer;
use crate::text::{empty_rope, rope_text};
use crate::registry::{
    buffer_at, buffer_history, buffer_keys, buffer_slots, client_at, client_at_mut, client_history,
    client_keys, client_slots, contains_client, insert_buffer, insert_client, new_buffer_slots,
    new_client_slots, remove_client, BufferSlots, ClientSlots, MAX_ISSUED,
};

verus! {

/// The state shared by the runtime and the extension modules: the buffer registry and
/// the client registry, with how many keys each has handed out.
pub struct GlobalData {
    pub buffers: BufferSlots,
    pub clients: ClientSlots,
    pub buffers_issued: u64,
    pub clients_issued: u64,
}

impl GlobalData {
    pub open spec fn buffer_map(&self) -> Map<BufferIndex, Buffer> {
        buffer_slots(self.buffers)
    }

    pub open spec fn client_map(&self) -> Map<ClientIndex, Client> {
        client_slots(self.clients)
    }

    /// Both registries count the keys they handed out, every live key is among them,
    /// at least one buffer is open and every client shows an open buffer.
    pub open spec fn wf(&self) -> bool {
        &&& buffer_history(self.buffers).finite()
        &&& buffer_history(self.buffers).len() == self.buffers_issued
        &&& self.buffers_issued <= MAX_ISSUED
        &&& self.buffer_map().dom().subset_of(buffer_history(self.buffers))
        &&& client_history(self.clients).finite()
        &&& client_history(self.clients).len() == self.clients_issued
        &&& self.clients_issued <= MAX_ISSUED
        &&& self.client_map().dom().subset_of(client_history(self.clients))
        &&& self.buffer_map().dom().len() > 0
        &&& forall|k: ClientIndex| #[trigger]
            self.client_map().contains_key(k) ==> self.buffer_map().contains_key(
                self.client_map()[k].buffer,
            )
    }

    /// Whether the client index is live.
    pub fn has_client(&self, client: ClientIndex) -> (r: bool)
        ensures
            r == self.client_map().contains_key(client),
    {
        contains_client(&self.clients, client)
    }

    /// The client under a live index.
    pub fn client(&self, client: ClientIndex) -> (r: &Client)
        requires
            self.client_map().contains_key(client),
        ensures
            *r == self.client_map()[client],
    {
        client_at(&self.clients, client)
    }

    /// The buffer under a live index.
    pub fn buffer(&self, buffer: BufferIndex) -> (r: &Buffer)
        requires
            self.buffer_map().contains_key(buffer),
        ensures
            *r == self.buffer_map()[buffer],
    {
        buffer_at(&self.buffers, buffer)
    }

    /// The live client indices, each once.
    pub fn client_indices(&self) -> (r: Vec<ClientIndex>)
        ensures
            r@.to_set() == self.client_map().dom(),
            r@.no_duplicates(),
    {
        client_keys(&self.clients)
    }

    /// The live buffer indices, each once.
    pub fn buffer_indices(&self) -> (r: Vec<BufferIndex>)
        ensures
            r@.to_set() == self.buffer_map().dom(),
            r@.no_duplicates(),
    {
        buffer_keys(&self.buffers)
    }
}

/// The buffer every session starts with: empty, with no source path.
pub open spec fn is_scratch_buffer(b: Buffer) -> bool {
    rope_text(b.rope).len() == 0 && b.source@.len() == 0 && b.start_line == 0
}

/// A client just connected: showing `buffer` in normal mode, size unknown, no frame yet.
pub open spec fn is_fresh_client(c: Client, buffer: BufferIndex) -> bool {
    &&& c.buffer == buffer
    &&& c.mode == Mode::Normal
    &&& c.size is None
    &&& c.back_buffer.dim == Rect { w: 0, h: 0 }
    &&& c.back_buffer.cells@.len() == 0
}

/// Returns the state a session starts in: one empty scratch buffer and no client.
pub fn initial_state() -> (g: GlobalData)
    ensures
        g.wf(),
        g.buffer_map().len() == 1,
        forall|k: BufferIndex| #[trigger] g.buffer_map().contains_key(k) ==> is_scratch_buffer(g.buffer_map()[k]),
        g.client_map().dom().len() == 0,
{
    let mut buffers = new_buffer_slots();
    let buffer = Buffer { rope: empty_rope(), source: String::new(), start_line: 0 };
    let k = insert_buffer(&mut buffers, buffer);
    let clients = new_client_slots();
    let g = GlobalData { buffers, clients, buffers_issued: 1, clients_issued: 0 };
    proof {
        assert(buffer_history(g.buffers) =~= Set::<BufferIndex>::empty().insert(k));
        assert(g.buffer_map().dom() =~= Set::<BufferIndex>::empty().insert(k));
        assert(g.client_map().dom() =~= Set::<ClientIndex>::empty());
    }
    g
}

/// Registers a newly connected client showing the first open buffer, in normal mode,
/// with no known size and an empty frame. Returns its index, or `None` once the client
/// registry has handed out all its keys.
pub fn add_client(g: &mut GlobalData) -> (r: Option<ClientIndex>)
    requires
        old(g).wf(),
    ensures
        final(g).wf(),
        final(g).buffer_map() == old(g).buffer_map(),
        r is None <==> old(g).clients_issued >= MAX_ISSUED,
        r is None ==> *final(g) == *old(g),
        r matches Some(k) ==> {
            &&& !client_history(old(g).clients).contains(k)
            &&& client_history(final(g).clients) == client_history(old(g).clients).insert(k)
            &&& final(g).client_map().dom() == old(g).client_map().dom().insert(k)
            &&& forall|j: ClientIndex| j != k && #[trigger] old(g).client_map().contains_key(j) ==> final(g).client_map()[j] == old(g).client_map()[j]
            &&& is_fresh_client(final(g).client_map()[k], final(g).client_map()[k].buffer)
            &&& old(g).buffer_map().contains_key(final(g).client_map()[k].buffer)
        },
{
    if g.clients_issued >= MAX_ISSUED {
        return None;
    }
    let keys = buffer_keys(&g.buffers);
    proof {
        if keys@.len() == 0 {
            assert(keys@.to_set() =~= Set::<BufferIndex>::empty());
        }
        assert(keys@.to_set().contains(keys@[0]));
    }
    let first = keys[0];
    let client = Client {
        buffer: first,
        mode: Mode::Normal,
        back_buffer: create_back_buffer(Rect { w: 0, h: 0 }),
        size: None,
    };
    let k = insert_client(&mut g.clients, client);
    g.clients_issued = g.clients_issued + 1;
    proof {
        assert(g.client_map().dom() =~= old(g).client_map().dom().insert(k));
        assert(g.client_map()[k] == client);
        let d = client.back_buffer.dim;
        assert(d.w as nat * d.h as nat == 0) by (nonlinear_arith)
            requires
                d.w == 0,
        ;
        assert(is_fresh_client(g.client_map()[k], first));
        assert(old(g).buffer_map().contains_key(first));
        assert(!client_history(old(g).clients).contains(k));
    }
    Some(k)
}

/// Removes a client from the registry. Its index never resolves again.
pub fn drop_client(g: &mut GlobalData, client: ClientIndex)
    requires
        old(g).wf(),
    ensures
        final(g).wf(),
        final(g).client_map() == old(g).client_map().remove(client),
        final(g).buffer_map() == old(g).buffer_map(),
        client_history(final(g).clients) == client_history(old(g).clients),
{
    let _ = remove_client(&mut g.clients, client);
    proof {
        assert(g.client_map().dom() =~= old(g).client_map().dom().remove(client));
    }
}

/// Records a client's terminal size.
pub fn set_client_size(g: &mut GlobalData, client: ClientIndex, size: Rect)
    requires
        old(g).wf(),
        old(g).client_map().contains_key(client),
    ensures
        final(g).wf(),
        final(g).buffer_map() == old(g).buffer_map(),
        final(g).client_map() == old(g).client_map().insert(
            client,
            Client { size: Some(size), ..old(g).client_map()[client] },
        ),
{
    let c = client_at_mut(&mut g.clients, client);
    c.size = Some(size);
    proof {
        assert(g.client_map().dom() =~= old(g).client_map().dom());
    }
}

/// Replaces a client's previous frame with a blank one of its last known size (0 by 0
/// while the size is unknown), so that the next frame is drawn in full.
pub fn reset_back_buffer(g: &mut GlobalData, client: ClientIndex)
    requires
        old(g).wf(),
        old(g).client_map().contains_key(client),
    ensures
        final(g).wf(),
        final(g).buffer_map() == old(g).buffer_map(),
        final(g).client_map().dom() == old(g).client_map().dom(),
        forall|j: ClientIndex| j != client && #[trigger] old(g).client_map().contains_key(j) ==> final(g).client_map()[j] == old(g).client_map()[j],
        ({
            let before = old(g).client_map()[client];
            let after = final(g).client_map()[client];
            &&& after.buffer == before.buffer
            &&& after.mode == before.mode
            &&& after.size == before.size
            &&& after.back_buffer.dim == (match before.size {
                Some(s) => s,
                None => Rect { w: 0, h: 0 },
            })
            &&& after.back_buffer.wf()
            &&& forall|i: int| 0 <= i < after.back_buffer.cells@.len() ==> after.back_buffer.cells@[i] == blank_cell()
        }),
{
    let size = match client_at(&g.clients, client).size {
        Some(s) => s,
        None => Rect { w: 0, h: 0 },
    };
    let fresh = create_back_buffer(size);
    let c = client_at_mut(&mut g.clients, client);
    c.back_buffer = fresh;
    proof {
        assert(g.client_map().dom() =~= old(g).client_map().dom());
    }
}

/// Stores a finished frame as the client's previous one.
pub fn store_frame(g: &mut GlobalData, client: ClientIndex, frame: BackBuffer)
    requires
        old(g).wf(),
        old(g).client_map().contains_key(client),
    ensures
        final(g).wf(),
        final(g).buffer_map() == old(g).buffer_map(),
        final(g).client_map() == old(g).client_map().insert(
            client,
            Client { back_buffer: frame, ..old(g).client_map()[client] },
        ),
{
    let c = client_at_mut(&mut g.clients, client);
    c.back_buffer = frame;
    proof {
        assert(g.client_map().dom() =~= old(g).client_map().dom());
    }
}

/// Whether an open buffer was loaded from `path`.
pub open spec fn has_source(g: GlobalData, path: Seq<char>) -> bool {
    exists|k: BufferIndex| #[trigger] g.buffer_map().contains_key(k) && g.buffer_map()[k].source@ == path
}

/// Returns the index of an open buffer loaded from `path`, if there is one.
pub fn find_buffer_by_source(g: &GlobalData, path: &String) -> (r: Option<BufferIndex>)
    ensures
        r is None <==> !has_source(*g, path@),
        r matches Some(k) ==> g.buffer_map().contains_key(k) && g.buffer_map()[k].source@ == path@,
{
    let keys = buffer_keys(&g.buffers);
    let mut i: usize = 0;
    while i < keys.len()
        invariant
            i <= keys@.len(),
            keys@.to_set() == g.buffer_map().dom(),
            forall|j: int| 0 <= j < i ==> g.buffer_map()[#[trigger] keys@[j]].source@ != path@,
        decreases keys@.len() - i,
    {
        let k = keys[i];
        assert(keys@.to_set().contains(keys@[i as int]));
        if buffer_at(&g.buffers, k).source == *path {
            return Some(k);
        }
        i = i + 1;
    }
    proof {
        assert forall|k: BufferIndex| #[trigger] g.buffer_map().contains_key(k) implies g.buffer_map()[k].source@ != path@ by {
            assert(keys@.to_set().contains(k));
            let j = choose|j: int| 0 <= j < keys@.len() && keys@[j] == k;
            assert(g.buffer_map()[keys@[j]].source@ != path@);
        }
    }
    None
}

/// Points a live client at the buffer loaded from `path`, where one is open, and
/// returns its index; changes nothing and returns `None` where none is.
pub fn switch_to_open_buffer(g: &mut GlobalData, client: ClientIndex, path: &String) -> (r: Option<BufferIndex>)
    requires
        old(g).wf(),
        old(g).client_map().contains_key(client),
    ensures
        final(g).wf(),
        final(g).buffer_map() == old(g).buffer_map(),
        r is None <==> !has_source(*old(g), path@),
        r is None ==> *final(g) == *old(g),
        r matches Some(k) ==> {
            &&& old(g).buffer_map().contains_key(k)
            &&& old(g).buffer_map()[k].source@ == path@
            &&& final(g).client_map() == old(g).client_map().insert(
                client,
                Client { buffer: k, ..old(g).client_map()[client] },
            )
        },
{
    match find_buffer_by_source(g, path) {
        Some(k) => {
            let c = client_at_mut(&mut g.clients, client);
            c.buffer = k;
            proof {
                assert(g.client_map().dom() =~= old(g).client_map().dom());
            }
            Some(k)
        },
        None => None,
    }
}

/// Opens a new buffer with the given text, loaded from `path`, and points the client
/// at it. Returns its index, or `None`, changing nothing, once the buffer registry has
/// handed out all its keys.
pub fn load_buffer(g: &mut GlobalData, client: ClientIndex, path: String, rope: Rope) -> (r: Option<BufferIndex>)
    requires
        old(g).wf(),
        old(g).client_map().contains_key(client),
    ensures
        final(g).wf(),
        r is None <==> old(g).buffers_issued >= MAX_ISSUED,
        r is None ==> *final(g) == *old(g),
        r matches Some(k) ==> {
            &&& !old(g).buffer_map().contains_key(k)
            &&& final(g).buffer_map() == old(g).buffer_map().insert(
                k,
                Buffer { rope: rope, source: path, start_line: 0 },
            )
            &&& final(g).client_map() == old(g).client_map().insert(
                client,
                Client { buffer: k, ..old(g).client_map()[client] },
            )
        },
{
    if g.buffers_issued >= MAX_ISSUED {
        return None;
    }
    let ghost src = path;
    let ghost text = rope;
    let k = insert_buffer(&mut g.buffers, Buffer { rope, source: path, start_line: 0 });
    g.buffers_issued = g.buffers_issued + 1;
    let c = client_at_mut(&mut g.clients, client);
    c.buffer = k;
    proof {
        assert(g.client_map().dom() =~= old(g).client_map().dom());
        assert(g.buffer_map().dom() =~= old(g).buffer_map().dom().insert(k));
        assert(g.buffer_map().dom().len() > 0) by {
            assert(g.buffer_map().dom().contains(k));
            vstd::set_lib::lemma_set_empty_equivalency_len(g.buffer_map().dom());
        }
    }
    Some(k)
}

/// Sets a client's mode.
pub fn set_client_mode(g: &mut GlobalData, client: ClientIndex, mode: Mode)
    requires
        old(g).wf(),
        old(g).client_map().contains_key(client),
    ensures
        final(g).wf(),
        final(g).buffer_map() == old(g).buffer_map(),
        final(g).client_map() == old(g).client_map().insert(
            client,
            Client { mode: mode, ..old(g).client_map()[client] },
        ),
{
    let c = client_at_mut(&mut g.clients, client);
    c.mode = mode;
    proof {
        assert(g.client_map().dom() =~= old(g).client_map().dom());
    }
}

} // verus!
