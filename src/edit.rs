use vstd::prelude::*;
use crate::types::{ClientIndex, Cmd, Point};
use crate::state::GlobalData;
use crate::registry::buffer_at_mut;
use crate::text::{
    checked_ropey_index, position_in_range, rope_index, rope_insert,
    rope_insert_char, rope_len_chars, rope_remove, rope_text,
};

verus! {

/// Whether a cursor position names a char index at most the length of `text`.
pub open spec fn insert_point(text: Seq<char>, p: Point) -> bool {
    position_in_range(text, p) && rope_index(text, p) <= text.len()
}

/// The text after an edit command, or `None` for a command that is no edit or whose
/// positions fall outside the text.
pub open spec fn edited_text(text: Seq<char>, cmd: Cmd) -> Option<Seq<char>> {
    match cmd {
        Cmd::InsertCharAtPoint(c, p) => if insert_point(text, p) {
            Some(text.insert(rope_index(text, p), c))
        } else {
            None
        },
        Cmd::InsertStringAtPoint(s, p) => if insert_point(text, p) {
            Some(text.take(rope_index(text, p)) + s@ + text.skip(rope_index(text, p)))
        } else {
            None
        },
        Cmd::DeleteCharRange(a, b) => if position_in_range(text, a) && position_in_range(text, b)
            && vstd::math::max(rope_index(text, a), rope_index(text, b)) < text.len() {
            let lo = vstd::math::min(rope_index(text, a), rope_index(text, b));
            let hi = vstd::math::max(rope_index(text, a), rope_index(text, b));
            Some(text.take(lo) + text.skip(hi + 1))
        } else {
            None
        },
        _ => None,
    }
}

/// Applies an edit command to the text of the client's buffer: inserting a char or a
/// string at a cursor position, or deleting the chars between two positions, both
/// included. Returns `BufferModified` to announce the change; a command that is no
/// edit, or whose positions fall outside the text, changes nothing and returns `None`.
pub fn edit_buffer(g: &mut GlobalData, client: ClientIndex, cmd: &Cmd) -> (r: Option<Cmd>)
    requires
        old(g).wf(),
        old(g).client_map().contains_key(client),
    ensures
        final(g).wf(),
        final(g).client_map() == old(g).client_map(),
        final(g).buffer_map().dom() == old(g).buffer_map().dom(),
        ({
            let k = old(g).client_map()[client].buffer;
            let before = old(g).buffer_map()[k];
            let after = final(g).buffer_map()[k];
            &&& forall|j| j != k && #[trigger] old(g).buffer_map().contains_key(j) ==> final(g).buffer_map()[j] == old(g).buffer_map()[j]
            &&& match edited_text(rope_text(before.rope), *cmd) {
                Some(text) => {
                    &&& r == Some(Cmd::BufferModified)
                    &&& rope_text(after.rope) == text
                    &&& after.source == before.source
                    &&& after.start_line == before.start_line
                },
                None => r is None && *final(g) == *old(g),
            }
        }),
{
    let k = g.client(client).buffer;
    let ghost text = rope_text(old(g).buffer_map()[k].rope);
    match cmd {
        Cmd::InsertCharAtPoint(c, p) => {
            let index = match checked_ropey_index(p, &g.buffer(k).rope) {
                Some(i) => i,
                None => return None,
            };
            if index > rope_len_chars(&g.buffer(k).rope) {
                return None;
            }
            let b = buffer_at_mut(&mut g.buffers, k);
            rope_insert_char(&mut b.rope, index, *c);
        },
        Cmd::InsertStringAtPoint(s, p) => {
            let index = match checked_ropey_index(p, &g.buffer(k).rope) {
                Some(i) => i,
                None => return None,
            };
            if index > rope_len_chars(&g.buffer(k).rope) {
                return None;
            }
            let b = buffer_at_mut(&mut g.buffers, k);
            rope_insert(&mut b.rope, index, s.as_str());
        },
        Cmd::DeleteCharRange(a, z) => {
            let first = match checked_ropey_index(a, &g.buffer(k).rope) {
                Some(i) => i,
                None => return None,
            };
            let last = match checked_ropey_index(z, &g.buffer(k).rope) {
                Some(i) => i,
                None => return None,
            };
            let (lo, hi) = if first < last { (first, last) } else { (last, first) };
            if hi >= rope_len_chars(&g.buffer(k).rope) {
                return None;
            }
            let b = buffer_at_mut(&mut g.buffers, k);
            rope_remove(&mut b.rope, std::ops::RangeInclusive::new(lo, hi));
        },
        _ => return None,
    }
    proof {
        assert(g.buffer_map().dom() =~= old(g).buffer_map().dom());
    }
    Some(Cmd::BufferModified)
}

} // verus!
