use vstd::prelude::*;
use slotmap::{DefaultKey, SlotMap};
use crate::types::{Buffer, Client};

verus! {

#[verifier::external_type_specification]
#[verifier::external_body]
pub struct ExDefaultKey(DefaultKey);

/// Relies on the `Clone` that slotmap derives for the `Copy` type `DefaultKey`: the same key.
pub assume_specification[ <DefaultKey as Clone>::clone ](k: &DefaultKey) -> (r: DefaultKey)
    ensures
        r == *k,
;

/// Relies on the `PartialEq` that slotmap derives for `DefaultKey`: equal keys are the same key.
pub assume_specification[ <DefaultKey as PartialEq>::eq ](a: &DefaultKey, b: &DefaultKey) -> (r: bool)
    ensures
        r == (*a == *b),
;

/// The buffer registry: a slot map from generational keys to buffers. Verus refuses
/// the declaration of `SlotMap` itself, so it is held here, seen only through the
/// wrappers below.
#[verifier::external_body]
pub struct BufferSlots {
    slots: SlotMap<DefaultKey, Buffer>,
}

/// The client registry: a slot map from generational keys to clients, held as
/// `BufferSlots` is.
#[verifier::external_body]
pub struct ClientSlots {
    slots: SlotMap<DefaultKey, Client>,
}

/// The live entries of the buffer registry.
pub uninterp spec fn buffer_slots(m: BufferSlots) -> Map<DefaultKey, Buffer>;

/// Every key the buffer registry has handed out, live or removed.
pub uninterp spec fn buffer_history(m: BufferSlots) -> Set<DefaultKey>;

/// The live entries of the client registry.
pub uninterp spec fn client_slots(m: ClientSlots) -> Map<DefaultKey, Client>;

/// Every key the client registry has handed out, live or removed.
pub uninterp spec fn client_history(m: ClientSlots) -> Set<DefaultKey>;

/// How many keys a registry may hand out. Each key of a slot carries the slot's next odd
/// version, and versions wrap after 2^31 keys of one slot, so below this bound no key
/// comes twice; nor are `u32::MAX` slots, at which `SlotMap::insert` panics, ever in use.
pub const MAX_ISSUED: u64 = 0x8000_0000;

/// Relies on `slotmap::SlotMap::new`: an empty map that has handed out no key.
#[verifier::external_body]
pub(crate) fn new_buffer_slots() -> (r: BufferSlots)
    ensures
        buffer_slots(r).dom() == Set::<DefaultKey>::empty(),
        buffer_history(r) == Set::<DefaultKey>::empty(),
{
    BufferSlots { slots: SlotMap::new() }
}

/// Relies on `slotmap::SlotMap::insert`: the value is stored under a key that the map
/// never handed out before, as long as fewer than 2^31 keys were handed out.
#[verifier::external_body]
pub(crate) fn insert_buffer(m: &mut BufferSlots, b: Buffer) -> (k: DefaultKey)
    requires
        buffer_history(*old(m)).finite(),
        buffer_history(*old(m)).len() < MAX_ISSUED,
    ensures
        !buffer_history(*old(m)).contains(k),
        buffer_history(*final(m)) == buffer_history(*old(m)).insert(k),
        buffer_slots(*final(m)) == buffer_slots(*old(m)).insert(k, b),
{
    m.slots.insert(b)
}

/// Relies on `slotmap::SlotMap::keys`: each live key once.
#[verifier::external_body]
pub(crate) fn buffer_keys(m: &BufferSlots) -> (r: Vec<DefaultKey>)
    ensures
        r@.to_set() == buffer_slots(*m).dom(),
        r@.no_duplicates(),
{
    m.slots.keys().collect()
}

/// Relies on `slotmap::SlotMap`'s `Index`: the value under a live key.
#[verifier::external_body]
pub(crate) fn buffer_at(m: &BufferSlots, k: DefaultKey) -> (r: &Buffer)
    requires
        buffer_slots(*m).contains_key(k),
    ensures
        *r == buffer_slots(*m)[k],
{
    &m.slots[k]
}

/// Relies on `slotmap::SlotMap`'s `IndexMut`: the value under a live key, to change in place.
#[verifier::external_body]
pub(crate) fn buffer_at_mut<'a>(m: &'a mut BufferSlots, k: DefaultKey) -> (r: &'a mut Buffer)
    requires
        buffer_slots(*old(m)).contains_key(k),
    ensures
        *r == buffer_slots(*old(m))[k],
        buffer_slots(*final(m)) == buffer_slots(*old(m)).insert(k, *final(r)),
        buffer_history(*final(m)) == buffer_history(*old(m)),
{
    &mut m.slots[k]
}

/// Relies on `slotmap::SlotMap::new`: an empty map that has handed out no key.
#[verifier::external_body]
pub(crate) fn new_client_slots() -> (r: ClientSlots)
    ensures
        client_slots(r).dom() == Set::<DefaultKey>::empty(),
        client_history(r) == Set::<DefaultKey>::empty(),
{
    ClientSlots { slots: SlotMap::new() }
}

/// Relies on `slotmap::SlotMap::insert`: the value is stored under a key that the map
/// never handed out before, as long as fewer than 2^31 keys were handed out.
#[verifier::external_body]
pub(crate) fn insert_client(m: &mut ClientSlots, c: Client) -> (k: DefaultKey)
    requires
        client_history(*old(m)).finite(),
        client_history(*old(m)).len() < MAX_ISSUED,
    ensures
        !client_history(*old(m)).contains(k),
        client_history(*final(m)) == client_history(*old(m)).insert(k),
        client_slots(*final(m)) == client_slots(*old(m)).insert(k, c),
{
    m.slots.insert(c)
}

/// Relies on `slotmap::SlotMap::contains_key`: whether the key is live.
#[verifier::external_body]
pub(crate) fn contains_client(m: &ClientSlots, k: DefaultKey) -> (r: bool)
    ensures
        r == client_slots(*m).contains_key(k),
{
    m.slots.contains_key(k)
}

/// Relies on `slotmap::SlotMap::remove`: a live key's value is taken out; the key
/// stays among those handed out.
#[verifier::external_body]
pub(crate) fn remove_client(m: &mut ClientSlots, k: DefaultKey) -> (r: Option<Client>)
    ensures
        r == (if client_slots(*old(m)).contains_key(k) {
            Some(client_slots(*old(m))[k])
        } else {
            None
        }),
        client_slots(*final(m)) == client_slots(*old(m)).remove(k),
        client_history(*final(m)) == client_history(*old(m)),
{
    m.slots.remove(k)
}

/// Relies on `slotmap::SlotMap::keys`: each live key once.
#[verifier::external_body]
pub(crate) fn client_keys(m: &ClientSlots) -> (r: Vec<DefaultKey>)
    ensures
        r@.to_set() == client_slots(*m).dom(),
        r@.no_duplicates(),
{
    m.slots.keys().collect()
}

/// Relies on `slotmap::SlotMap`'s `Index`: the value under a live key.
#[verifier::external_body]
pub(crate) fn client_at(m: &ClientSlots, k: DefaultKey) -> (r: &Client)
    requires
        client_slots(*m).contains_key(k),
    ensures
        *r == client_slots(*m)[k],
{
    &m.slots[k]
}

/// Relies on `slotmap::SlotMap`'s `IndexMut`: the value under a live key, to change in place.
#[verifier::external_body]
pub(crate) fn client_at_mut<'a>(m: &'a mut ClientSlots, k: DefaultKey) -> (r:
    &'a mut Client)
    requires
        client_slots(*old(m)).contains_key(k),
    ensures
        *r == client_slots(*old(m))[k],
        client_slots(*final(m)) == client_slots(*old(m)).insert(k, *final(r)),
        client_history(*final(m)) == client_history(*old(m)),
{
    &mut m.slots[k]
}

} // verus!
