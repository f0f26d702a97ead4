//! The registry of the windows that the event loop dispatches to, keyed by the
//! windowing system's window id.
use std::collections::HashMap;
use vstd::prelude::*;
use vstd::std_specs::hash::spec_keys_iter;
use vstd::std_specs::iter::IteratorSpec;

verus! {

broadcast use vstd::std_specs::hash::group_hash_axioms;

/// The windows known to the event loop. A window is kept as a handle `W` (the
/// runtime uses a weak reference, so that the registry does not keep a closed
/// window alive).
pub struct WindowRegistry<W> {
    windows: HashMap<u64, W>,
}

impl<W> View for WindowRegistry<W> {
    type V = Map<u64, W>;

    closed spec fn view(&self) -> Map<u64, W> {
        self.windows@
    }
}

impl<W> WindowRegistry<W> {
    /// A registry without windows.
    pub fn new() -> (registry: Self)
        ensures
            registry@ == Map::<u64, W>::empty(),
    {
        WindowRegistry { windows: HashMap::new() }
    }

    /// The handle registered under `id`, if any.
    pub fn get(&self, id: u64) -> (window: Option<&W>)
        ensures
            match window {
                Some(w) => self@.contains_key(id) && *w == self@[id],
                None => !self@.contains_key(id),
            },
    {
        self.windows.get(&id)
    }

    /// The ids of all registered windows, each once, in no particular order.
    pub fn window_ids(&self) -> (ids: Vec<u64>)
        ensures
            ids@.to_set() == self@.dom(),
            ids@.no_duplicates(),
            ids@.len() == self@.len(),
    {
        let mut ids: Vec<u64> = Vec::new();
        let ghost keys = spec_keys_iter(&self.windows).remaining();
        for id in it: self.windows.keys()
            invariant
                it.seq() == keys,
                keys.unref().to_set() == self@.dom(),
                keys.no_duplicates(),
                keys.len() == self@.dom().len(),
                ids@.len() == it.index(),
                forall|i: int| 0 <= i < ids@.len() ==> ids@[i] == *keys[i],
        {
            ids.push(*id);
        }
        assert(ids@ =~= keys.unref());
        ids
    }
}

/// Registers `window` under `id`, replacing what was registered under that id.
pub fn register_window<W>(registry: &mut WindowRegistry<W>, id: u64, window: W)
    ensures
        final(registry)@ == old(registry)@.insert(id, window),
{
    registry.windows.insert(id, window);
}

/// Forgets the window registered under `id`; nothing changes if there is none.
pub fn unregister_window<W>(registry: &mut WindowRegistry<W>, id: u64)
    ensures
        final(registry)@ == old(registry)@.remove(id),
{
    registry.windows.remove(&id);
}

/// A window that was registered is found under its id, with the handle it was
/// registered with, and registering it leaves the other ids as they were.
pub proof fn lemma_register_then_lookup<W>(before: Map<u64, W>, id: u64, window: W, other: u64)
    requires
        other != id,
    ensures
        before.insert(id, window).contains_key(id),
        before.insert(id, window)[id] == window,
        before.insert(id, window).contains_key(other) == before.contains_key(other),
        before.contains_key(other) ==> before.insert(id, window)[other] == before[other],
{
}

/// After a window is unregistered nothing is found under its id, and the other
/// ids are as they were.
pub proof fn lemma_unregister_then_lookup<W>(before: Map<u64, W>, id: u64, other: u64)
    requires
        other != id,
    ensures
        !before.remove(id).contains_key(id),
        before.remove(id).contains_key(other) == before.contains_key(other),
        before.contains_key(other) ==> before.remove(id)[other] == before[other],
{
}

/// Registering a window under an id that was free and unregistering it again
/// gives back the registry that there was before.
pub proof fn lemma_register_unregister_roundtrip<W>(before: Map<u64, W>, id: u64, window: W)
    requires
        !before.contains_key(id),
    ensures
        before.insert(id, window).remove(id) == before,
{
    assert(before.insert(id, window).remove(id) =~= before);
}

} // verus!
