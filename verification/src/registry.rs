//! Window registry: the bidirectional association between engine window ids
//! and native window handles.
//!
//! Ids are minted from a monotone counter, never derived from handle bits.
//! The forward map holds exactly the live windows. The reverse map is kept on
//! removal (a tombstone), so a late OS event for an already-closed window
//! still resolves to the id it belonged to and can be recognized and dropped
//! instead of being misrouted.

use std::collections::HashMap;
use vstd::prelude::*;

use crate::window::{initial_state, spec_initial_state, NativeWindowInfo, WindowDescriptor,
    WindowState};
use crate::BackendError;

verus! {

broadcast use vstd::std_specs::hash::group_hash_axioms;

pub struct WindowRegistry {
    /// Live windows: engine id -> native handle.
    forward: HashMap<u64, u64>,
    /// Event dispatch: native handle -> engine id; entries outlive removal as
    /// tombstones.
    reverse: HashMap<u64, u64>,
    /// The next engine id to mint; ids are unique for the registry's lifetime.
    next_id: u64,
}

impl WindowRegistry {
    /// The live id -> handle association.
    pub closed spec fn forward_map(self) -> Map<u64, u64> {
        self.forward@
    }

    /// The handle -> id association, tombstones included.
    pub closed spec fn reverse_map(self) -> Map<u64, u64> {
        self.reverse@
    }

    /// The next id the registry will mint.
    pub closed spec fn spec_next_id(self) -> u64 {
        self.next_id
    }

    /// Every live id was minted earlier than the counter, and its handle
    /// resolves back to it through the reverse map.
    pub open spec fn wf(self) -> bool {
        &&& forall|id: u64| #[trigger]
            self.forward_map().contains_key(id) ==> id < self.spec_next_id()
        &&& forall|id: u64| #[trigger] self.forward_map().contains_key(id) ==> {
            &&& self.reverse_map().contains_key(self.forward_map()[id])
            &&& self.reverse_map()[self.forward_map()[id]] == id
        }
    }

    /// Whether some live window owns this native handle.
    pub open spec fn spec_handle_in_use(self, handle: u64) -> bool {
        exists|id: u64|
            #[trigger] self.forward_map().contains_key(id) && self.forward_map()[id] == handle
    }

    /// Whether some live window owns this native handle. Callers use it to
    /// uphold the registry's one-id-per-handle invariant before registering a
    /// freshly created window.
    pub fn handle_in_use(&self, handle: u64) -> (r: bool)
        requires
            self.wf(),
        ensures
            r == self.spec_handle_in_use(handle),
    {
        match self.reverse.get(&handle) {
            Some(id) => {
                match self.forward.get(id) {
                    Some(h) => {
                        proof {
                            if *h == handle {
                                assert(self.forward_map().contains_key(*id)
                                    && self.forward_map()[*id] == handle);
                            } else {
                                assert forall|j: u64| #[trigger]
                                    self.forward_map().contains_key(j) implies self.forward_map()[j]
                                    != handle by {
                                    if self.forward_map()[j] == handle {
                                        assert(self.reverse_map()[handle] == j);
                                    }
                                }
                            }
                        }
                        *h == handle
                    },
                    None => {
                        proof {
                            assert forall|j: u64| #[trigger]
                                self.forward_map().contains_key(j) implies self.forward_map()[j]
                                != handle by {
                                if self.forward_map()[j] == handle {
                                    assert(self.reverse_map()[handle] == j);
                                }
                            }
                        }
                        false
                    },
                }
            },
            None => {
                proof {
                    assert forall|j: u64| #[trigger]
                        self.forward_map().contains_key(j) implies self.forward_map()[j]
                        != handle by {
                        if self.forward_map()[j] == handle {
                            assert(self.reverse_map().contains_key(handle));
                        }
                    }
                }
                false
            },
        }
    }

    /// An empty registry that will mint ids from 0.
    pub fn new() -> (r: Self)
        ensures
            r.wf(),
            r.forward_map() == Map::<u64, u64>::empty(),
            r.reverse_map() == Map::<u64, u64>::empty(),
            r.spec_next_id() == 0,
    {
        WindowRegistry { forward: HashMap::new(), reverse: HashMap::new(), next_id: 0 }
    }

    /// Registers a window created from `desc`, whose native side the OS
    /// reported as `native`; mints a fresh id and records the mapping both
    /// ways. `None` for `native` means the OS denied creation: the registry
    /// is left untouched and the failure is typed, not fatal.
    pub fn create_window(
        &mut self,
        desc: &WindowDescriptor,
        native: &Option<NativeWindowInfo>,
    ) -> (r: Result<(u64, WindowState), BackendError>)
        requires
            old(self).wf(),
            old(self).spec_next_id() < u64::MAX,
            // at most one engine id per native handle at any time: the OS
            // cannot hand out a handle that is still owned by a live window
            match *native {
                Some(info) => !old(self).spec_handle_in_use(info.handle),
                None => true,
            },
        ensures
            final(self).wf(),
            match *native {
                Some(info) => {
                    &&& r == Ok::<(u64, WindowState), BackendError>(
                        (old(self).spec_next_id(), spec_initial_state(*desc, info)),
                    )
                    &&& final(self).forward_map() == old(self).forward_map().insert(
                        old(self).spec_next_id(),
                        info.handle,
                    )
                    &&& final(self).reverse_map() == old(self).reverse_map().insert(
                        info.handle,
                        old(self).spec_next_id(),
                    )
                    &&& final(self).spec_next_id() == old(self).spec_next_id() + 1
                },
                None => {
                    &&& r == Err::<(u64, WindowState), BackendError>(
                        BackendError::WindowCreationFailed,
                    )
                    &&& *final(self) == *old(self)
                },
            },
    {
        match native {
            Some(info) => {
                let id = self.next_id;
                self.next_id = self.next_id + 1;
                self.forward.insert(id, info.handle);
                self.reverse.insert(info.handle, id);
                let st = initial_state(desc, info);
                proof {
                    assert forall|i: u64| #[trigger]
                        final(self).forward_map().contains_key(i) implies {
                        &&& i < final(self).spec_next_id()
                        &&& final(self).reverse_map().contains_key(final(self).forward_map()[i])
                        &&& final(self).reverse_map()[final(self).forward_map()[i]] == i
                    } by {
                        if i != id {
                            assert(old(self).forward_map().contains_key(i));
                        }
                    }
                }
                Ok((id, st))
            },
            None => Err(BackendError::WindowCreationFailed),
        }
    }

    /// Looks up the native handle of a live window; absence is not an error,
    /// it signals an unknown or closed window.
    pub fn get_native(&self, id: u64) -> (r: Option<u64>)
        ensures
            r == if self.forward_map().contains_key(id) {
                Some(self.forward_map()[id])
            } else {
                None::<u64>
            },
    {
        match self.forward.get(&id) {
            Some(h) => Some(*h),
            None => None,
        }
    }

    /// Reverse lookup for event dispatch: the engine id a native handle
    /// belongs (or last belonged) to.
    pub fn get_engine_id(&self, handle: u64) -> (r: Option<u64>)
        ensures
            r == if self.reverse_map().contains_key(handle) {
                Some(self.reverse_map()[handle])
            } else {
                None::<u64>
            },
    {
        match self.reverse.get(&handle) {
            Some(id) => Some(*id),
            None => None,
        }
    }

    /// Detaches a live window and hands its handle to the caller, who must
    /// destroy the native resource exactly once. The reverse mapping is
    /// intentionally retained as a tombstone. A second `remove` of the same
    /// id returns `None`, so no double destroy can be driven through the
    /// registry.
    pub fn remove(&mut self, id: u64) -> (r: Option<u64>)
        requires
            old(self).wf(),
        ensures
            final(self).wf(),
            final(self).reverse_map() == old(self).reverse_map(),
            final(self).spec_next_id() == old(self).spec_next_id(),
            if old(self).forward_map().contains_key(id) {
                &&& r == Some(old(self).forward_map()[id])
                &&& final(self).forward_map() == old(self).forward_map().remove(id)
            } else {
                &&& r == None::<u64>
                &&& final(self).forward_map() == old(self).forward_map()
            },
    {
        let r = self.forward.remove(&id);
        proof {
            assert forall|i: u64| #[trigger] final(self).forward_map().contains_key(i) implies {
                &&& i < final(self).spec_next_id()
                &&& final(self).reverse_map().contains_key(final(self).forward_map()[i])
                &&& final(self).reverse_map()[final(self).forward_map()[i]] == i
            } by {
                assert(old(self).forward_map().contains_key(i));
            }
        }
        r
    }

    /// Whether `id` is a live window.
    pub fn contains(&self, id: u64) -> (r: bool)
        ensures
            r == self.forward_map().contains_key(id),
    {
        self.forward.contains_key(&id)
    }
}

/// Law: a recorded handle keeps being returned by forward lookup across
/// unrelated registry operations. Creating another window inserts at the
/// fresh id `spec_next_id()` (never `id`, since minted ids grow), and
/// removing a different id does not touch `id`'s entry; in both cases the
/// handle looked up for `id` is unchanged.
pub proof fn lemma_handle_lookup_stable(
    r: WindowRegistry,
    id: u64,
    other_handle: u64,
    other_id: u64,
)
    requires
        r.wf(),
        r.forward_map().contains_key(id),
        other_id != id,
    ensures
        r.spec_next_id() != id,
        r.forward_map().insert(r.spec_next_id(), other_handle).contains_key(id),
        r.forward_map().insert(r.spec_next_id(), other_handle)[id] == r.forward_map()[id],
        r.forward_map().remove(other_id).contains_key(id),
        r.forward_map().remove(other_id)[id] == r.forward_map()[id],
{
}

/// Law: after a live window is removed, the forward lookup for its id is
/// gone, but the reverse map still resolves the window's old handle to that
/// id -- the tombstone that lets late events be recognized and dropped.
pub proof fn lemma_remove_leaves_tombstone(r: WindowRegistry, id: u64)
    requires
        r.wf(),
        r.forward_map().contains_key(id),
    ensures
        !r.forward_map().remove(id).contains_key(id),
        r.reverse_map().contains_key(r.forward_map()[id]),
        r.reverse_map()[r.forward_map()[id]] == id,
{
}

} // verus!
