use vstd::prelude::*;
use std::collections::HashMap;

verus! {

broadcast use vstd::std_specs::hash::group_hash_axioms;

/// Allocates, resolves and frees the opaque non-zero integer handles that
/// identify live sessions across the boundary.
///
/// A handle is valid iff it is currently mapped to a session; the value `0`
/// is never allocated, so it always denotes "absent or destroyed".  Handles
/// are never reused: each allocation takes a fresh value, so an operation on
/// a destroyed handle is detected instead of reaching freed state.
pub struct Registry<T> {
    slots: HashMap<u64, T>,
    next: u64,
}

impl<T> Registry<T> {
    /// The sessions currently registered, by handle.
    pub closed spec fn sessions(self) -> Map<u64, T> {
        self.slots@
    }

    /// The handle the next allocation will take.
    pub closed spec fn next_handle(self) -> u64 {
        self.next
    }

    /// A handle resolves to a live session iff it is currently registered.
    pub open spec fn live(self, handle: u64) -> bool {
        self.sessions().contains_key(handle)
    }

    /// Every registered handle is non-zero and below the allocation cursor.
    pub open spec fn wf(self) -> bool {
        &&& 1 <= self.next_handle()
        &&& forall|k: u64| self.sessions().contains_key(k) ==> 1 <= k < self.next_handle()
    }

    /// Fresh handles remain available.
    pub open spec fn can_allocate(self) -> bool {
        self.next_handle() < u64::MAX
    }

    /// Reports, executably, whether a fresh handle is still available, so a
    /// caller can test `can_allocate` before asking for one.
    pub fn has_capacity(&self) -> (b: bool)
        ensures
            b == self.can_allocate(),
    {
        self.next < u64::MAX
    }

    /// An empty registry: no handle is live.
    pub fn new() -> (r: Self)
        ensures
            r.wf(),
            r.can_allocate(),
            r.sessions() == Map::<u64, T>::empty(),
            r.next_handle() == 1,
    {
        Registry { slots: HashMap::new(), next: 1 }
    }

    /// Registers a session and returns its fresh, non-zero handle.
    pub fn allocate(&mut self, session: T) -> (handle: u64)
        requires
            old(self).wf(),
            old(self).can_allocate(),
        ensures
            final(self).wf(),
            handle == old(self).next_handle(),
            handle != 0,
            !old(self).live(handle),
            final(self).live(handle),
            final(self).sessions() == old(self).sessions().insert(handle, session),
            final(self).next_handle() == old(self).next_handle() + 1,
    {
        let handle = self.next;
        self.next = self.next + 1;
        self.slots.insert(handle, session);
        proof {
            assert forall|k: u64| self.sessions().contains_key(k) implies 1 <= k
                < self.next_handle() by {
                if k != handle {
                    assert(old(self).sessions().contains_key(k));
                }
            }
        }
        handle
    }

    /// Resolves a handle to a shared view of its session, or nothing if the
    /// handle is zero, destroyed or never allocated.
    pub fn get(&self, handle: u64) -> (r: Option<&T>)
        ensures
            match r {
                Some(session) => self.live(handle) && *session == self.sessions()[handle],
                None => !self.live(handle),
            },
    {
        self.slots.get(&handle)
    }

    /// Removes and returns the session behind a handle, leaving the handle
    /// dead until the session is restored.
    pub fn take(&mut self, handle: u64) -> (r: Option<T>)
        ensures
            match r {
                Some(session) => old(self).live(handle) && session == old(self).sessions()[handle],
                None => !old(self).live(handle),
            },
            final(self).sessions() == old(self).sessions().remove(handle),
            final(self).next_handle() == old(self).next_handle(),
            old(self).wf() ==> final(self).wf(),
    {
        self.slots.remove(&handle)
    }

    /// Puts a session back behind a previously allocated handle.
    pub fn restore(&mut self, handle: u64, session: T)
        requires
            old(self).wf(),
            1 <= handle < old(self).next_handle(),
        ensures
            final(self).wf(),
            final(self).live(handle),
            final(self).sessions() == old(self).sessions().insert(handle, session),
            final(self).next_handle() == old(self).next_handle(),
    {
        self.slots.insert(handle, session);
        proof {
            assert forall|k: u64| self.sessions().contains_key(k) implies 1 <= k
                < self.next_handle() by {
                if k != handle {
                    assert(old(self).sessions().contains_key(k));
                }
            }
        }
    }

    /// Drops the session behind a handle, if any, and reports whether one
    /// was live.  Releasing a zero, destroyed or never-allocated handle is a
    /// no-op.
    pub fn release(&mut self, handle: u64) -> (was_live: bool)
        ensures
            was_live == old(self).live(handle),
            !final(self).live(handle),
            final(self).sessions() == old(self).sessions().remove(handle),
            final(self).next_handle() == old(self).next_handle(),
            old(self).wf() ==> final(self).wf(),
    {
        self.slots.remove(&handle).is_some()
    }

    /// The zero handle never resolves to a session: it is the caller's
    /// "absent or destroyed" sentinel.
    pub proof fn zero_handle_never_live(self)
        requires
            self.wf(),
        ensures
            !self.live(0),
    {
    }
}

} // verus!
