//! The handle table: which typed object stands behind which host handle, for
//! as long as the host holds the handle live.

use vstd::prelude::*;
use crate::clock::ClockHandle;

verus! {

/// A host handle: a slot of the table and the generation of the slot at the
/// time the handle was given out.
#[derive(Clone, Copy, Debug, PartialEq, Eq, Structural)]
pub struct Handle {
    pub index: usize,
    pub generation: u64,
}

/// A misuse of a handle.
#[derive(Clone, Copy, Debug, PartialEq, Eq, Structural)]
pub enum LifecycleError {
    UseAfterDestroy,
}

/// A typed object as a shim sees it: the handle that the host holds and the
/// object behind it, lent for one call.
pub struct WrappedObject<'a, T> {
    pub handle: Handle,
    pub wrapped: &'a T,
}

/// One slot: the generation it is in, and the object if one lives there.
pub struct Slot<T> {
    pub generation: u64,
    pub object: Option<T>,
}

/// The objects of one class, each behind the handle it was given.
pub struct HandleTable<T> {
    slots: Vec<Slot<T>>,
}

impl<T> HandleTable<T> {
    /// The slots, by index.
    pub closed spec fn slots(&self) -> Seq<Slot<T>> {
        self.slots@
    }

    /// Whether the host holds `h` live: its slot is in the handle's generation
    /// and an object is there.
    pub open spec fn live(&self, h: Handle) -> bool {
        h.index < self.slots().len() && self.slots()[h.index as int].generation == h.generation
            && self.slots()[h.index as int].object.is_some()
    }

    /// The object behind a live handle.
    pub open spec fn object(&self, h: Handle) -> T
        recommends
            self.live(h),
    {
        self.slots()[h.index as int].object.unwrap()
    }

    /// Whether `h` is a handle of the past: its slot has moved on to a later
    /// generation.
    pub open spec fn retired(&self, h: Handle) -> bool {
        h.index < self.slots().len() && h.generation < self.slots()[h.index as int].generation
    }

    /// A slot in its last generation holds no object, so every live handle can
    /// still be retired.
    pub open spec fn wf(&self) -> bool {
        forall|i: int|
            0 <= i < self.slots().len() && (#[trigger] self.slots()[i]).object.is_some()
                ==> self.slots()[i].generation < u64::MAX
    }

    /// An empty table.
    pub fn new() -> (t: HandleTable<T>)
        ensures
            t.wf(),
            t.slots().len() == 0,
    {
        HandleTable { slots: Vec::new() }
    }

    /// Whether the slot at `i` can take an object: it holds none and is not in
    /// its last generation.
    pub open spec fn vacant(&self, i: int) -> bool {
        0 <= i < self.slots().len() && self.slots()[i].object.is_none() && self.slots()[i].generation
            < u64::MAX
    }

    /// Takes an object in and gives out the handle it lives behind: the first
    /// vacant slot in the generation it is in, or a new slot at the end in
    /// generation zero. Every other handle stays as it was, live or not, and
    /// a retired handle stays retired.
    pub fn instantiate(&mut self, object: T) -> (h: Handle)
        requires
            old(self).wf(),
        ensures
            final(self).wf(),
            h.index <= old(self).slots().len(),
            forall|j: int| 0 <= j < h.index ==> !old(self).vacant(j),
            h.index < old(self).slots().len() ==> old(self).vacant(h.index as int)
                && h.generation == old(self).slots()[h.index as int].generation
                && final(self).slots() == old(self).slots().update(
                h.index as int,
                (Slot { generation: h.generation, object: Some(object) }),
            ),
            h.index == old(self).slots().len() ==> h.generation == 0 && final(self).slots() == old(
                self,
            ).slots().push((Slot { generation: 0, object: Some(object) })),
            !old(self).live(h),
            !old(self).retired(h),
            final(self).live(h),
            final(self).object(h) == object,
            forall|g: Handle| g != h ==> final(self).live(g) == old(self).live(g),
            forall|g: Handle| old(self).live(g) ==> final(self).object(g) == old(self).object(g),
            forall|g: Handle| old(self).retired(g) ==> final(self).retired(g),
    {
        let mut i: usize = 0;
        while i < self.slots.len()
            invariant
                i <= self.slots.len(),
                *self == *old(self),
                self.wf(),
                forall|j: int| 0 <= j < i ==> !self.vacant(j),
            decreases self.slots.len() - i,
        {
            let generation: u64 = self.slots[i].generation;
            if self.slots[i].object.is_none() && generation < u64::MAX {
                self.slots.set(i, Slot { generation, object: Some(object) });
                return Handle { index: i, generation };
            }
            i = i + 1;
        }
        let index = self.slots.len();
        self.slots.push(Slot { generation: 0, object: Some(object) });
        Handle { index, generation: 0 }
    }

    /// Recovers the object behind a handle and lends it for as long as the
    /// table is borrowed; nothing for a handle that is not live.
    pub fn from_handle<'a>(&'a self, h: Handle) -> (r: Option<WrappedObject<'a, T>>)
        ensures
            match r {
                Some(w) => self.live(h) && w.handle == h && *w.wrapped == self.object(h),
                None => !self.live(h),
            },
    {
        if h.index < self.slots.len() && self.slots[h.index].generation == h.generation {
            match self.slots[h.index].object.as_ref() {
                Some(wrapped) => Some(WrappedObject { handle: h, wrapped }),
                None => None,
            }
        } else {
            None
        }
    }

    /// Tears down the object behind a handle. The handle is retired for good.
    /// A handle that is not live is refused and nothing changes.
    pub fn destroy(&mut self, h: Handle) -> (r: Result<(), LifecycleError>)
        requires
            old(self).wf(),
        ensures
            final(self).wf(),
            r.is_ok() == old(self).live(h),
            r.is_err() ==> r == Err::<(), LifecycleError>(LifecycleError::UseAfterDestroy)
                && final(self).slots() == old(self).slots(),
            r.is_ok() ==> final(self).retired(h) && final(self).slots() == old(self).slots().update(
                h.index as int,
                (Slot { generation: (h.generation + 1) as u64, object: None }),
            ),
            !final(self).live(h),
            forall|g: Handle| g != h ==> final(self).live(g) == old(self).live(g),
            forall|g: Handle| g != h && old(self).live(g) ==> final(self).object(g) == old(self).object(g),
            forall|g: Handle| old(self).retired(g) ==> final(self).retired(g),
    {
        if h.index < self.slots.len() && self.slots[h.index].generation == h.generation
            && self.slots[h.index].object.is_some() {
            self.slots.set(h.index, Slot { generation: h.generation + 1, object: None });
            Ok(())
        } else {
            Err(LifecycleError::UseAfterDestroy)
        }
    }
}

/// Tears down the object behind a handle together with its clock: the
/// handle is retired and the clock disarmed, so that its callback cannot run
/// for an object that is gone. A handle that is not live is refused, and
/// neither the table nor the clock changes.
pub fn teardown<T>(table: &mut HandleTable<T>, h: Handle, clock: &mut ClockHandle) -> (r: Result<(), LifecycleError>)
    requires
        old(table).wf(),
    ensures
        final(table).wf(),
        r.is_ok() == old(table).live(h),
        !final(table).live(h),
        final(clock).timer() == old(clock).timer(),
        final(clock).callback() == old(clock).callback(),
        r.is_ok() ==> final(clock).state().pending.is_none() && final(table).retired(h) && final(table).slots()
            == old(table).slots().update(
            h.index as int,
            (Slot { generation: (h.generation + 1) as u64, object: None }),
        ),
        r.is_err() ==> r == Err::<(), LifecycleError>(LifecycleError::UseAfterDestroy) && final(clock).state()
            == old(clock).state() && final(table).slots() == old(table).slots(),
{
    match table.destroy(h) {
        Ok(()) => {
            clock.cancel();
            Ok(())
        },
        Err(e) => Err(e),
    }
}

/// A retired handle is not live.
pub proof fn retired_is_not_live<T>(t: HandleTable<T>, h: Handle)
    requires
        t.retired(h),
    ensures
        !t.live(h),
{
}

} // verus!
