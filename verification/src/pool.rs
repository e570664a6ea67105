//! Generation-checked slot registry.
//!
//! A `Handle` addresses a slot of a `Pool` and stays meaningful across
//! structural edits of the scene: it is valid only while the generation it
//! carries matches the live generation of the slot and the slot still holds a
//! payload, so a stale handle is detected instead of silently aliasing a
//! reused slot.

use vstd::prelude::*;

verus! {

/// An opaque, generation-checked reference into a [`Pool`].
#[derive(Clone, Copy, PartialEq, Eq, Structural, Debug)]
pub struct Handle {
    pub index: u32,
    pub generation: u32,
}

impl Handle {
    pub fn new(index: u32, generation: u32) -> (h: Handle)
        ensures
            h == (Handle { index, generation }),
    {
        Handle { index, generation }
    }
}

/// One slot of a pool: a live generation counter and, while the slot is
/// occupied, its payload.
#[derive(Clone, Copy, Debug)]
#[verifier::ext_equal]
pub struct Slot<T> {
    pub generation: u32,
    pub payload: Option<T>,
}

impl<T: View> View for Slot<T> {
    type V = Slot<T::V>;

    open spec fn view(&self) -> Slot<T::V> {
        Slot {
            generation: self.generation,
            payload: match self.payload {
                Some(ref t) => Some(t.view()),
                None => None,
            },
        }
    }
}

/// `h` addresses a live slot of `slots`: the index is in range, the
/// generation stored in the handle matches the live one, and the slot holds
/// a payload.
pub open spec fn valid_slot<V>(slots: Seq<Slot<V>>, h: Handle) -> bool {
    &&& h.index < slots.len()
    &&& slots[h.index as int].generation == h.generation
    &&& slots[h.index as int].payload is Some
}

/// An arena of generation-tagged slots. The editor core never frees slots
/// during an edit session, so slots are appended in spawn order and a
/// handle's generation is fixed at spawn; a payload may be taken out and put
/// back while a single mutation is applied to it.
#[verifier::ext_equal]
pub struct Pool<T> {
    slots: Vec<Slot<T>>,
}

impl<T: View> View for Pool<T> {
    type V = Seq<Slot<T::V>>;

    closed spec fn view(&self) -> Seq<Slot<T::V>> {
        self.slots.view().map(|i: int, s: Slot<T>| s.view())
    }
}

impl<T: View> Pool<T> {
    pub fn new() -> (p: Pool<T>)
        ensures
            p.view() == Seq::<Slot<T::V>>::empty(),
    {
        let p = Pool { slots: Vec::new() };
        proof {
            assert(p.view() =~= Seq::<Slot<T::V>>::empty());
        }
        p
    }

    pub fn len(&self) -> (n: usize)
        ensures
            n == self.view().len(),
    {
        self.slots.len()
    }

    /// Occupies a fresh slot with `value` and hands back its handle.
    pub fn spawn(&mut self, value: T) -> (h: Handle)
        requires
            old(self).view().len() < u32::MAX,
        ensures
            h == (Handle { index: old(self).view().len() as u32, generation: 1u32 }),
            final(self).view() == old(self).view().push(
                Slot { generation: 1u32, payload: Some(value.view()) },
            ),
    {
        let index = self.slots.len() as u32;
        self.slots.push(Slot { generation: 1, payload: Some(value) });
        proof {
            assert(final(self).view() =~= old(self).view().push(
                Slot { generation: 1u32, payload: Some(value.view()) },
            ));
        }
        Handle::new(index, 1)
    }

    pub fn is_valid(&self, h: Handle) -> (b: bool)
        ensures
            b == valid_slot(self.view(), h),
    {
        (h.index as usize) < self.slots.len() && self.slots[h.index as usize].generation
            == h.generation && self.slots[h.index as usize].payload.is_some()
    }

    /// Borrows the payload at a raw slot index, live or not: `None` for an
    /// emptied slot. This is how the whole pool is walked in slot order.
    pub fn payload_at(&self, index: usize) -> (t: Option<&T>)
        requires
            index < self.view().len(),
        ensures
            match t {
                Some(p) => self.view()[index as int].payload == Some(p.view()),
                None => self.view()[index as int].payload is None,
            },
    {
        self.slots[index].payload.as_ref()
    }

    /// Borrows the payload a valid handle addresses.
    pub fn get(&self, h: Handle) -> (t: &T)
        requires
            valid_slot(self.view(), h),
        ensures
            self.view()[h.index as int].payload == Some(t.view()),
    {
        self.slots[h.index as usize].payload.as_ref().unwrap()
    }

    /// Takes the payload out of a valid slot, leaving the slot empty but its
    /// generation untouched; the caller puts a payload back with [`Pool::put`].
    pub fn take(&mut self, h: Handle) -> (t: T)
        requires
            valid_slot(old(self).view(), h),
        ensures
            old(self).view()[h.index as int].payload == Some(t.view()),
            final(self).view() == old(self).view().update(
                h.index as int,
                Slot { generation: h.generation, payload: None },
            ),
    {
        let taken = self.slots[h.index as usize].payload.take();
        proof {
            assert(final(self).view() =~= old(self).view().update(
                h.index as int,
                Slot { generation: h.generation, payload: None },
            ));
        }
        taken.unwrap()
    }

    /// Puts a payload back into the emptied slot `h` addresses.
    pub fn put(&mut self, h: Handle, value: T)
        requires
            h.index < old(self).view().len(),
            old(self).view()[h.index as int].generation == h.generation,
            old(self).view()[h.index as int].payload is None,
        ensures
            final(self).view() == old(self).view().update(
                h.index as int,
                Slot { generation: h.generation, payload: Some(value.view()) },
            ),
    {
        self.slots[h.index as usize].payload = Some(value);
        proof {
            assert(final(self).view() =~= old(self).view().update(
                h.index as int,
                Slot { generation: h.generation, payload: Some(value.view()) },
            ));
        }
    }
}

} // verus!
