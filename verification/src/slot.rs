//! A dense, stable-index container with constant-time insert, lookup and
//! removal, and a three-state slot discipline.
//!
//! Each slot is `Empty`, `Present`, or `Taken`. `Taken` marks a value that has
//! been moved out temporarily for an in-flight callback dispatch; the slot is
//! still occupied, so its index cannot be reused until the value is restored
//! or the slot is removed. Freed indices are kept on a free list and reused by
//! later insertions.

use vstd::prelude::*;

verus! {

/// One slot of a [`SlotTable`].
pub enum Slot<T> {
    /// The slot is unoccupied; its index is available for reuse.
    Empty,
    /// The slot holds a value.
    Present(T),
    /// The slot's value is out for an in-flight dispatch; the slot stays
    /// occupied until the value is restored or the slot is removed.
    Taken,
}

impl<T> Slot<T> {
    /// True when the slot is occupied: it holds a value or its value is out
    /// for dispatch.
    pub open spec fn is_occupied(&self) -> bool {
        self is Present || self is Taken
    }
}

/// The number of occupied slots in a sequence of slots.
pub open spec fn occupied_count<T>(s: Seq<Slot<T>>) -> nat
    decreases s.len(),
{
    if s.len() == 0 {
        0
    } else {
        occupied_count(s.drop_last()) + if s.last().is_occupied() {
            1nat
        } else {
            0nat
        }
    }
}

/// Dense, stable-index container. The view is the sequence of slots.
pub struct SlotTable<T> {
    slots: Vec<Slot<T>>,
    free: Vec<usize>,
    occupied: usize,
}

impl<T> View for SlotTable<T> {
    type V = Seq<Slot<T>>;

    closed spec fn view(&self) -> Seq<Slot<T>> {
        self.slots@
    }
}

impl<T> SlotTable<T> {
    /// Internal consistency: the free list names only empty slots, without
    /// duplicates, and the occupied counter matches the slots.
    pub closed spec fn wf(&self) -> bool {
        &&& forall|k: int|
            0 <= k < self.free@.len() ==> (#[trigger] self.free@[k]) < self.slots@.len()
                && self.slots@[self.free@[k] as int] is Empty
        &&& forall|k1: int, k2: int|
            0 <= k1 < k2 < self.free@.len() ==> (#[trigger] self.free@[k1]) != (
            #[trigger] self.free@[k2])
        &&& self.occupied == occupied_count(self.slots@)
    }

    /// The index the next insertion will use.
    pub closed spec fn next_spec(&self) -> nat {
        if self.free@.len() == 0 {
            self.slots@.len()
        } else {
            self.free@.last() as nat
        }
    }

    /// Creates an empty table.
    pub fn new() -> (t: SlotTable<T>)
        ensures
            t.wf(),
            t@ == Seq::<Slot<T>>::empty(),
    {
        SlotTable { slots: Vec::new(), free: Vec::new(), occupied: 0 }
    }

    /// The index a subsequent `put` will return, so that a caller can wire
    /// references to a value before inserting it.
    pub fn next_index(&self) -> (i: usize)
        requires
            self.wf(),
        ensures
            i == self.next_spec(),
            i <= self@.len(),
            i < self@.len() ==> self@[i as int] is Empty,
    {
        if self.free.len() == 0 {
            self.slots.len()
        } else {
            self.free[self.free.len() - 1]
        }
    }

    /// Inserts a value, taking ownership, and returns its index: the index
    /// `next_index` predicted. No other slot changes.
    pub fn put(&mut self, v: T) -> (i: usize)
        requires
            old(self).wf(),
        ensures
            final(self).wf(),
            i == old(self).next_spec(),
            i <= old(self)@.len(),
            final(self)@ == if i < old(self)@.len() {
                old(self)@.update(i as int, Slot::Present(v))
            } else {
                old(self)@.push(Slot::Present(v))
            },
    {
        let n = self.slots.len();
        proof {
            lemma_occupied_count_le_len(self.slots@);
        }
        match self.free.pop() {
            Some(i) => {
                proof {
                    lemma_occupied_count_update(self.slots@, i as int, Slot::Present(v));
                    lemma_occupied_count_le_len(self.slots@.update(i as int, Slot::Present(v)));
                }
                self.slots[i] = Slot::Present(v);
                self.occupied = self.occupied + 1;
                i
            },
            None => {
                self.slots.push(Slot::Present(v));
                let n2 = self.slots.len();
                proof {
                    assert(self.slots@.drop_last() =~= old(self).slots@);
                }
                self.occupied = self.occupied + 1;
                n
            },
        }
    }

    /// Borrows the value at `i`, absent when the slot is out of range, empty,
    /// or taken for dispatch.
    pub fn get(&self, i: usize) -> (r: Option<&T>)
        ensures
            match r {
                Some(p) => i < self@.len() && self@[i as int] == Slot::Present(*p),
                None => !(i < self@.len() && self@[i as int] is Present),
            },
    {
        if i < self.slots.len() {
            match &self.slots[i] {
                Slot::Present(p) => Some(p),
                _ => None,
            }
        } else {
            None
        }
    }

    /// Mutably borrows the value at `i`, absent when the slot is out of
    /// range, empty, or taken for dispatch.
    pub fn get_mut(&mut self, i: usize) -> (r: Option<&mut T>)
        requires
            old(self).wf(),
        ensures
            final(self).wf(),
            match r {
                Some(p) => i < old(self)@.len() && old(self)@[i as int] == Slot::Present(*p)
                    && final(self)@ == old(self)@.update(i as int, Slot::Present(*final(p))),
                None => !(i < old(self)@.len() && old(self)@[i as int] is Present) && *final(self) == *old(self),
            },
    {
        if i < self.slots.len() {
            let present_here = match &self.slots[i] {
                Slot::Present(_) => true,
                _ => false,
            };
            if present_here {
                proof {
                    assert forall|x: T|
                        occupied_count(self.slots@.update(i as int, Slot::Present(x)))
                            + if self.slots@[i as int].is_occupied() {
                            1nat
                        } else {
                            0nat
                        } == occupied_count(self.slots@) + 1nat by {
                        lemma_occupied_count_update(self.slots@, i as int, Slot::Present(x));
                    }
                }
                match &mut self.slots[i] {
                    Slot::Present(p) => Some(p),
                    _ => {
                        proof {
                            assert(false);
                        }
                        None
                    },
                }
            } else {
                None
            }
        } else {
            None
        }
    }

    /// Removes the slot at `i`, freeing its index for reuse. Returns the
    /// value when the slot held one; removing a slot whose value is out for
    /// dispatch frees the slot and returns nothing, and the in-flight value
    /// will not be restored.
    pub fn take(&mut self, i: usize) -> (r: Option<T>)
        requires
            old(self).wf(),
        ensures
            final(self).wf(),
            old(self).index_occupied(i) ==> final(self)@ == old(self)@.update(
                i as int,
                Slot::Empty,
            ),
            !old(self).index_occupied(i) ==> *final(self) == *old(self),
            match r {
                Some(v) => i < old(self)@.len() && old(self)@[i as int] == Slot::Present(v),
                None => !(i < old(self)@.len() && old(self)@[i as int] is Present),
            },
    {
        if i < self.slots.len() {
            let occupied_here = match &self.slots[i] {
                Slot::Empty => false,
                _ => true,
            };
            if occupied_here {
                proof {
                    lemma_occupied_count_update(self.slots@, i as int, Slot::<T>::Empty);
                }
                let mut tmp: Slot<T> = Slot::Empty;
                core::mem::swap(&mut self.slots[i], &mut tmp);
                self.free.push(i);
                self.occupied = self.occupied - 1;
                match tmp {
                    Slot::Present(v) => Some(v),
                    _ => None,
                }
            } else {
                None
            }
        } else {
            None
        }
    }

    /// Moves the value at `i` out for dispatch, leaving the slot occupied but
    /// marked taken. Absent when the slot holds no value.
    pub fn take_out(&mut self, i: usize) -> (r: Option<T>)
        requires
            old(self).wf(),
        ensures
            final(self).wf(),
            match r {
                Some(v) => i < old(self)@.len() && old(self)@[i as int] == Slot::Present(v)
                    && final(self)@ == old(self)@.update(i as int, Slot::Taken),
                None => !(i < old(self)@.len() && old(self)@[i as int] is Present) && *final(self) == *old(self),
            },
    {
        if i < self.slots.len() {
            let present_here = match &self.slots[i] {
                Slot::Present(_) => true,
                _ => false,
            };
            if present_here {
                proof {
                    lemma_occupied_count_update(self.slots@, i as int, Slot::<T>::Taken);
                }
                let mut tmp: Slot<T> = Slot::Taken;
                core::mem::swap(&mut self.slots[i], &mut tmp);
                match tmp {
                    Slot::Present(v) => Some(v),
                    _ => {
                        proof {
                            assert(false);
                        }
                        None
                    },
                }
            } else {
                None
            }
        } else {
            None
        }
    }

    /// Puts a value taken out for dispatch back into its slot. The value is
    /// restored only when the slot is still marked taken; otherwise the slot
    /// was removed (and possibly reused) in the meantime, and the value is
    /// dropped.
    pub fn restore(&mut self, i: usize, v: T) -> (kept: bool)
        requires
            old(self).wf(),
        ensures
            final(self).wf(),
            kept == (i < old(self)@.len() && old(self)@[i as int] is Taken),
            kept ==> final(self)@ == old(self)@.update(i as int, Slot::Present(v)),
            !kept ==> *final(self) == *old(self),
    {
        if i < self.slots.len() {
            let taken_here = match &self.slots[i] {
                Slot::Taken => true,
                _ => false,
            };
            if taken_here {
                proof {
                    lemma_occupied_count_update(self.slots@, i as int, Slot::Present(v));
                }
                self.slots[i] = Slot::Present(v);
                true
            } else {
                false
            }
        } else {
            false
        }
    }

    /// True when no slot is occupied.
    pub fn is_empty(&self) -> (r: bool)
        requires
            self.wf(),
        ensures
            r == (occupied_count(self@) == 0),
    {
        self.occupied == 0
    }

    /// The number of occupied slots.
    pub fn occupied_len(&self) -> (n: usize)
        requires
            self.wf(),
        ensures
            n == occupied_count(self@),
    {
        self.occupied
    }

    /// Whether index `i` names an occupied slot.
    pub open spec fn index_occupied(&self, i: usize) -> bool {
        i < self@.len() && self@[i as int].is_occupied()
    }
}

/// Changing one slot changes the occupied count by the difference at that
/// slot alone.
proof fn lemma_occupied_count_update<T>(s: Seq<Slot<T>>, i: int, v: Slot<T>)
    requires
        0 <= i < s.len(),
    ensures
        occupied_count(s.update(i, v)) + if s[i].is_occupied() {
            1nat
        } else {
            0nat
        } == occupied_count(s) + if v.is_occupied() {
            1nat
        } else {
            0nat
        },
    decreases s.len(),
{
    if i == s.len() - 1 {
        assert(s.update(i, v).drop_last() =~= s.drop_last());
    } else {
        assert(s.update(i, v).drop_last() =~= s.drop_last().update(i, v));
        lemma_occupied_count_update(s.drop_last(), i, v);
    }
}

/// A sequence cannot hold more occupied slots than slots.
proof fn lemma_occupied_count_le_len<T>(s: Seq<Slot<T>>)
    ensures
        occupied_count(s) <= s.len(),
    decreases s.len(),
{
    if s.len() > 0 {
        lemma_occupied_count_le_len(s.drop_last());
    }
}

/// The occupied count is zero exactly when every slot is empty.
pub proof fn lemma_occupied_count_zero<T>(s: Seq<Slot<T>>)
    ensures
        (occupied_count(s) == 0) <==> (forall|i: int|
            0 <= i < s.len() ==> !(#[trigger] s[i]).is_occupied()),
    decreases s.len(),
{
    if s.len() > 0 {
        lemma_occupied_count_zero(s.drop_last());
        assert(forall|i: int|
            0 <= i < s.len() - 1 ==> #[trigger] s[i] == s.drop_last()[i]);
    }
}

} // verus!
