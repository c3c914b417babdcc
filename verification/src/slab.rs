//! The slab and its operations.

use crate::error::SlabError;
use crate::iter::SlabIter;
use crate::iter::SlabMutIter;
use std::collections::TryReserveError;
use std::ops::Index;
use vstd::prelude::*;

verus! {

/// Calls `Vec::try_reserve_exact`, which asks the allocator for room for
/// `additional` more elements and for no more than that. Nothing is claimed
/// of the outcome, which is the allocator's to decide; the elements stay as
/// they are whether the request is granted or not.
#[verifier::external_body]
fn try_reserve_exact<T>(mem: &mut Vec<T>, additional: usize) -> (outcome: Result<(), TryReserveError>)
    ensures
        final(mem)@ == old(mem)@,
{
    mem.try_reserve_exact(additional)
}

/// The capacity that a full slab of `capacity` slots grows to: twice as
/// many, and at least one.
pub open spec fn grown(capacity: nat) -> nat {
    if capacity == 0 {
        1
    } else {
        2 * capacity
    }
}

/// What is left of `s` when the element at `offset` is taken out and the
/// last element moves into its place. Where `offset` is the last position,
/// this is `s` without its last element.
pub open spec fn swap_removed<T>(s: Seq<T>, offset: int) -> Seq<T>
    recommends
        0 <= offset < s.len(),
{
    s.update(offset, s.last()).drop_last()
}

/// The capacity to grow to from `capacity`, or `None` where that number is
/// beyond what a `usize` holds.
pub fn next_capacity(capacity: usize) -> (next: Option<usize>)
    ensures
        next == if grown(capacity as nat) <= usize::MAX {
            Some(grown(capacity as nat) as usize)
        } else {
            None
        },
{
    if capacity == 0 {
        Some(1)
    } else if capacity <= usize::MAX / 2 {
        Some(capacity * 2)
    } else {
        None
    }
}

/// A dense buffer of elements that are found by their offset. Its view is
/// the sequence of its elements, by offset.
pub struct Slab<T> {
    capacity: usize,
    mem: Vec<T>,
}

impl<T> View for Slab<T> {
    type V = Seq<T>;

    closed spec fn view(&self) -> Seq<T> {
        self.mem@
    }
}

impl<T> Slab<T> {
    /// The number of slots that the slab has room for.
    pub closed spec fn spec_capacity(&self) -> usize {
        self.capacity
    }

    /// The invariant of a slab: it holds no more elements than it has slots.
    /// The constructors establish it and every operation keeps it.
    pub open spec fn wf(&self) -> bool {
        self@.len() <= self.capacity()
    }

    /// The number of occupied slots of any slab fits a `usize`.
    pub proof fn lemma_len_fits(&self)
        ensures
            self@.len() <= usize::MAX,
    {
        vstd::std_specs::vec::axiom_spec_len(&self.mem);
    }

    /// Takes the allocator's answer to a request that brings the storage to
    /// `capacity` slots: where the request was granted, the slab has that
    /// capacity from now on; where it was not, the slab stays as it was and
    /// the failure is reported.
    fn settle(&mut self, capacity: usize, outcome: Result<(), TryReserveError>) -> (done: Result<(), SlabError>)
        requires
            old(self)@.len() <= capacity,
        ensures
            old(self).wf() ==> final(self).wf(),
            final(self)@ == old(self)@,
            match outcome {
                Ok(()) => done is Ok && final(self).capacity() == capacity,
                Err(_) => done == Err::<(), SlabError>(SlabError::AllocationFailure)
                    && final(self).capacity() == old(self).capacity(),
            },
    {
        match outcome {
            Ok(()) => {
                self.capacity = capacity;
                Ok(())
            },
            Err(cause) => Err(SlabError::from(cause)),
        }
    }

    /// Creates an empty slab with room for `capacity` elements. A capacity of
    /// zero needs no storage and is always granted; for any other the
    /// allocator decides, and where it refuses there is no slab.
    pub fn with_capacity(capacity: usize) -> (made: Result<Slab<T>, SlabError>)
        ensures
            match made {
                Ok(slab) => slab.wf() && slab@ == Seq::<T>::empty() && slab.capacity() == capacity,
                Err(e) => e == SlabError::AllocationFailure && capacity != 0,
            },
    {
        let mut slab = Slab { capacity: 0, mem: Vec::new() };
        if capacity != 0 {
            let outcome = try_reserve_exact(&mut slab.mem, capacity);
            match slab.settle(capacity, outcome) {
                Ok(()) => {},
                Err(e) => {
                    return Err(e);
                },
            }
        }
        Ok(slab)
    }

    /// Creates an empty slab with room for one element.
    pub fn new() -> (made: Result<Slab<T>, SlabError>)
        ensures
            match made {
                Ok(slab) => slab.wf() && slab@ == Seq::<T>::empty() && slab.capacity() == 1,
                Err(e) => e == SlabError::AllocationFailure,
            },
    {
        Slab::with_capacity(1)
    }

    /// The number of slots that the slab has room for.
    #[verifier::when_used_as_spec(spec_capacity)]
    pub fn capacity(&self) -> (slots: usize)
        ensures
            slots == self.spec_capacity(),
    {
        self.capacity
    }

    /// The number of elements in the slab.
    pub fn len(&self) -> (occupied: usize)
        ensures
            occupied == self@.len(),
    {
        self.mem.len()
    }

    /// Grows the storage to `grown(capacity)` slots. The elements keep their
    /// offsets. Where the new capacity is beyond a `usize`, or the allocator
    /// refuses it, the slab stays as it was.
    fn reallocate(&mut self) -> (done: Result<(), SlabError>)
        requires
            old(self)@.len() == old(self).capacity(),
        ensures
            final(self).wf(),
            final(self)@ == old(self)@,
            match done {
                Ok(()) => final(self).capacity() == grown(old(self).capacity() as nat),
                Err(e) => {
                    &&& e == SlabError::AllocationFailure
                    &&& final(self).capacity() == old(self).capacity()
                },
            },
            grown(old(self).capacity() as nat) > usize::MAX ==> done is Err,
    {
        match next_capacity(self.capacity) {
            Some(capacity) => {
                let additional: usize = capacity - self.mem.len();
                let outcome = try_reserve_exact(&mut self.mem, additional);
                self.settle(capacity, outcome)
            },
            None => Err(SlabError::AllocationFailure),
        }
    }

    /// Puts `elem` into the first free slot and returns its offset, which is
    /// the number of elements that the slab held before. A slab that is not
    /// full always takes the element and keeps its capacity. A full slab
    /// grows first, to `grown(capacity)` slots; where it cannot, the element
    /// is dropped and the slab stays as it was.
    pub fn insert(&mut self, elem: T) -> (placed: Result<usize, SlabError>)
        ensures
            old(self).wf() ==> final(self).wf(),
            final(self).capacity() >= old(self).capacity(),
            match placed {
                Ok(offset) => {
                    &&& offset == old(self)@.len()
                    &&& final(self)@ == old(self)@.push(elem)
                    &&& final(self)@[offset as int] == elem
                    &&& final(self).capacity() == if old(self)@.len() == old(self).capacity() {
                        grown(old(self).capacity() as nat)
                    } else {
                        old(self).capacity() as nat
                    }
                },
                Err(e) => {
                    &&& e == SlabError::AllocationFailure
                    &&& old(self)@.len() == old(self).capacity()
                    &&& final(self)@ == old(self)@
                    &&& final(self).capacity() == old(self).capacity()
                },
            },
            old(self)@.len() != old(self).capacity() ==> placed is Ok,
            old(self)@.len() == old(self).capacity() && grown(old(self).capacity() as nat)
                > usize::MAX ==> placed is Err,
    {
        if self.mem.len() == self.capacity {
            match self.reallocate() {
                Ok(()) => {},
                Err(e) => {
                    return Err(e);
                },
            }
        }
        let offset: usize = self.mem.len();
        self.mem.push(elem);
        Ok(offset)
    }

    /// Takes out the element at `offset` and returns it. The last element
    /// moves into the gap, so that the others stay packed; every other
    /// element keeps its offset. An offset at or beyond `len` is refused and
    /// changes nothing.
    pub fn remove(&mut self, offset: usize) -> (taken: Result<T, SlabError>)
        ensures
            old(self).wf() ==> final(self).wf(),
            final(self).capacity() == old(self).capacity(),
            match taken {
                Ok(elem) => {
                    &&& offset < old(self)@.len()
                    &&& elem == old(self)@[offset as int]
                    &&& final(self)@ == swap_removed(old(self)@, offset as int)
                    &&& final(self)@.len() == old(self)@.len() - 1
                    &&& offset < final(self)@.len() ==> final(self)@[offset as int]
                        == old(self)@.last()
                },
                Err(e) => {
                    &&& e == SlabError::OutOfBounds
                    &&& offset >= old(self)@.len()
                    &&& final(self)@ == old(self)@
                },
            },
    {
        if offset >= self.mem.len() {
            return Err(SlabError::OutOfBounds);
        }
        match self.mem.pop() {
            Some(last) => {
                if offset == self.mem.len() {
                    Ok(last)
                } else {
                    let mut elem = last;
                    core::mem::swap(&mut self.mem[offset], &mut elem);
                    Ok(elem)
                }
            },
            None => Err(SlabError::OutOfBounds),
        }
    }

    /// The element at `offset`, or `OutOfBounds` where `offset` is at or
    /// beyond `len`.
    pub fn get(&self, offset: usize) -> (found: Result<&T, SlabError>)
        ensures
            match found {
                Ok(elem) => offset < self@.len() && *elem == self@[offset as int],
                Err(e) => e == SlabError::OutOfBounds && offset >= self@.len(),
            },
    {
        if offset < self.mem.len() {
            Ok(&self.mem[offset])
        } else {
            Err(SlabError::OutOfBounds)
        }
    }

    /// Exclusive access to the element at `offset`, or `OutOfBounds` where
    /// `offset` is at or beyond `len`. What the caller leaves in the slot is
    /// the only change to the slab.
    pub fn get_mut(&mut self, offset: usize) -> (found: Result<&mut T, SlabError>)
        ensures
            final(self).wf() == old(self).wf(),
            final(self).capacity() == old(self).capacity(),
            match found {
                Ok(elem) => {
                    &&& offset < old(self)@.len()
                    &&& *elem == old(self)@[offset as int]
                    &&& final(self)@ == old(self)@.update(offset as int, *final(elem))
                },
                Err(e) => {
                    &&& e == SlabError::OutOfBounds
                    &&& offset >= old(self)@.len()
                    &&& final(self)@ == old(self)@
                },
            },
    {
        if offset < self.mem.len() {
            Ok(&mut self.mem[offset])
        } else {
            Err(SlabError::OutOfBounds)
        }
    }

    /// A fresh walk over the elements, from offset 0 upward.
    pub fn iter(&self) -> (iter: SlabIter<'_, T>)
        ensures
            iter.source() == self@,
            iter.served() == 0,
            iter.pending() == self@,
    {
        SlabIter::over(self)
    }

    /// A fresh walk over the elements, from offset 0 upward, that lets the
    /// caller change each. The slab keeps its capacity, and holds in the end
    /// what the slots of the walk hold in the end; as these keep their
    /// number, a well-formed slab stays so.
    pub fn iter_mut(&mut self) -> (iter: SlabMutIter<'_, T>)
        ensures
            iter.slots()@ == old(self)@,
            final(self)@ == final(iter.slots())@,
            final(self).capacity() == old(self).capacity(),
            final(iter.slots())@.len() == iter.slots()@.len() ==> final(self).wf()
                == old(self).wf(),
    {
        SlabMutIter::over(self.mem.as_mut_slice())
    }
}

/// `slab[offset]` is the element at `offset`. The offset has to be below
/// `len`: see `index_req`.
impl<T> Index<usize> for Slab<T> {
    type Output = T;

    fn index(&self, index: usize) -> (elem: &T)
        ensures
            *elem == self@[index as int],
    {
        &self.mem[index]
    }
}

impl<T> vstd::std_specs::core::IndexSpecImpl<usize> for Slab<T> {
    open spec fn index_req(&self, index: &usize) -> bool {
        *index < self@.len()
    }
}

} // verus!
