//! Walking the occupied slots of a slab.

use crate::slab::Slab;
use vstd::prelude::*;

verus! {

/// A walk over the elements of a slab, from offset 0 upward, that hands out
/// a shared reference to each.
pub struct SlabIter<'a, T: 'a> {
    slab: &'a Slab<T>,
    current_offset: usize,
}

impl<'a, T> SlabIter<'a, T> {
    /// The elements of the slab that is walked, by offset.
    pub closed spec fn source(&self) -> Seq<T> {
        self.slab@
    }

    /// How many elements have been handed out so far.
    pub closed spec fn served(&self) -> nat {
        if self.current_offset <= self.slab@.len() {
            self.current_offset as nat
        } else {
            self.slab@.len()
        }
    }

    /// The elements that have been handed out, in the order in which they
    /// came.
    pub open spec fn yielded(&self) -> Seq<T> {
        self.source().take(self.served() as int)
    }

    /// The elements that are still to come, in the order in which they will.
    pub open spec fn pending(&self) -> Seq<T> {
        self.source().skip(self.served() as int)
    }

    /// A walk never counts more elements than the slab holds.
    pub proof fn lemma_served_within_source(&self)
        ensures
            self.served() <= self.source().len(),
    {
    }

    /// A walk over `slab` that has handed out nothing yet.
    pub(crate) fn over(slab: &'a Slab<T>) -> (iter: SlabIter<'a, T>)
        ensures
            iter.source() == slab@,
            iter.served() == 0,
    {
        SlabIter { slab, current_offset: 0 }
    }
}

impl<'a, T> Iterator for SlabIter<'a, T> {
    type Item = &'a T;

    /// Hands out the element at the next offset: the first of those still
    /// to come, which then counts among those handed out. Once every element
    /// of the slab has been handed out, the answer is `None`, and stays so.
    fn next(&mut self) -> (ret: Option<&'a T>)
        ensures
            final(self).source() == old(self).source(),
            match ret {
                Some(elem) => {
                    &&& old(self).served() < old(self).source().len()
                    &&& *elem == old(self).source()[old(self).served() as int]
                    &&& final(self).served() == old(self).served() + 1
                    &&& *elem == old(self).pending()[0]
                    &&& final(self).pending() == old(self).pending().drop_first()
                    &&& final(self).yielded() == old(self).yielded().push(*elem)
                },
                None => {
                    &&& old(self).served() == old(self).source().len()
                    &&& final(self).served() == old(self).served()
                    &&& final(self).pending() == Seq::<T>::empty()
                    &&& final(self).yielded() == old(self).source()
                },
            },
    {
        let offset: usize = self.current_offset;
        proof {
            self.slab.lemma_len_fits();
        }
        match self.slab.get(offset) {
            Ok(elem) => {
                self.current_offset = offset + 1;
                proof {
                    let all = old(self).source();
                    let at = old(self).served() as int;
                    assert(all.skip(at + 1) =~= all.skip(at).drop_first());
                    assert(all.take(at + 1) =~= all.take(at).push(all[at]));
                }
                Some(elem)
            },
            Err(_) => {
                proof {
                    let all = old(self).source();
                    assert(all.skip(all.len() as int) =~= Seq::<T>::empty());
                    assert(all.take(all.len() as int) =~= all);
                }
                None
            },
        }
    }
}

/// The items that `next` will hand out are references to the elements still
/// to come, in their order; there are finitely many, and then comes `None`.
impl<'a, T> vstd::std_specs::iter::IteratorSpecImpl for SlabIter<'a, T> {
    open spec fn obeys_prophetic_iter_laws(&self) -> bool {
        true
    }

    open spec fn remaining(&self) -> Seq<&'a T> {
        self.pending().map_values(|elem: T| &elem)
    }

    open spec fn will_return_none(&self) -> bool {
        true
    }

    open spec fn decrease(&self) -> Option<nat> {
        Some(self.pending().len())
    }

    open spec fn initial_value_relation(&self, init: &Self) -> bool {
        self.source() == init.source()
    }

    open spec fn peek(&self, index: int) -> Option<&'a T> {
        if 0 <= index < self.pending().len() {
            Some(&self.pending()[index])
        } else {
            None
        }
    }
}

/// A walk over the elements of a slab, from offset 0 upward, that hands out
/// an exclusive reference to each. While it lives, the slab can be reached
/// only through these references.
pub struct SlabMutIter<'a, T: 'a> {
    rest: &'a mut [T],
}

impl<'a, T> SlabMutIter<'a, T> {
    /// The slots that have not been handed out yet, as one exclusive
    /// reference to all of them.
    pub closed spec fn slots(&self) -> &'a mut [T] {
        self.rest
    }

    /// Once the walk is no longer used, the slots that it has not handed out
    /// are no longer reached through it either: they hold in the end what
    /// they hold now.
    pub proof fn lemma_ends_with_its_slots(&self)
        requires
            has_resolved(*self),
        ensures
            has_resolved(self.slots()),
            final(self.slots())@ == self.slots()@,
    {
    }

    /// A walk over `slots` that has handed out nothing yet.
    pub(crate) fn over(slots: &'a mut [T]) -> (iter: SlabMutIter<'a, T>)
        ensures
            iter.slots()@ == old(slots)@,
            final(iter.slots())@ == final(slots)@,
    {
        SlabMutIter { rest: slots }
    }
}

impl<'a, T> Iterator for SlabMutIter<'a, T> {
    type Item = &'a mut T;

    /// Hands out the first of the slots that are left, or `None` where none
    /// is left. What the slots hold in the end is what the caller leaves in
    /// the one handed out, followed by what the others hold in the end.
    fn next(&mut self) -> (ret: Option<&'a mut T>)
        ensures
            match ret {
                Some(elem) => {
                    &&& old(self).slots()@.len() > 0
                    &&& *elem == old(self).slots()@[0]
                    &&& final(self).slots()@ == old(self).slots()@.skip(1)
                    &&& final(old(self).slots())@ == seq![*final(elem)]
                        + final(final(self).slots())@
                },
                None => {
                    &&& old(self).slots()@.len() == 0
                    &&& final(self).slots()@.len() == 0
                    &&& final(old(self).slots())@ == final(final(self).slots())@
                },
            },
    {
        let mut rest: &'a mut [T] = &mut [];
        core::mem::swap(&mut self.rest, &mut rest);
        if rest.len() == 0 {
            self.rest = rest;
            None
        } else {
            let (head, tail) = rest.split_at_mut(1);
            self.rest = tail;
            head.first_mut()
        }
    }
}

/// What `next` does is stated in its own contract, over `slots`. Nothing is
/// claimed through a sequence of the references to come.
impl<'a, T> vstd::std_specs::iter::IteratorSpecImpl for SlabMutIter<'a, T> {
    open spec fn obeys_prophetic_iter_laws(&self) -> bool {
        false
    }

    open spec fn remaining(&self) -> Seq<&'a mut T> {
        Seq::empty()
    }

    open spec fn will_return_none(&self) -> bool {
        false
    }

    open spec fn decrease(&self) -> Option<nat> {
        None
    }

    open spec fn initial_value_relation(&self, init: &Self) -> bool {
        true
    }

    open spec fn peek(&self, index: int) -> Option<&'a mut T> {
        None
    }
}

impl<'a, T> IntoIterator for &'a Slab<T> {
    type Item = &'a T;

    type IntoIter = SlabIter<'a, T>;

    fn into_iter(self) -> (iter: SlabIter<'a, T>)
        ensures
            iter.source() == self@,
            iter.served() == 0,
            iter.pending() == self@,
    {
        self.iter()
    }
}

impl<'a, T> IntoIterator for &'a mut Slab<T> {
    type Item = &'a mut T;

    type IntoIter = SlabMutIter<'a, T>;

    fn into_iter(self) -> (iter: SlabMutIter<'a, T>)
        ensures
            iter.slots()@ == old(self)@,
            final(self)@ == final(iter.slots())@,
            final(self).capacity() == old(self).capacity(),
            final(iter.slots())@.len() == iter.slots()@.len() ==> final(self).wf()
                == old(self).wf(),
    {
        self.iter_mut()
    }
}

} // verus!
