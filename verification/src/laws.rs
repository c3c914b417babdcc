//! What holds of a slab across several operations, stated over the sequence
//! of its elements.

use crate::iter::SlabIter;
use crate::slab::grown;
use crate::slab::swap_removed;
use crate::slab::Slab;
use vstd::multiset::Multiset;
use vstd::prelude::*;

verus! {

/// A well-formed slab holds no more elements than it has slots, and both
/// numbers fit a `usize`.
pub proof fn lemma_len_within_capacity<T>(slab: Slab<T>)
    requires
        slab.wf(),
    ensures
        0 <= slab@.len() <= slab.capacity() <= usize::MAX,
{
}

/// Growing makes room and never takes any away: the capacity that a full
/// slab grows to is at least one, is twice what it was where that was not
/// zero, and leaves at least one slot free.
pub proof fn lemma_grown_has_room(capacity: nat)
    ensures
        grown(capacity) >= 1,
        grown(capacity) > capacity,
        capacity > 0 ==> grown(capacity) == 2 * capacity,
{
}

/// The element that was inserted is found at the offset that the insertion
/// returned, and every element that was there before is found where it was.
pub proof fn lemma_insert_then_index<T>(s: Seq<T>, elem: T)
    ensures
        s.push(elem).len() == s.len() + 1,
        s.push(elem)[s.len() as int] == elem,
        forall|i: int| 0 <= i < s.len() ==> s.push(elem)[i] == s[i],
{
}

/// Removing at a valid offset leaves one element fewer. Where the offset was
/// not the last, the element that was last is now found at it. Every other
/// element that is left is found where it was.
pub proof fn lemma_remove_moves_last<T>(s: Seq<T>, offset: int)
    requires
        0 <= offset < s.len(),
    ensures
        swap_removed(s, offset).len() == s.len() - 1,
        offset < s.len() - 1 ==> swap_removed(s, offset)[offset] == s.last(),
        forall|i: int|
            0 <= i < s.len() - 1 && i != offset ==> swap_removed(s, offset)[i] == s[i],
{
}

/// Removing at a valid offset takes exactly one element out: what is left,
/// together with the element at the offset, is what was there, whatever the
/// order.
pub proof fn lemma_remove_takes_one<T>(s: Seq<T>, offset: int)
    requires
        0 <= offset < s.len(),
    ensures
        swap_removed(s, offset).to_multiset().insert(s[offset]) == s.to_multiset(),
{
    let last = s.last();
    let moved = s.update(offset, last);
    let end = s.len() - 1;
    assert(moved.drop_last() =~= moved.remove(end));
    vstd::seq_lib::to_multiset_update(s, offset, last);
    vstd::seq_lib::to_multiset_remove(moved, end);
    vstd::seq_lib::to_multiset_contains(s, s[offset]);
    assert(s.contains(s[offset]));
    assert(swap_removed(s, offset).to_multiset().insert(s[offset]) =~= s.to_multiset());
}

/// What inserting each of `values` in turn makes of `s`.
pub open spec fn inserted_all<T>(s: Seq<T>, values: Seq<T>) -> Seq<T>
    decreases values.len(),
{
    if values.len() == 0 {
        s
    } else {
        inserted_all(s.push(values[0]), values.drop_first())
    }
}

/// Whether each of `offsets`, taken in turn, is a valid offset into what
/// the removals before it have left of `s`.
pub open spec fn removable<T>(s: Seq<T>, offsets: Seq<int>) -> bool
    decreases offsets.len(),
{
    if offsets.len() == 0 {
        true
    } else {
        0 <= offsets[0] < s.len() && removable(swap_removed(s, offsets[0]), offsets.drop_first())
    }
}

/// The elements that removing at each of `offsets` in turn takes out of
/// `s`, in the order in which they come out.
pub open spec fn taken_out<T>(s: Seq<T>, offsets: Seq<int>) -> Seq<T>
    decreases offsets.len(),
{
    if offsets.len() == 0 {
        Seq::empty()
    } else {
        seq![s[offsets[0]]] + taken_out(swap_removed(s, offsets[0]), offsets.drop_first())
    }
}

/// What removing at each of `offsets` in turn leaves of `s`.
pub open spec fn left_over<T>(s: Seq<T>, offsets: Seq<int>) -> Seq<T>
    decreases offsets.len(),
{
    if offsets.len() == 0 {
        s
    } else {
        left_over(swap_removed(s, offsets[0]), offsets.drop_first())
    }
}

/// Inserting a run of values appends them in order: each is found at the
/// offset that its insertion returned.
pub proof fn lemma_inserted_all_appends<T>(s: Seq<T>, values: Seq<T>)
    ensures
        inserted_all(s, values) == s + values,
    decreases values.len(),
{
    if values.len() == 0 {
        assert(s + values =~= s);
    } else {
        lemma_inserted_all_appends(s.push(values[0]), values.drop_first());
        assert(s.push(values[0]) + values.drop_first() =~= s + values);
    }
}

/// A run of removals at valid offsets loses nothing and makes nothing up:
/// the elements that came out, together with those that are left, are the
/// elements that were there, each as often as it was there.
pub proof fn lemma_removals_keep_elements<T>(s: Seq<T>, offsets: Seq<int>)
    requires
        removable(s, offsets),
    ensures
        taken_out(s, offsets).len() == offsets.len(),
        left_over(s, offsets).len() == s.len() - offsets.len(),
        taken_out(s, offsets).to_multiset().add(left_over(s, offsets).to_multiset())
            == s.to_multiset(),
    decreases offsets.len(),
{
    broadcast use vstd::multiset::group_multiset_axioms;

    if offsets.len() == 0 {
        assert(taken_out(s, offsets).to_multiset() =~= Multiset::<T>::empty()) by {
            vstd::seq_lib::to_multiset_len(taken_out(s, offsets));
        }
        assert(taken_out(s, offsets).to_multiset().add(left_over(s, offsets).to_multiset())
            =~= s.to_multiset());
    } else {
        let first = s[offsets[0]];
        let after = swap_removed(s, offsets[0]);
        let later = offsets.drop_first();
        lemma_removals_keep_elements(after, later);
        lemma_remove_takes_one(s, offsets[0]);
        vstd::seq_lib::lemma_multiset_commutative(seq![first], taken_out(after, later));
        assert(seq![first].to_multiset() =~= Multiset::<T>::empty().insert(first)) by {
            assert(seq![first] =~= Seq::<T>::empty().push(first));
            vstd::seq_lib::to_multiset_build(Seq::<T>::empty(), first);
            vstd::seq_lib::to_multiset_len(Seq::<T>::empty());
        }
        assert(taken_out(s, offsets).to_multiset().add(left_over(s, offsets).to_multiset())
            =~= s.to_multiset());
    }
}

/// Inserting any values into an empty slab and then removing as many
/// elements, at whatever valid offsets, empties the slab again and hands
/// back exactly the values that went in: each as often as it went in, and so
/// the same set of values.
pub proof fn lemma_round_trip<T>(values: Seq<T>, offsets: Seq<int>)
    requires
        offsets.len() == values.len(),
        removable(inserted_all(Seq::<T>::empty(), values), offsets),
    ensures
        inserted_all(Seq::<T>::empty(), values) == values,
        left_over(values, offsets) == Seq::<T>::empty(),
        taken_out(values, offsets).len() == values.len(),
        taken_out(values, offsets).to_multiset() == values.to_multiset(),
        taken_out(values, offsets).to_set() == values.to_set(),
{
    broadcast use vstd::multiset::group_multiset_axioms;

    lemma_inserted_all_appends(Seq::<T>::empty(), values);
    assert(Seq::<T>::empty() + values =~= values);
    lemma_removals_keep_elements(values, offsets);
    let out = taken_out(values, offsets);
    let left = left_over(values, offsets);
    assert(left =~= Seq::<T>::empty());
    assert(left.to_multiset() =~= Multiset::<T>::empty()) by {
        vstd::seq_lib::to_multiset_len(left);
    }
    assert(out.to_multiset() =~= values.to_multiset());
    assert forall|v: T| out.to_set().contains(v) <==> values.to_set().contains(v) by {
        vstd::seq_lib::to_multiset_contains(out, v);
        vstd::seq_lib::to_multiset_contains(values, v);
    }
    assert(out.to_set() =~= values.to_set());
}

/// A walk has at every moment handed out the elements before its place and
/// has those from its place on still to come: together they are the elements
/// of the slab, in storage order.
pub proof fn lemma_walk_splits_source<T>(iter: SlabIter<'_, T>)
    ensures
        iter.served() <= iter.source().len(),
        iter.yielded().len() == iter.served(),
        iter.yielded() + iter.pending() == iter.source(),
{
    iter.lemma_served_within_source();
    assert(iter.yielded() + iter.pending() =~= iter.source());
}

/// A walk that has nothing left to hand out has handed out every element of
/// the slab exactly once, in storage order: as many as the slab holds.
pub proof fn lemma_walk_complete<T>(iter: SlabIter<'_, T>)
    requires
        iter.pending().len() == 0,
    ensures
        iter.yielded() == iter.source(),
        iter.served() == iter.source().len(),
{
    iter.lemma_served_within_source();
    assert(iter.yielded() =~= iter.source());
}

} // verus!
