//! An owned run of items that is never empty and keeps a few items inline.

use vstd::prelude::*;
use vstd::std_specs::cmp::{PartialEqSpec, PartialEqSpecImpl, PartialOrdSpecImpl};
use vstd::std_specs::convert::{FromSpecImpl, TryFromSpecImpl};
use vstd::std_specs::iter::IteratorSpec;
use smallvec::CollectionAllocErr;
use std::cmp::Ordering;
use crate::inline_vec::{
    exceeds_address_space,
    sv_append,
    sv_as_mut_slice,
    sv_as_slice,
    sv_capacity,
    sv_clone,
    sv_dedup,
    sv_dedup_by,
    sv_dedup_by_key,
    sv_drain,
    sv_eq,
    sv_extend,
    sv_extend_from_slice,
    sv_from_buf,
    sv_from_buf_and_len,
    sv_from_elem,
    sv_from_slice,
    sv_grow,
    sv_insert,
    sv_insert_from_slice,
    sv_insert_many,
    sv_into_boxed_slice,
    sv_into_inner,
    sv_into_vec,
    sv_is_empty,
    sv_len,
    sv_new,
    sv_partial_cmp,
    sv_pop,
    sv_push,
    sv_remove,
    sv_reserve,
    sv_reserve_exact,
    sv_resize,
    sv_resize_with,
    sv_shrink_to_fit,
    sv_spilled,
    sv_swap_remove,
    sv_truncate,
    sv_try_grow,
    sv_try_reserve,
    sv_try_reserve_exact,
    sv_with_capacity,
    InlineVec,
    INLINE_CAPACITY,
};
use crate::model::{
    after_drain,
    after_pop,
    after_remove,
    after_swap_remove,
    deduped,
    drained,
    equal_items,
    equal_keys,
    lemma_deduped_keeps_first,
    lexicographic,
    popped,
    removed,
    spliced,
    truncated,
    without_range,
};
use crate::non_empty_slice::{NonEmptySlice, NonEmptySliceMut};
use crate::positive::PositiveUsize;
use crate::range::{
    contains,
    covers_all,
    first_index,
    in_bounds,
    past_index,
    resolve,
    Bound,
};

verus! {

/// A small vector that always holds at least one item.
///
/// It stands to [`InlineVec`] as the non-empty vector stands to `Vec`: the
/// backing store is never handed out mutably, what adds items is offered as
/// it is, and what takes items away comes guarded or leaves the proof to the
/// caller. Whether the items lie inline or on the heap can be asked, and is
/// no part of what the collection holds: two collections are equal when they
/// hold the same items in the same order, and they are ordered as their items
/// are, read from the front.
///
/// That the collection holds an item is stated by
/// [`wf`](NonEmptySmallVec::wf): every constructor establishes it, and the
/// operations ask for it and keep it.
#[derive(Debug, Ord, Hash)]
pub struct NonEmptySmallVec {
    inner: InlineVec,
}

impl View for NonEmptySmallVec {
    type V = Seq<u64>;

    closed spec fn view(&self) -> Seq<u64> {
        self.inner@
    }
}

impl NonEmptySmallVec {
    /// What every value of the type satisfies: it holds an item.
    pub open spec fn wf(&self) -> bool {
        self@.len() >= 1
    }

    /// What `try_from_smallvec` makes of a small vector.
    pub closed spec fn spec_try_from_smallvec(smallvec: InlineVec) -> Result<
        NonEmptySmallVec,
        InlineVec,
    > {
        if smallvec@.len() == 0 {
            Err(smallvec)
        } else {
            Ok(NonEmptySmallVec { inner: smallvec })
        }
    }

    /// What `into_smallvec` hands out: the backing small vector.
    pub closed spec fn spec_into_smallvec(self) -> InlineVec {
        self.inner
    }

    /// The backing small vector holds what the collection holds, and taking
    /// over a small vector that holds an item makes it the backing one.
    pub proof fn lemma_backing_smallvec(smallvec: InlineVec)
        ensures
            smallvec@.len() == 0 ==> Self::spec_try_from_smallvec(smallvec) == Err::<
                NonEmptySmallVec,
                InlineVec,
            >(smallvec),
            smallvec@.len() >= 1 ==> (Self::spec_try_from_smallvec(smallvec) matches Ok(taken)
                && taken@ == smallvec@ && taken.spec_into_smallvec() == smallvec),
            forall|v: NonEmptySmallVec| (#[trigger] v.spec_into_smallvec())@ == v@,
    {
    }

    /// A small vector of the one item given.
    pub fn new(item: u64) -> (r: NonEmptySmallVec)
        ensures
            r.wf(),
            r@ == seq![item],
    {
        let mut inner = sv_new();
        sv_push(&mut inner, item);
        NonEmptySmallVec { inner }
    }

    /// A small vector of the one item given, with room asked for `capacity`
    /// items.
    pub fn with_capacity(item: u64, capacity: usize) -> (r: NonEmptySmallVec)
        ensures
            r.wf(),
            r@ == seq![item],
    {
        let mut inner = sv_with_capacity(capacity);
        sv_push(&mut inner, item);
        NonEmptySmallVec { inner }
    }

    /// Takes over a small vector, or hands it back when it holds nothing. The
    /// items are not copied either way.
    pub fn try_from_smallvec(smallvec: InlineVec) -> (r: Result<NonEmptySmallVec, InlineVec>)
        ensures
            smallvec@.len() == 0 ==> r == Err::<NonEmptySmallVec, InlineVec>(smallvec),
            smallvec@.len() >= 1 ==> (r matches Ok(taken) && taken.wf() && taken@ == smallvec@),
            r == Self::spec_try_from_smallvec(smallvec),
    {
        if sv_is_empty(&smallvec) {
            Err(smallvec)
        } else {
            Ok(NonEmptySmallVec { inner: smallvec })
        }
    }

    /// Moves the items out of a small vector that holds some, leaving it
    /// empty. A small vector that holds nothing is left as it is.
    pub fn try_from_smallvec_ref_mut(smallvec: &mut InlineVec) -> (r: Option<NonEmptySmallVec>)
        ensures
            old(smallvec)@.len() == 0 ==> r is None && *final(smallvec) == *old(smallvec),
            old(smallvec)@.len() >= 1 ==> (r matches Some(taken) && taken.wf() && taken@ == old(
                smallvec,
            )@) && final(smallvec)@ == Seq::<u64>::empty(),
    {
        if sv_is_empty(smallvec) {
            None
        } else {
            let mut taken = NonEmptySmallVec { inner: sv_new() };
            std::mem::swap(smallvec, &mut taken.inner);
            Some(taken)
        }
    }

    /// Takes a small vector as non-empty on the caller's word.
    pub fn from_smallvec_unchecked(smallvec: InlineVec) -> (r: NonEmptySmallVec)
        requires
            smallvec@.len() >= 1,
        ensures
            r.wf(),
            r@ == smallvec@,
    {
        NonEmptySmallVec { inner: smallvec }
    }

    /// A small vector of the items of a buffer of the inline capacity, which
    /// stays inline.
    pub fn from_buf_unchecked(buf: [u64; INLINE_CAPACITY]) -> (r: NonEmptySmallVec)
        ensures
            r.wf(),
            r@ == buf@,
    {
        NonEmptySmallVec { inner: sv_from_buf(buf) }
    }

    /// A small vector of the items of a buffer of the inline capacity, which
    /// stays inline. The buffer's length is part of its type, so that it is
    /// positive is settled before the program runs.
    pub fn from_buf(buf: [u64; INLINE_CAPACITY]) -> (r: NonEmptySmallVec)
        ensures
            r.wf(),
            r@ == buf@,
    {
        NonEmptySmallVec { inner: sv_from_buf(buf) }
    }

    /// A small vector of the first `len` items of a buffer of the inline
    /// capacity. `len` is not zero, so an item is held.
    pub fn from_buf_and_len(buf: [u64; INLINE_CAPACITY], len: PositiveUsize) -> (r:
        NonEmptySmallVec)
        requires
            len.get() <= INLINE_CAPACITY,
        ensures
            r.wf(),
            r@ == buf@.take(len.get() as int),
    {
        let count = len.get();
        NonEmptySmallVec { inner: sv_from_buf_and_len(buf, count) }
    }

    /// A small vector of copies of the items of a non-empty slice.
    pub fn from_slice(slice: NonEmptySlice<'_, u64>) -> (r: NonEmptySmallVec)
        ensures
            r.wf(),
            r@ == slice@,
    {
        NonEmptySmallVec { inner: sv_from_slice(slice.get_slice()) }
    }

    /// A small vector of `n` copies of `elem`.
    pub fn from_elem(elem: u64, n: PositiveUsize) -> (r: NonEmptySmallVec)
        ensures
            r.wf(),
            r@ == Seq::new(n.get() as nat, |i: int| elem),
    {
        let count = n.get();
        NonEmptySmallVec { inner: sv_from_elem(elem, count) }
    }

    /// The backing small vector, to read.
    pub fn get_smallvec(&self) -> (r: &InlineVec)
        requires
            self.wf(),
        ensures
            r@ == self@,
            r@.len() >= 1,
    {
        &self.inner
    }

    /// Gives up the guarantee and hands out the backing small vector.
    pub fn into_smallvec(self) -> (r: InlineVec)
        requires
            self.wf(),
        ensures
            r@ == self@,
            r@.len() >= 1,
            r == self.spec_into_smallvec(),
    {
        self.inner
    }

    /// Gives up the guarantee and hands out the items as a vector.
    pub fn into_vec(self) -> (r: Vec<u64>)
        requires
            self.wf(),
        ensures
            r@ == self@,
            r@.len() >= 1,
    {
        sv_into_vec(self.inner)
    }

    /// Gives up the guarantee and hands out the items as a boxed slice.
    pub fn into_boxed_slice(self) -> (r: Box<[u64]>)
        requires
            self.wf(),
        ensures
            r@ == self@,
            r@.len() >= 1,
    {
        sv_into_boxed_slice(self.inner)
    }

    /// Hands out the inline buffer, where the items fill it exactly and lie
    /// in it; else hands the backing small vector back. A collection that
    /// holds fewer or more items than the buffer always comes back.
    pub fn into_inner(self) -> (r: Result<[u64; INLINE_CAPACITY], InlineVec>)
        requires
            self.wf(),
        ensures
            r matches Ok(buf) ==> buf@ == self@,
            r matches Err(back) ==> back@ == self@,
            self@.len() != INLINE_CAPACITY ==> r is Err,
    {
        sv_into_inner(self.inner)
    }

    /// The number of items there is room for. It is never zero: there is
    /// always the inline room.
    pub fn capacity(&self) -> (r: PositiveUsize)
        ensures
            r.get() >= self@.len(),
            r.get() >= INLINE_CAPACITY,
    {
        PositiveUsize::new_unchecked(sv_capacity(&self.inner))
    }

    /// Whether the items lie on the heap. They do where there are more of
    /// them than the inline capacity.
    pub fn spilled(&self) -> (r: bool)
        ensures
            self@.len() > INLINE_CAPACITY ==> r,
    {
        sv_spilled(&self.inner)
    }

    /// Takes out the items of a range and hands them out in their order,
    /// unless the range holds both the first and the last index of the
    /// collection: then nothing changes and `None` comes back.
    ///
    /// A range that holds nothing takes nothing out and yields an empty
    /// vector, wherever it lies.
    pub fn drain(&mut self, start: Bound, end: Bound) -> (r: Option<Vec<u64>>)
        requires
            old(self).wf(),
            covers_all(start, end, old(self)@.len() as int) || in_bounds(
                start,
                end,
                old(self)@.len() as int,
            ),
        ensures
            final(self).wf(),
            r is None <==> covers_all(start, end, old(self)@.len() as int),
            r matches Some(taken) ==> drained(old(self)@, start, end) == Some(taken@),
            final(self)@ == after_drain(old(self)@, start, end),
    {
        let last_index = sv_len(&self.inner) - 1;
        if contains(&start, &end, 0) && contains(&start, &end, last_index) {
            None
        } else {
            Some(self.drain_unchecked(start, end))
        }
    }

    /// Takes out the items of a range and hands them out in their order.
    /// That the range leaves an item in the collection is for the caller to
    /// show.
    pub fn drain_unchecked(&mut self, start: Bound, end: Bound) -> (r: Vec<u64>)
        requires
            in_bounds(start, end, old(self)@.len() as int),
            past_index(end, old(self)@.len() as int) - first_index(start) < old(self)@.len(),
        ensures
            final(self).wf(),
            r@ == old(self)@.subrange(
                first_index(start),
                past_index(end, old(self)@.len() as int),
            ),
            final(self)@ == without_range(
                old(self)@,
                first_index(start),
                past_index(end, old(self)@.len() as int),
            ),
    {
        let (first, past) = resolve(&start, &end, sv_len(&self.inner));
        sv_drain(&mut self.inner, first, past)
    }

    /// Appends an item.
    pub fn push(&mut self, item: u64)
        requires
            old(self).wf(),
        ensures
            final(self).wf(),
            final(self)@ == old(self)@.push(item),
    {
        sv_push(&mut self.inner, item)
    }

    /// Puts an item at `index`, moving what was there and after it one place
    /// to the back.
    pub fn insert(&mut self, index: usize, element: u64)
        requires
            old(self).wf(),
            index <= old(self)@.len(),
        ensures
            final(self).wf(),
            final(self)@ == old(self)@.insert(index as int, element),
    {
        sv_insert(&mut self.inner, index, element)
    }

    /// Puts what the iterator yields at `index`, moving what was there and
    /// after it to the back. The items before `index` stay in front and the
    /// others at the back; where the iterator keeps to the laws of `vstd`'s
    /// iterator model, what lies between is the sequence that it has left to
    /// yield.
    pub fn insert_many<I: Iterator<Item = u64>>(&mut self, index: usize, iterable: I)
        requires
            old(self).wf(),
            index <= old(self)@.len(),
        ensures
            final(self).wf(),
            old(self)@.take(index as int).is_prefix_of(final(self)@),
            old(self)@.skip(index as int).is_suffix_of(final(self)@),
            final(self)@.len() >= old(self)@.len(),
            iterable.obeys_prophetic_iter_laws() ==> final(self)@ == spliced(
                old(self)@,
                index as int,
                index as int,
                iterable.remaining(),
            ),
    {
        sv_insert_many(&mut self.inner, index, iterable)
    }

    /// Takes the last item off, unless it is the only one: then nothing
    /// changes and `None` comes back.
    pub fn pop(&mut self) -> (r: Option<u64>)
        requires
            old(self).wf(),
        ensures
            final(self).wf(),
            r == popped(old(self)@),
            final(self)@ == after_pop(old(self)@),
    {
        if self.as_slice().has_just_1_element() {
            None
        } else {
            sv_pop(&mut self.inner)
        }
    }

    /// Moves all items of `other` to the end of this collection, leaving
    /// `other` empty.
    pub fn append_smallvec(&mut self, other: &mut InlineVec)
        requires
            old(self).wf(),
        ensures
            final(self).wf(),
            final(self)@ == old(self)@ + old(other)@,
            final(other)@ == Seq::<u64>::empty(),
    {
        sv_append(&mut self.inner, other)
    }

    /// Makes room for `additional` more items.
    pub fn reserve(&mut self, additional: usize)
        requires
            old(self).wf(),
        ensures
            final(self)@ == old(self)@,
    {
        sv_reserve(&mut self.inner, additional)
    }

    /// Tries to make room for `additional` more items, and hands on the
    /// backing store's error where there is no room to be had. The items stay
    /// as they are either way.
    ///
    /// It succeeds where no room is asked for and where the items fit inline
    /// with those to come. It fails where the room asked for is more than one
    /// allocation can hold. Where it fails, nothing has changed.
    pub fn try_reserve(&mut self, additional: usize) -> (r: Result<(), CollectionAllocErr>)
        requires
            old(self).wf(),
        ensures
            final(self)@ == old(self)@,
            additional == 0 || old(self)@.len() + additional <= INLINE_CAPACITY ==> r is Ok,
            additional > 0 && exceeds_address_space(old(self)@.len() + additional) ==> r is Err,
            r is Err ==> *final(self) == *old(self),
    {
        sv_try_reserve(&mut self.inner, additional)
    }

    /// Makes room for exactly `additional` more items.
    pub fn reserve_exact(&mut self, additional: usize)
        requires
            old(self).wf(),
        ensures
            final(self)@ == old(self)@,
    {
        sv_reserve_exact(&mut self.inner, additional)
    }

    /// Tries to make room for exactly `additional` more items, and hands on
    /// the backing store's error where there is no room to be had. The items
    /// stay as they are either way.
    ///
    /// It succeeds where no room is asked for and where the items fit inline
    /// with those to come. It fails where the room asked for is more than one
    /// allocation can hold. Where it fails, nothing has changed.
    pub fn try_reserve_exact(&mut self, additional: usize) -> (r: Result<(), CollectionAllocErr>)
        requires
            old(self).wf(),
        ensures
            final(self)@ == old(self)@,
            additional == 0 || old(self)@.len() + additional <= INLINE_CAPACITY ==> r is Ok,
            additional > 0 && exceeds_address_space(old(self)@.len() + additional) ==> r is Err,
            r is Err ==> *final(self) == *old(self),
    {
        sv_try_reserve_exact(&mut self.inner, additional)
    }

    /// Gives back the room that no item needs, moving the items inline where
    /// they fit.
    pub fn shrink_to_fit(&mut self)
        requires
            old(self).wf(),
        ensures
            final(self)@ == old(self)@,
    {
        sv_shrink_to_fit(&mut self.inner)
    }

    /// Sets the room to `new_cap` items, or to the inline capacity where that
    /// is more. Where `new_cap` is less than the number of items held,
    /// nothing changes.
    pub fn grow(&mut self, new_cap: PositiveUsize)
        requires
            old(self).wf(),
        ensures
            final(self)@ == old(self)@,
    {
        let room = new_cap.get();
        sv_grow(&mut self.inner, room)
    }

    /// Tries to set the room as `grow` does, and hands on the backing
    /// store's error where there is no room to be had. The items stay as
    /// they are either way.
    ///
    /// It succeeds where `new_cap` is less than the number of items held,
    /// which changes nothing, and where `new_cap` is no more than the inline
    /// capacity, which takes no allocation. It fails where `new_cap` is more
    /// than one allocation can hold. Where it fails, nothing has changed.
    pub fn try_grow(&mut self, new_cap: PositiveUsize) -> (r: Result<(), CollectionAllocErr>)
        requires
            old(self).wf(),
        ensures
            final(self)@ == old(self)@,
            new_cap.get() < old(self)@.len() || new_cap.get() <= INLINE_CAPACITY ==> r is Ok,
            new_cap.get() >= old(self)@.len() && exceeds_address_space(new_cap.get() as int)
                ==> r is Err,
            r is Err ==> *final(self) == *old(self),
    {
        let room = new_cap.get();
        sv_try_grow(&mut self.inner, room)
    }

    /// Keeps the first `len` items and drops the rest. `len` is not zero, so
    /// an item stays.
    pub fn truncate(&mut self, len: PositiveUsize)
        requires
            old(self).wf(),
        ensures
            final(self).wf(),
            final(self)@ == truncated(old(self)@, len.get() as int),
    {
        let keep = len.get();
        sv_truncate(&mut self.inner, keep)
    }

    /// The items as a borrowed view.
    pub fn as_slice(&self) -> (r: NonEmptySlice<'_, u64>)
        requires
            self.wf(),
        ensures
            r@ == self@,
    {
        NonEmptySlice::from_slice_unchecked(sv_as_slice(&self.inner))
    }

    /// The items as a view to write through.
    pub fn as_slice_mut(&mut self) -> (r: NonEmptySliceMut<'_, u64>)
        requires
            old(self).wf(),
        ensures
            r@ == old(self)@,
            final(self)@ == seq![*final(r.first)] + final(r.rest)@,
    {
        NonEmptySlice::from_slice_unchecked_mut(sv_as_mut_slice(&mut self.inner))
    }

    /// The items as an ordinary slice to write through. A slice cannot lose
    /// items, so the collection stays non-empty whatever is written.
    pub fn get_slice_mut(&mut self) -> (r: &mut [u64])
        requires
            old(self).wf(),
        ensures
            r@ == old(self)@,
            final(self)@ == final(r)@,
    {
        sv_as_mut_slice(&mut self.inner)
    }

    /// Takes out the item at `index` and puts the last item in its place.
    /// `index` is not zero, so the first item stays.
    pub fn swap_remove(&mut self, index: PositiveUsize) -> (r: u64)
        requires
            old(self).wf(),
            index.get() < old(self)@.len(),
        ensures
            final(self).wf(),
            r == old(self)@[index.get() as int],
            final(self)@ == old(self)@.update(index.get() as int, old(self)@.last()).drop_last(),
    {
        let at = index.get();
        sv_swap_remove(&mut self.inner, at)
    }

    /// Takes out the item at `index` and puts the last item in its place,
    /// unless the collection holds a single item: then nothing changes and
    /// `None` comes back.
    pub fn try_swap_remove(&mut self, index: usize) -> (r: Option<u64>)
        requires
            old(self).wf(),
            old(self)@.len() == 1 || index < old(self)@.len(),
        ensures
            final(self).wf(),
            r == removed(old(self)@, index as int),
            final(self)@ == after_swap_remove(old(self)@, index as int),
    {
        if self.as_slice().has_just_1_element() {
            None
        } else {
            Some(sv_swap_remove(&mut self.inner, index))
        }
    }

    /// Takes out the item at `index` and puts the last item in its place.
    /// That another item is left is for the caller to show.
    pub fn swap_remove_unchecked(&mut self, index: usize) -> (r: u64)
        requires
            old(self)@.len() >= 2,
            index < old(self)@.len(),
        ensures
            final(self).wf(),
            r == old(self)@[index as int],
            final(self)@ == old(self)@.update(index as int, old(self)@.last()).drop_last(),
    {
        sv_swap_remove(&mut self.inner, index)
    }

    /// Takes out the item at `index`, moving the later items one place to
    /// the front, unless the collection holds a single item: then nothing
    /// changes and `None` comes back.
    pub fn try_remove(&mut self, index: usize) -> (r: Option<u64>)
        requires
            old(self).wf(),
            old(self)@.len() == 1 || index < old(self)@.len(),
        ensures
            final(self).wf(),
            r == removed(old(self)@, index as int),
            final(self)@ == after_remove(old(self)@, index as int),
    {
        if self.as_slice().has_just_1_element() {
            None
        } else {
            Some(sv_remove(&mut self.inner, index))
        }
    }

    /// Takes out the item at `index`, moving the later items one place to
    /// the front. That another item is left is for the caller to show.
    pub fn remove_unchecked(&mut self, index: usize) -> (r: u64)
        requires
            old(self)@.len() >= 2,
            index < old(self)@.len(),
        ensures
            final(self).wf(),
            r == old(self)@[index as int],
            final(self)@ == old(self)@.remove(index as int),
    {
        sv_remove(&mut self.inner, index)
    }

    /// Of every run of neighbours with equal keys, keeps the first. The
    /// first item of the collection always stays.
    pub fn dedup_by_key<K: PartialEq, F: Fn(&u64) -> K>(&mut self, key: F)
        requires
            old(self).wf(),
            forall|a: &u64| call_requires(key, (a,)),
        ensures
            final(self).wf(),
            final(self)@.len() <= old(self)@.len(),
            forall|key_of: spec_fn(u64) -> K|
                K::obeys_eq_spec() && (forall|a: &u64, k: K|
                    call_ensures(key, (a,), k) ==> k == key_of(*a)) ==> final(self)@
                    == #[trigger] deduped(old(self)@, equal_keys(key_of)),
    {
        sv_dedup_by_key(&mut self.inner, key)
    }

    /// Of every run of neighbours that `same_bucket` relates, keeps the
    /// first. `same_bucket` is asked about an item and the item kept last
    /// before it, in that order. The first item of the collection always
    /// stays.
    pub fn dedup_by<F: Fn(&u64, &u64) -> bool>(&mut self, same_bucket: F)
        requires
            old(self).wf(),
            forall|a: &u64, b: &u64| call_requires(same_bucket, (a, b)),
        ensures
            final(self).wf(),
            final(self)@.len() <= old(self)@.len(),
            forall|same: spec_fn(u64, u64) -> bool|
                (forall|a: &u64, b: &u64, r: bool|
                    call_ensures(same_bucket, (a, b), r) ==> r == same(*a, *b)) ==> final(self)@
                    == #[trigger] deduped(old(self)@, same),
    {
        sv_dedup_by(&mut self.inner, same_bucket)
    }

    /// Of every run of neighbours that are equal, keeps the first.
    pub fn dedup(&mut self)
        requires
            old(self).wf(),
        ensures
            final(self).wf(),
            final(self)@ == deduped(old(self)@, equal_items::<u64>()),
    {
        sv_dedup(&mut self.inner);
        proof {
            lemma_deduped_keeps_first(old(self)@, equal_items::<u64>());
        }
    }

    /// Brings the collection to `new_len` items: drops the items past that
    /// length, or appends what `f` makes, call after call, until the length
    /// is reached. `new_len` is not zero, so an item stays.
    pub fn resize_with<F: FnMut() -> u64>(&mut self, new_len: PositiveUsize, f: F)
        requires
            old(self).wf(),
            forall|unit: ()| call_requires(f, unit),
        ensures
            final(self).wf(),
            final(self)@.len() == new_len.get(),
            new_len.get() <= old(self)@.len() ==> final(self)@ == old(self)@.take(
                new_len.get() as int,
            ),
            new_len.get() > old(self)@.len() ==> final(self)@.take(old(self)@.len() as int)
                == old(self)@,
            forall|i: int|
                old(self)@.len() <= i < new_len.get() ==> call_ensures(
                    f,
                    (),
                    #[trigger] final(self)@[i],
                ),
    {
        let target = new_len.get();
        sv_resize_with(&mut self.inner, target, f)
    }

    /// Brings the collection to `len` items: drops the items past that
    /// length, or appends copies of `value` until the length is reached.
    /// `len` is not zero, so an item stays.
    pub fn resize(&mut self, len: PositiveUsize, value: u64)
        requires
            old(self).wf(),
        ensures
            final(self).wf(),
            len.get() <= old(self)@.len() ==> final(self)@ == old(self)@.take(len.get() as int),
            len.get() > old(self)@.len() ==> final(self)@ == old(self)@ + Seq::new(
                (len.get() - old(self)@.len()) as nat,
                |i: int| value,
            ),
    {
        let target = len.get();
        sv_resize(&mut self.inner, target, value)
    }

    /// Puts copies of the items of a slice at `index`, moving what was
    /// there and after it to the back.
    pub fn insert_from_slice(&mut self, index: usize, slice: &[u64])
        requires
            old(self).wf(),
            index <= old(self)@.len(),
        ensures
            final(self).wf(),
            final(self)@ == spliced(old(self)@, index as int, index as int, slice@),
    {
        sv_insert_from_slice(&mut self.inner, index, slice)
    }

    /// Appends copies of the items of a slice.
    pub fn extend_from_slice(&mut self, slice: &[u64])
        requires
            old(self).wf(),
        ensures
            final(self).wf(),
            final(self)@ == old(self)@ + slice@,
    {
        sv_extend_from_slice(&mut self.inner, slice)
    }

    /// Appends what the iterator yields. The items that were there stay in
    /// front; where the iterator keeps to the laws of `vstd`'s iterator
    /// model, what follows them is the sequence that it has left to yield.
    pub fn extend<I: Iterator<Item = u64>>(&mut self, iter: I)
        requires
            old(self).wf(),
        ensures
            final(self).wf(),
            old(self)@.is_prefix_of(final(self)@),
            iter.obeys_prophetic_iter_laws() ==> final(self)@ == old(self)@ + iter.remaining(),
    {
        sv_extend(&mut self.inner, iter)
    }
}

impl From<NonEmptySmallVec> for InlineVec {
    fn from(s: NonEmptySmallVec) -> (r: InlineVec)
    {
        s.inner
    }
}

impl FromSpecImpl<NonEmptySmallVec> for InlineVec {
    open spec fn obeys_from_spec() -> bool {
        true
    }

    open spec fn from_spec(s: NonEmptySmallVec) -> InlineVec {
        s.spec_into_smallvec()
    }
}

impl TryFrom<InlineVec> for NonEmptySmallVec {
    type Error = InlineVec;

    fn try_from(s: InlineVec) -> (r: Result<NonEmptySmallVec, InlineVec>)
    {
        NonEmptySmallVec::try_from_smallvec(s)
    }
}

impl TryFromSpecImpl<InlineVec> for NonEmptySmallVec {
    open spec fn obeys_try_from_spec() -> bool {
        true
    }

    open spec fn try_from_spec(s: InlineVec) -> Result<NonEmptySmallVec, InlineVec> {
        NonEmptySmallVec::spec_try_from_smallvec(s)
    }
}

impl std::ops::Index<usize> for NonEmptySmallVec {
    type Output = u64;

    fn index(&self, index: usize) -> (r: &u64)
        ensures
            *r == self@[index as int],
    {
        &sv_as_slice(&self.inner)[index]
    }
}

impl vstd::std_specs::core::IndexSpecImpl<usize> for NonEmptySmallVec {
    open spec fn index_req(&self, index: &usize) -> bool {
        *index < self@.len()
    }
}

impl AsRef<[u64]> for NonEmptySmallVec {
    fn as_ref(&self) -> (r: &[u64])
        ensures
            r@ == self@,
    {
        sv_as_slice(&self.inner)
    }
}

impl Clone for NonEmptySmallVec {
    fn clone(&self) -> (r: NonEmptySmallVec)
        ensures
            r@ == self@,
    {
        NonEmptySmallVec { inner: sv_clone(&self.inner) }
    }
}

impl PartialEq for NonEmptySmallVec {
    fn eq(&self, other: &NonEmptySmallVec) -> (r: bool)
    {
        sv_eq(&self.inner, &other.inner)
    }
}

impl PartialEqSpecImpl for NonEmptySmallVec {
    open spec fn obeys_eq_spec() -> bool {
        true
    }

    open spec fn eq_spec(&self, other: &NonEmptySmallVec) -> bool {
        self@ == other@
    }
}

impl Eq for NonEmptySmallVec {

}

impl PartialOrd for NonEmptySmallVec {
    fn partial_cmp(&self, other: &NonEmptySmallVec) -> (r: Option<Ordering>)
    {
        sv_partial_cmp(&self.inner, &other.inner)
    }
}

impl PartialOrdSpecImpl for NonEmptySmallVec {
    open spec fn obeys_partial_cmp_spec() -> bool {
        true
    }

    open spec fn partial_cmp_spec(&self, other: &NonEmptySmallVec) -> Option<Ordering> {
        Some(lexicographic(self@, other@))
    }
}

} // verus!
