//! An owned, growable run of items that is never empty.

use vstd::prelude::*;
use vstd::std_specs::cmp::{PartialEqSpec, PartialEqSpecImpl};
use vstd::std_specs::convert::{FromSpecImpl, TryFromSpecImpl};
use vstd::std_specs::iter::IteratorSpec;
use std::collections::TryReserveError;
use crate::backing::{
    vec_capacity,
    vec_dedup,
    vec_dedup_by,
    vec_dedup_by_key,
    vec_extend,
    vec_from_array,
    vec_into_boxed_slice,
    vec_leak,
    vec_reserve_exact,
    vec_shrink_to,
    vec_shrink_to_fit,
    vec_try_into_array,
    vec_try_reserve_exact,
};
use crate::model::{
    after_drain,
    after_pop,
    after_remove,
    after_swap_remove,
    deduped,
    drained,
    equal_items,
    equal_keys,
    popped,
    removed,
    spliced,
    truncated,
    without_range,
};
use crate::non_empty_slice::{NonEmptyBoxedSlice, NonEmptySlice, NonEmptySliceMut};
use crate::positive::PositiveUsize;
use crate::range::{
    contains,
    covers_all,
    first_index,
    in_bounds,
    past_index,
    resolve,
    Bound,
};

verus! {

/// A vector that always holds at least one item.
///
/// The backing vector is never handed out mutably, since it could then be
/// emptied from outside. What adds items is offered as it is; what takes
/// items away comes in a guarded form, which does nothing where the last item
/// would go, and in a form that leaves it to the caller to rule that out.
///
/// That the vector holds an item is stated by [`wf`](NonEmptyVec::wf): every
/// constructor establishes it, and the operations ask for it and keep it.
#[derive(Debug, PartialOrd, Ord, Hash)]
pub struct NonEmptyVec<T> {
    inner: Vec<T>,
}

impl<T> View for NonEmptyVec<T> {
    type V = Seq<T>;

    closed spec fn view(&self) -> Seq<T> {
        self.inner@
    }
}

impl<T> NonEmptyVec<T> {
    /// What every value of the type satisfies: it holds an item.
    pub open spec fn wf(&self) -> bool {
        self@.len() >= 1
    }

    /// What `try_from_vec` makes of a vector.
    pub closed spec fn spec_try_from_vec(vec: Vec<T>) -> Result<NonEmptyVec<T>, Vec<T>> {
        if vec@.len() == 0 {
            Err(vec)
        } else {
            Ok(NonEmptyVec { inner: vec })
        }
    }

    /// What `to_vec` hands out: the backing vector.
    pub closed spec fn spec_to_vec(self) -> Vec<T> {
        self.inner
    }

    /// The backing vector holds what the collection holds, and taking over
    /// a vector that holds an item makes it the backing vector.
    pub proof fn lemma_backing_vec(vec: Vec<T>)
        ensures
            vec@.len() == 0 ==> Self::spec_try_from_vec(vec) == Err::<NonEmptyVec<T>, Vec<T>>(vec),
            vec@.len() >= 1 ==> (Self::spec_try_from_vec(vec) matches Ok(taken) && taken@ == vec@
                && taken.spec_to_vec() == vec),
            forall|v: NonEmptyVec<T>| (#[trigger] v.spec_to_vec())@ == v@,
    {
    }

    /// A vector of the one item given.
    pub fn new(item: T) -> (r: NonEmptyVec<T>)
        ensures
            r.wf(),
            r@ == seq![item],
    {
        let mut inner = Vec::new();
        inner.push(item);
        NonEmptyVec { inner }
    }

    /// A vector of the one item given, with room asked for `capacity` items.
    /// Asking for no room still yields room for the item.
    pub fn with_capacity(item: T, capacity: usize) -> (r: NonEmptyVec<T>)
        ensures
            r.wf(),
            r@ == seq![item],
    {
        let mut inner = Vec::with_capacity(capacity);
        inner.push(item);
        NonEmptyVec { inner }
    }

    /// A vector of the one item given, with room asked for `capacity` items,
    /// which is at least one.
    pub fn with_exact_capacity(item: T, capacity: PositiveUsize) -> (r: NonEmptyVec<T>)
        ensures
            r.wf(),
            r@ == seq![item],
    {
        NonEmptyVec::with_capacity(item, capacity.get())
    }

    /// Takes over a vector, or hands it back when it holds nothing. The items
    /// are not copied either way.
    pub fn try_from_vec(vec: Vec<T>) -> (r: Result<NonEmptyVec<T>, Vec<T>>)
        ensures
            vec@.len() == 0 ==> r == Err::<NonEmptyVec<T>, Vec<T>>(vec),
            vec@.len() >= 1 ==> (r matches Ok(taken) && taken.wf() && taken@ == vec@),
            r == Self::spec_try_from_vec(vec),
    {
        if vec.is_empty() {
            Err(vec)
        } else {
            Ok(NonEmptyVec { inner: vec })
        }
    }

    /// Moves the items out of a vector that holds some, leaving it empty. A
    /// vector that holds nothing is left as it is.
    pub fn try_from_vec_ref_mut(vec: &mut Vec<T>) -> (r: Option<NonEmptyVec<T>>)
        ensures
            old(vec)@.len() == 0 ==> r is None && *final(vec) == *old(vec),
            old(vec)@.len() >= 1 ==> (r matches Some(taken) && taken.wf() && taken@ == old(vec)@)
                && final(vec)@ == Seq::<T>::empty(),
    {
        if vec.is_empty() {
            None
        } else {
            let mut taken = NonEmptyVec { inner: Vec::new() };
            std::mem::swap(vec, &mut taken.inner);
            Some(taken)
        }
    }

    /// Takes a vector as non-empty on the caller's word.
    pub fn from_vec_unchecked(vec: Vec<T>) -> (r: NonEmptyVec<T>)
        requires
            vec@.len() >= 1,
        ensures
            r.wf(),
            r@ == vec@,
    {
        NonEmptyVec { inner: vec }
    }

    /// Moves the items of an array into a vector, the array being non-empty
    /// on the caller's word.
    pub fn from_array_unchecked<const N: usize>(arr: [T; N]) -> (r: NonEmptyVec<T>)
        requires
            N >= 1,
        ensures
            r.wf(),
            r@ == arr@,
    {
        NonEmptyVec { inner: vec_from_array(arr) }
    }

    /// Moves the items of an array into a vector. The array's length is part
    /// of its type, so that it is positive is settled before the program
    /// runs.
    pub fn from_arr<const N: usize>(arr: [T; N]) -> (r: NonEmptyVec<T>)
        requires
            N >= 1,
        ensures
            r.wf(),
            r@ == arr@,
    {
        NonEmptyVec { inner: vec_from_array(arr) }
    }

    /// Gives up the guarantee and hands out the backing vector.
    pub fn to_vec(self) -> (r: Vec<T>)
        requires
            self.wf(),
        ensures
            r@ == self@,
            r@.len() >= 1,
            r == self.spec_to_vec(),
    {
        self.inner
    }

    /// Moves the items into an array, where there are exactly as many as the
    /// array holds; else hands the vector back.
    pub fn try_into_array<const N: usize>(self) -> (r: Result<[T; N], NonEmptyVec<T>>)
        requires
            self.wf(),
            N >= 1,
        ensures
            self@.len() == N ==> (r matches Ok(arr) && arr@ == self@),
            self@.len() != N ==> (r matches Err(back) && back.wf() && back@ == self@),
    {
        match vec_try_into_array(self.inner) {
            Ok(arr) => Ok(arr),
            Err(inner) => Err(NonEmptyVec { inner }),
        }
    }

    /// The backing vector, to read.
    pub fn get_vec(&self) -> (r: &Vec<T>)
        requires
            self.wf(),
        ensures
            r@ == self@,
            r@.len() >= 1,
    {
        &self.inner
    }

    /// The number of items there is room for. It is never zero, since the
    /// items held have room.
    pub fn capacity(&self) -> (r: PositiveUsize)
        requires
            self.wf(),
        ensures
            r.get() >= self@.len(),
    {
        PositiveUsize::new_unchecked(vec_capacity(&self.inner))
    }

    /// Makes room for `additional` more items.
    pub fn reserve(&mut self, additional: usize)
        requires
            old(self).wf(),
        ensures
            final(self)@ == old(self)@,
    {
        self.inner.reserve(additional)
    }

    /// Makes room for exactly `additional` more items.
    pub fn reserve_exact(&mut self, additional: usize)
        requires
            old(self).wf(),
        ensures
            final(self)@ == old(self)@,
    {
        vec_reserve_exact(&mut self.inner, additional)
    }

    /// Tries to make room for `additional` more items, and hands on the
    /// backing vector's error where there is no room to be had. The items
    /// stay as they are either way. Asking for no room always succeeds.
    pub fn try_reserve(&mut self, additional: usize) -> (r: Result<(), TryReserveError>)
        requires
            old(self).wf(),
        ensures
            final(self)@ == old(self)@,
            additional == 0 ==> r is Ok,
    {
        if additional == 0 {
            Ok(())
        } else {
            self.inner.try_reserve(additional)
        }
    }

    /// Tries to make room for exactly `additional` more items, and hands on
    /// the backing vector's error where there is no room to be had. The items
    /// stay as they are either way. Asking for no room always succeeds, and
    /// asking for room for more items than a `usize` counts always fails.
    pub fn try_reserve_exact(&mut self, additional: usize) -> (r: Result<(), TryReserveError>)
        requires
            old(self).wf(),
        ensures
            final(self)@ == old(self)@,
            additional == 0 ==> r is Ok,
            old(self)@.len() + additional > usize::MAX ==> r is Err,
    {
        vec_try_reserve_exact(&mut self.inner, additional)
    }

    /// Gives back the room that no item needs.
    pub fn shrink_to_fit(&mut self)
        requires
            old(self).wf(),
        ensures
            final(self)@ == old(self)@,
    {
        vec_shrink_to_fit(&mut self.inner)
    }

    /// Gives back room, keeping room for `min_capacity` items at least.
    pub fn shrink_to(&mut self, min_capacity: usize)
        requires
            old(self).wf(),
        ensures
            final(self)@ == old(self)@,
    {
        vec_shrink_to(&mut self.inner, min_capacity)
    }

    /// Turns the vector into a boxed slice of the same items, which is as
    /// surely non-empty.
    pub fn into_boxed_slice(self) -> (r: NonEmptyBoxedSlice<T>)
        requires
            self.wf(),
        ensures
            r@ == self@,
    {
        NonEmptyBoxedSlice::from_boxed_slice_unchecked(vec_into_boxed_slice(self.inner))
    }

    /// Keeps the first `len` items and drops the rest. `len` is not zero, so
    /// an item stays.
    pub fn truncate(&mut self, len: PositiveUsize)
        requires
            old(self).wf(),
        ensures
            final(self).wf(),
            final(self)@ == truncated(old(self)@, len.get() as int),
    {
        self.inner.truncate(len.get())
    }

    /// The items as a borrowed view.
    pub fn as_slice(&self) -> (r: NonEmptySlice<'_, T>)
        requires
            self.wf(),
        ensures
            r@ == self@,
    {
        NonEmptySlice::from_slice_unchecked(self.inner.as_slice())
    }

    /// The items as a view to write through.
    pub fn as_slice_mut(&mut self) -> (r: NonEmptySliceMut<'_, T>)
        requires
            old(self).wf(),
        ensures
            r@ == old(self)@,
            final(self)@ == seq![*final(r.first)] + final(r.rest)@,
    {
        NonEmptySlice::from_slice_unchecked_mut(self.inner.as_mut_slice())
    }

    /// The items as an ordinary slice to write through. A slice cannot lose
    /// items, so the vector stays non-empty whatever is written.
    pub fn get_slice_mut(&mut self) -> (r: &mut [T])
        requires
            old(self).wf(),
        ensures
            r@ == old(self)@,
            final(self)@ == final(r)@,
    {
        self.inner.as_mut_slice()
    }

    /// Of every run of neighbours with equal keys, keeps the first. The
    /// first item of the vector always stays.
    pub fn dedup_by_key<K: PartialEq, F: Fn(&T) -> K>(&mut self, key: F)
        requires
            old(self).wf(),
            forall|a: &T| call_requires(key, (a,)),
        ensures
            final(self).wf(),
            final(self)@.len() <= old(self)@.len(),
            forall|key_of: spec_fn(T) -> K|
                K::obeys_eq_spec() && (forall|a: &T, k: K|
                    call_ensures(key, (a,), k) ==> k == key_of(*a)) ==> final(self)@
                    == #[trigger] deduped(old(self)@, equal_keys(key_of)),
    {
        vec_dedup_by_key(&mut self.inner, key)
    }

    /// Of every run of neighbours that `same_bucket` relates, keeps the
    /// first. `same_bucket` is asked about an item and the item kept last
    /// before it, in that order. The first item of the vector always stays.
    pub fn dedup_by<F: Fn(&T, &T) -> bool>(&mut self, same_bucket: F)
        requires
            old(self).wf(),
            forall|a: &T, b: &T| call_requires(same_bucket, (a, b)),
        ensures
            final(self).wf(),
            final(self)@.len() <= old(self)@.len(),
            forall|same: spec_fn(T, T) -> bool|
                (forall|a: &T, b: &T, r: bool|
                    call_ensures(same_bucket, (a, b), r) ==> r == same(*a, *b)) ==> final(self)@
                    == #[trigger] deduped(old(self)@, same),
    {
        vec_dedup_by(&mut self.inner, same_bucket)
    }

    /// Appends an item.
    pub fn push(&mut self, value: T)
        requires
            old(self).wf(),
        ensures
            final(self).wf(),
            final(self)@ == old(self)@.push(value),
    {
        self.inner.push(value)
    }

    /// Puts an item at `index`, moving what was there and after it one place
    /// to the back.
    pub fn insert(&mut self, index: usize, element: T)
        requires
            old(self).wf(),
            index <= old(self)@.len(),
        ensures
            final(self).wf(),
            final(self)@ == old(self)@.insert(index as int, element),
    {
        self.inner.insert(index, element)
    }

    /// Moves all items of `other` to the end of this vector, leaving `other`
    /// empty.
    pub fn append_vec(&mut self, other: &mut Vec<T>)
        requires
            old(self).wf(),
        ensures
            final(self).wf(),
            final(self)@ == old(self)@ + old(other)@,
            final(other)@ == Seq::<T>::empty(),
    {
        self.inner.append(other)
    }

    /// Takes the last item off, unless it is the only one: then nothing
    /// changes and `None` comes back.
    pub fn try_pop(&mut self) -> (r: Option<T>)
        requires
            old(self).wf(),
        ensures
            final(self).wf(),
            r == popped(old(self)@),
            final(self)@ == after_pop(old(self)@),
    {
        if self.as_slice().has_just_1_element() {
            None
        } else {
            self.inner.pop()
        }
    }

    /// Takes out the item at `index` and puts the last item in its place.
    /// `index` is not zero, so the first item stays.
    pub fn swap_remove(&mut self, index: PositiveUsize) -> (r: T)
        requires
            old(self).wf(),
            index.get() < old(self)@.len(),
        ensures
            final(self).wf(),
            r == old(self)@[index.get() as int],
            final(self)@ == old(self)@.update(index.get() as int, old(self)@.last()).drop_last(),
    {
        let at = index.get();
        self.inner.swap_remove(at)
    }

    /// Takes out the item at `index` and puts the last item in its place,
    /// unless the vector holds a single item: then nothing changes and `None`
    /// comes back.
    pub fn try_swap_remove(&mut self, index: usize) -> (r: Option<T>)
        requires
            old(self).wf(),
            old(self)@.len() == 1 || index < old(self)@.len(),
        ensures
            final(self).wf(),
            r == removed(old(self)@, index as int),
            final(self)@ == after_swap_remove(old(self)@, index as int),
    {
        if self.as_slice().has_just_1_element() {
            None
        } else {
            Some(self.inner.swap_remove(index))
        }
    }

    /// Takes out the item at `index` and puts the last item in its place.
    /// That another item is left is for the caller to show.
    pub fn swap_remove_unchecked(&mut self, index: usize) -> (r: T)
        requires
            old(self)@.len() >= 2,
            index < old(self)@.len(),
        ensures
            final(self).wf(),
            r == old(self)@[index as int],
            final(self)@ == old(self)@.update(index as int, old(self)@.last()).drop_last(),
    {
        self.inner.swap_remove(index)
    }

    /// Takes out the item at `index`, moving the later items one place to
    /// the front, unless the vector holds a single item: then nothing changes
    /// and `None` comes back.
    pub fn try_remove(&mut self, index: usize) -> (r: Option<T>)
        requires
            old(self).wf(),
            old(self)@.len() == 1 || index < old(self)@.len(),
        ensures
            final(self).wf(),
            r == removed(old(self)@, index as int),
            final(self)@ == after_remove(old(self)@, index as int),
    {
        if self.as_slice().has_just_1_element() {
            None
        } else {
            Some(self.inner.remove(index))
        }
    }

    /// Takes out the item at `index`, moving the later items one place to
    /// the front. That another item is left is for the caller to show.
    pub fn remove_unchecked(&mut self, index: usize) -> (r: T)
        requires
            old(self)@.len() >= 2,
            index < old(self)@.len(),
        ensures
            final(self).wf(),
            r == old(self)@[index as int],
            final(self)@ == old(self)@.remove(index as int),
    {
        self.inner.remove(index)
    }

    /// Takes out the items of a range and hands them out in their order,
    /// unless the range holds both the first and the last index of the
    /// vector: then nothing changes and `None` comes back.
    ///
    /// A range that holds nothing takes nothing out and yields an empty
    /// vector, wherever it lies.
    pub fn drain(&mut self, start: Bound, end: Bound) -> (r: Option<Vec<T>>)
        requires
            old(self).wf(),
            covers_all(start, end, old(self)@.len() as int) || in_bounds(
                start,
                end,
                old(self)@.len() as int,
            ),
        ensures
            final(self).wf(),
            r is None <==> covers_all(start, end, old(self)@.len() as int),
            r matches Some(taken) ==> drained(old(self)@, start, end) == Some(taken@),
            final(self)@ == after_drain(old(self)@, start, end),
    {
        let last_index = self.inner.len() - 1;
        if contains(&start, &end, 0) && contains(&start, &end, last_index) {
            None
        } else {
            Some(self.drain_unchecked(start, end))
        }
    }

    /// Takes out the items of a range and hands them out in their order.
    /// That the range leaves an item in the vector is for the caller to show.
    pub fn drain_unchecked(&mut self, start: Bound, end: Bound) -> (r: Vec<T>)
        requires
            in_bounds(start, end, old(self)@.len() as int),
            past_index(end, old(self)@.len() as int) - first_index(start) < old(self)@.len(),
        ensures
            final(self).wf(),
            r@ == old(self)@.subrange(
                first_index(start),
                past_index(end, old(self)@.len() as int),
            ),
            final(self)@ == without_range(
                old(self)@,
                first_index(start),
                past_index(end, old(self)@.len() as int),
            ),
    {
        let (first, past) = resolve(&start, &end, self.inner.len());
        let mut tail = self.inner.split_off(past);
        let taken = self.inner.split_off(first);
        self.inner.append(&mut tail);
        taken
    }

    /// Moves the items from index `at` on into a vector of their own. `at` is
    /// not zero, so the first item stays.
    pub fn split_off(&mut self, at: PositiveUsize) -> (r: Vec<T>)
        requires
            old(self).wf(),
            at.get() <= old(self)@.len(),
        ensures
            final(self).wf(),
            final(self)@ == old(self)@.subrange(0, at.get() as int),
            r@ == old(self)@.subrange(at.get() as int, old(self)@.len() as int),
    {
        let from = at.get();
        self.inner.split_off(from)
    }

    /// Brings the vector to `new_len` items: drops the items past that
    /// length, or appends what `f` makes, call after call, until the length
    /// is reached. `new_len` is not zero, so an item stays.
    pub fn resize_with<F: FnMut() -> T>(&mut self, new_len: PositiveUsize, f: F)
        requires
            old(self).wf(),
            forall|unit: ()| call_requires(f, unit),
        ensures
            final(self).wf(),
            final(self)@.len() == new_len.get(),
            new_len.get() <= old(self)@.len() ==> final(self)@ == old(self)@.take(
                new_len.get() as int,
            ),
            new_len.get() > old(self)@.len() ==> final(self)@.take(old(self)@.len() as int)
                == old(self)@,
            forall|i: int|
                old(self)@.len() <= i < new_len.get() ==> call_ensures(
                    f,
                    (),
                    #[trigger] final(self)@[i],
                ),
    {
        let target = new_len.get();
        let ghost before = self.inner@;
        if target <= self.inner.len() {
            self.inner.truncate(target);
        } else {
            let ghost make = f;
            let mut f = f;
            while self.inner.len() < target
                invariant
                    f == make,
                    before.len() <= self.inner@.len() <= target,
                    self.inner@.take(before.len() as int) == before,
                    forall|unit: ()| call_requires(f, unit),
                    forall|i: int|
                        before.len() <= i < self.inner@.len() ==> call_ensures(
                            f,
                            (),
                            #[trigger] self.inner@[i],
                        ),
                decreases target - self.inner@.len(),
            {
                let ghost so_far = self.inner@;
                let item = f();
                self.inner.push(item);
                proof {
                    assert(self.inner@.take(before.len() as int) =~= so_far.take(
                        before.len() as int,
                    ));
                }
            }
        }
    }

    /// Gives up the vector for good and hands out its items as a slice that
    /// lives as long as the caller likes.
    pub fn leak<'a>(self) -> (r: &'a mut [T])
        requires
            self.wf(),
        ensures
            r@ == self@,
            r@.len() >= 1,
    {
        vec_leak(self.inner)
    }

    /// Replaces the items of a range by the items of `replace_with` and hands
    /// out the items replaced, in their order. That an item is left or put in
    /// is for the caller to show.
    pub fn splice(&mut self, start: Bound, end: Bound, replace_with: Vec<T>) -> (r:
        Vec<T>)
        requires
            old(self).wf(),
            in_bounds(start, end, old(self)@.len() as int),
            replace_with@.len() >= 1 || past_index(end, old(self)@.len() as int) - first_index(
                start,
            ) < old(self)@.len(),
        ensures
            final(self).wf(),
            r@ == old(self)@.subrange(
                first_index(start),
                past_index(end, old(self)@.len() as int),
            ),
            final(self)@ == spliced(
                old(self)@,
                first_index(start),
                past_index(end, old(self)@.len() as int),
                replace_with@,
            ),
    {
        let (first, past) = resolve(&start, &end, self.inner.len());
        let mut replace_with = replace_with;
        let mut tail = self.inner.split_off(past);
        let taken = self.inner.split_off(first);
        self.inner.append(&mut replace_with);
        self.inner.append(&mut tail);
        taken
    }

    /// Appends what the iterator yields. The items that were there stay in
    /// front; where the iterator keeps to the laws of `vstd`'s iterator
    /// model, what follows them is the sequence that it has left to yield.
    pub fn extend<I: Iterator<Item = T>>(&mut self, iter: I)
        requires
            old(self).wf(),
        ensures
            final(self).wf(),
            old(self)@.is_prefix_of(final(self)@),
            iter.obeys_prophetic_iter_laws() ==> final(self)@ == old(self)@ + iter.remaining(),
    {
        vec_extend(&mut self.inner, iter)
    }
}

impl<T: Clone> NonEmptyVec<T> {
    /// A vector of `n` clones of `elem`.
    pub fn from_elem(elem: T, n: PositiveUsize) -> (r: NonEmptyVec<T>)
        ensures
            r.wf(),
            r@.len() == n.get(),
            forall|i: int| 0 <= i < n.get() ==> cloned(elem, #[trigger] r@[i]),
    {
        let count = n.get();
        NonEmptyVec { inner: vec![elem; count] }
    }

    /// Brings the vector to `new_len` items: drops the items past that
    /// length, or appends clones of `value` until the length is reached.
    /// `new_len` is not zero, so an item stays.
    pub fn resize(&mut self, new_len: PositiveUsize, value: T)
        requires
            old(self).wf(),
        ensures
            final(self).wf(),
            final(self)@.len() == new_len.get(),
            new_len.get() <= old(self)@.len() ==> final(self)@ == old(self)@.take(
                new_len.get() as int,
            ),
            new_len.get() > old(self)@.len() ==> final(self)@.take(old(self)@.len() as int)
                == old(self)@,
            forall|i: int|
                old(self)@.len() <= i < new_len.get() ==> cloned(value, #[trigger] final(self)@[i]),
    {
        let target = new_len.get();
        self.inner.resize(target, value);
    }

    /// Appends clones of the items of a slice.
    pub fn extend_from_slice(&mut self, other: &[T])
        requires
            old(self).wf(),
        ensures
            final(self).wf(),
            final(self)@.len() == old(self)@.len() + other@.len(),
            final(self)@.take(old(self)@.len() as int) == old(self)@,
            forall|i: int|
                0 <= i < other@.len() ==> cloned(
                    other@[i],
                    #[trigger] final(self)@[old(self)@.len() + i],
                ),
    {
        let ghost before = self.inner@;
        self.inner.extend_from_slice(other);
        proof {
            assert(self.inner@.take(before.len() as int) =~= before);
        }
    }

    /// Appends clones of the vector's own items in a range.
    pub fn extend_from_within(&mut self, start: Bound, end: Bound)
        requires
            old(self).wf(),
            in_bounds(start, end, old(self)@.len() as int),
        ensures
            final(self).wf(),
            final(self)@.len() == old(self)@.len() + past_index(end, old(self)@.len() as int)
                - first_index(start),
            final(self)@.take(old(self)@.len() as int) == old(self)@,
            forall|i: int|
                first_index(start) <= i < past_index(end, old(self)@.len() as int) ==> cloned(
                    old(self)@[i],
                    #[trigger] final(self)@[old(self)@.len() + i - first_index(start)],
                ),
    {
        let ghost before = self.inner@;
        let (first, past) = resolve(&start, &end, self.inner.len());
        let mut at = first;
        while at < past
            invariant
                first <= at <= past <= before.len(),
                self.inner@.len() == before.len() + at - first,
                self.inner@.take(before.len() as int) == before,
                forall|i: int|
                    first <= i < at ==> cloned(
                        before[i],
                        #[trigger] self.inner@[before.len() + i - first],
                    ),
            decreases past - at,
        {
            let ghost so_far = self.inner@;
            assert(so_far[at as int] == before[at as int]) by {
                assert(so_far.take(before.len() as int)[at as int] == so_far[at as int]);
            }
            let item = self.inner[at].clone();
            self.inner.push(item);
            proof {
                assert(self.inner@.take(before.len() as int) =~= so_far.take(
                    before.len() as int,
                ));
                assert forall|i: int| first <= i < at + 1 implies cloned(
                    before[i],
                    #[trigger] self.inner@[before.len() + i - first],
                ) by {
                    if i < at {
                        assert(self.inner@[before.len() + i - first] == so_far[before.len() + i
                            - first]);
                    }
                }
            }
            at = at + 1;
        }
    }
}

impl<T: PartialEq> NonEmptyVec<T> {
    /// Of every run of neighbours that are equal, keeps the first. The first
    /// item of the vector always stays.
    pub fn dedup(&mut self)
        requires
            old(self).wf(),
        ensures
            final(self).wf(),
            final(self)@.len() <= old(self)@.len(),
            T::obeys_eq_spec() ==> final(self)@ == deduped(old(self)@, equal_items::<T>()),
    {
        vec_dedup(&mut self.inner)
    }
}

impl<T: Clone> Clone for NonEmptyVec<T> {
    fn clone(&self) -> (r: NonEmptyVec<T>)
        ensures
            r@.len() == self@.len(),
            forall|i: int| 0 <= i < self@.len() ==> cloned(self@[i], #[trigger] r@[i]),
    {
        NonEmptyVec { inner: self.inner.clone() }
    }
}

impl<T: PartialEq> PartialEq for NonEmptyVec<T> {
    fn eq(&self, other: &NonEmptyVec<T>) -> (r: bool)
    {
        self.inner == other.inner
    }
}

impl<T: PartialEq> PartialEqSpecImpl for NonEmptyVec<T> {
    open spec fn obeys_eq_spec() -> bool {
        T::obeys_eq_spec()
    }

    open spec fn eq_spec(&self, other: &NonEmptyVec<T>) -> bool {
        &&& self@.len() == other@.len()
        &&& forall|i: int| 0 <= i < self@.len() ==> #[trigger] self@[i].eq_spec(&other@[i])
    }
}

impl<T: Eq> Eq for NonEmptyVec<T> {

}

impl<T> From<NonEmptyVec<T>> for Vec<T> {
    fn from(s: NonEmptyVec<T>) -> (r: Vec<T>)
    {
        s.inner
    }
}

impl<T> FromSpecImpl<NonEmptyVec<T>> for Vec<T> {
    open spec fn obeys_from_spec() -> bool {
        true
    }

    open spec fn from_spec(s: NonEmptyVec<T>) -> Vec<T> {
        s.spec_to_vec()
    }
}

impl<T> TryFrom<Vec<T>> for NonEmptyVec<T> {
    type Error = Vec<T>;

    fn try_from(s: Vec<T>) -> (r: Result<NonEmptyVec<T>, Vec<T>>)
    {
        NonEmptyVec::try_from_vec(s)
    }
}

impl<T> TryFromSpecImpl<Vec<T>> for NonEmptyVec<T> {
    open spec fn obeys_try_from_spec() -> bool {
        true
    }

    open spec fn try_from_spec(s: Vec<T>) -> Result<NonEmptyVec<T>, Vec<T>> {
        NonEmptyVec::spec_try_from_vec(s)
    }
}

impl<T> IntoIterator for NonEmptyVec<T> {
    type Item = T;

    type IntoIter = std::vec::IntoIter<T>;

    fn into_iter(self) -> (r: std::vec::IntoIter<T>)
        ensures
            r.obeys_prophetic_iter_laws(),
            r.remaining() == self@,
    {
        broadcast use vstd::std_specs::vec::axiom_spec_into_iter;

        self.inner.into_iter()
    }
}

impl<T> std::ops::Index<usize> for NonEmptyVec<T> {
    type Output = T;

    fn index(&self, index: usize) -> (r: &T)
        ensures
            *r == self@[index as int],
    {
        &self.inner[index]
    }
}

impl<T> vstd::std_specs::core::IndexSpecImpl<usize> for NonEmptyVec<T> {
    open spec fn index_req(&self, index: &usize) -> bool {
        *index < self@.len()
    }
}

impl<T> AsRef<[T]> for NonEmptyVec<T> {
    fn as_ref(&self) -> (r: &[T])
        ensures
            r@ == self@,
    {
        self.inner.as_slice()
    }
}

} // verus!
