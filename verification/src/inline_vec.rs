//! The small vector that backs the inline-capacity collection.
//!
//! [`InlineVec`] is a `SmallVec` of `u64` items that keeps up to
//! [`INLINE_CAPACITY`] of them in place and moves to the heap beyond that.
//! Verus does not look inside it. What it holds is named by
//! [`items_of`], and every operation on it goes through one function of
//! this file, whose contract says over that name what the operation does. The
//! contracts are believed, not proved.
//!
//! As in `vstd`'s contracts for `Vec`, running out of memory or of address
//! space is not modelled.

use vstd::prelude::*;
use vstd::std_specs::cmp::{PartialEqSpec, PartialEqSpecImpl, PartialOrdSpecImpl};
use vstd::std_specs::iter::IteratorSpec;
use smallvec::{CollectionAllocErr, SmallVec};
use std::cmp::Ordering;
use crate::model::{
    deduped,
    equal_items,
    equal_keys,
    lexicographic,
    spliced,
    truncated,
    without_range,
};

verus! {

/// The number of items that an [`InlineVec`] holds without a heap
/// allocation.
pub const INLINE_CAPACITY: usize = 4;

/// A vector of `u64` items that holds up to [`INLINE_CAPACITY`] of them
/// inline.
#[verifier::external_body]
#[derive(Debug, Ord, Hash)]
pub struct InlineVec {
    inner: SmallVec<[u64; INLINE_CAPACITY]>,
}

/// `smallvec::CollectionAllocErr`, the error of the operations that may find
/// no room. It is handed on as it comes, and nothing is said of it.
#[verifier::external_type_specification]
#[verifier::external_body]
pub struct ExCollectionAllocErr(CollectionAllocErr);

/// The items that a small vector holds, in their order.
pub uninterp spec fn items_of(v: InlineVec) -> Seq<u64>;

/// Whether room for `n` items, of eight bytes each, is more than one
/// allocation can hold: more than `isize::MAX` bytes.
pub open spec fn exceeds_address_space(n: int) -> bool {
    n * 8 > isize::MAX
}

impl View for InlineVec {
    type V = Seq<u64>;

    open spec fn view(&self) -> Seq<u64> {
        items_of(*self)
    }
}

/// `SmallVec::new`: a vector that holds nothing.
#[verifier::external_body]
pub(crate) fn sv_new() -> (v: InlineVec)
    ensures
        items_of(v) == Seq::<u64>::empty(),
{
    InlineVec { inner: SmallVec::new() }
}

/// `SmallVec::with_capacity`: a vector that holds nothing, with room asked
/// for `n` items.
#[verifier::external_body]
pub(crate) fn sv_with_capacity(n: usize) -> (v: InlineVec)
    ensures
        items_of(v) == Seq::<u64>::empty(),
{
    InlineVec { inner: SmallVec::with_capacity(n) }
}

/// `SmallVec::from_vec`: the items of the vector, in the same order.
#[verifier::external_body]
pub(crate) fn sv_from_vec(vec: Vec<u64>) -> (v: InlineVec)
    ensures
        items_of(v) == vec@,
{
    InlineVec { inner: SmallVec::from_vec(vec) }
}

/// `SmallVec::from_buf`: the items of the buffer, all of them, in the same
/// order.
#[verifier::external_body]
pub(crate) fn sv_from_buf(buf: [u64; INLINE_CAPACITY]) -> (v: InlineVec)
    ensures
        items_of(v) == buf@,
{
    InlineVec { inner: SmallVec::from_buf(buf) }
}

/// `SmallVec::from_buf_and_len`: the first `len` items of the buffer. It
/// panics where `len` is more than the buffer holds.
#[verifier::external_body]
pub(crate) fn sv_from_buf_and_len(buf: [u64; INLINE_CAPACITY], len: usize) -> (v: InlineVec)
    requires
        len <= INLINE_CAPACITY,
    ensures
        items_of(v) == buf@.take(len as int),
{
    InlineVec { inner: SmallVec::from_buf_and_len(buf, len) }
}

/// `SmallVec::from_slice`: copies of the items of the slice, in the same
/// order.
#[verifier::external_body]
pub(crate) fn sv_from_slice(slice: &[u64]) -> (v: InlineVec)
    ensures
        items_of(v) == slice@,
{
    InlineVec { inner: SmallVec::from_slice(slice) }
}

/// `SmallVec::from_elem`: `n` copies of `elem`.
#[verifier::external_body]
pub(crate) fn sv_from_elem(elem: u64, n: usize) -> (v: InlineVec)
    ensures
        items_of(v) == Seq::new(n as nat, |i: int| elem),
{
    InlineVec { inner: SmallVec::from_elem(elem, n) }
}

/// `Clone::clone` of a `SmallVec`: the same items, in the same order.
#[verifier::external_body]
pub(crate) fn sv_clone(v: &InlineVec) -> (r: InlineVec)
    ensures
        items_of(r) == items_of(*v),
{
    InlineVec { inner: v.inner.clone() }
}

/// `PartialEq::eq` of two `SmallVec`s: whether they hold the same items in
/// the same order.
#[verifier::external_body]
pub(crate) fn sv_eq(a: &InlineVec, b: &InlineVec) -> (r: bool)
    ensures
        r == (items_of(*a) == items_of(*b)),
{
    a.inner == b.inner
}

/// `PartialOrd::partial_cmp` of two `SmallVec`s: how their items compare,
/// read from the front.
#[verifier::external_body]
pub(crate) fn sv_partial_cmp(a: &InlineVec, b: &InlineVec) -> (r: Option<Ordering>)
    ensures
        r == Some(lexicographic(items_of(*a), items_of(*b))),
{
    a.inner.partial_cmp(&b.inner)
}

/// `SmallVec::len`: the number of items held.
#[verifier::external_body]
pub(crate) fn sv_len(v: &InlineVec) -> (r: usize)
    ensures
        r == items_of(*v).len(),
{
    v.inner.len()
}

/// `SmallVec::is_empty`: whether nothing is held.
#[verifier::external_body]
pub(crate) fn sv_is_empty(v: &InlineVec) -> (r: bool)
    ensures
        r == (items_of(*v).len() == 0),
{
    v.inner.is_empty()
}

/// `SmallVec::capacity`: the number of items there is room for. It is never
/// less than the number held, nor than the inline capacity.
#[verifier::external_body]
pub(crate) fn sv_capacity(v: &InlineVec) -> (r: usize)
    ensures
        r >= items_of(*v).len(),
        r >= INLINE_CAPACITY,
{
    v.inner.capacity()
}

/// `SmallVec::spilled`: whether the items lie on the heap. They do where
/// there are more of them than the inline capacity.
#[verifier::external_body]
pub(crate) fn sv_spilled(v: &InlineVec) -> (r: bool)
    ensures
        items_of(*v).len() > INLINE_CAPACITY ==> r,
{
    v.inner.spilled()
}

/// `SmallVec::as_slice`: the items as a slice.
#[verifier::external_body]
pub(crate) fn sv_as_slice(v: &InlineVec) -> (r: &[u64])
    ensures
        r@ == items_of(*v),
{
    v.inner.as_slice()
}

/// `SmallVec::as_mut_slice`: the items as a slice to write through. What is
/// written is what the vector holds afterwards.
#[verifier::external_body]
pub(crate) fn sv_as_mut_slice(v: &mut InlineVec) -> (r: &mut [u64])
    ensures
        r@ == items_of(*old(v)),
        items_of(*final(v)) == final(r)@,
{
    v.inner.as_mut_slice()
}

/// `SmallVec::push`: appends an item.
#[verifier::external_body]
pub(crate) fn sv_push(v: &mut InlineVec, value: u64)
    ensures
        items_of(*final(v)) == items_of(*old(v)).push(value),
{
    v.inner.push(value)
}

/// `SmallVec::pop`: takes the last item off and hands it out, or hands out
/// `None` where nothing is held.
#[verifier::external_body]
pub(crate) fn sv_pop(v: &mut InlineVec) -> (r: Option<u64>)
    ensures
        items_of(*old(v)).len() == 0 ==> r is None && items_of(*final(v)) == items_of(*old(v)),
        items_of(*old(v)).len() > 0 ==> r == Some(items_of(*old(v)).last()) && items_of(*final(v)) == items_of(*old(v)).drop_last(),
{
    v.inner.pop()
}

/// `SmallVec::insert`: puts an item at `index`, moving what follows one
/// place to the back. It panics where `index` is past the end.
#[verifier::external_body]
pub(crate) fn sv_insert(v: &mut InlineVec, index: usize, element: u64)
    requires
        index <= items_of(*old(v)).len(),
    ensures
        items_of(*final(v)) == items_of(*old(v)).insert(index as int, element),
{
    v.inner.insert(index, element)
}

/// `SmallVec::insert_many`: puts what the iterator yields at `index`, moving
/// what follows to the back. It panics where `index` is past the end. The
/// items before `index` stay in front and the others at the back; where the
/// iterator keeps to the laws of `vstd`'s iterator model, what lies between
/// is the sequence that it has left to yield.
#[verifier::external_body]
pub(crate) fn sv_insert_many<I: Iterator<Item = u64>>(v: &mut InlineVec, index: usize, iter: I)
    requires
        index <= items_of(*old(v)).len(),
    ensures
        items_of(*old(v)).take(index as int).is_prefix_of(items_of(*final(v))),
        items_of(*old(v)).skip(index as int).is_suffix_of(items_of(*final(v))),
        items_of(*final(v)).len() >= items_of(*old(v)).len(),
        iter.obeys_prophetic_iter_laws() ==> items_of(*final(v)) == spliced(
            items_of(*old(v)),
            index as int,
            index as int,
            iter.remaining(),
        ),
{
    v.inner.insert_many(index, iter)
}

/// `SmallVec::insert_from_slice`: puts copies of the items of a slice at
/// `index`, moving what follows to the back. It panics where `index` is past
/// the end.
#[verifier::external_body]
pub(crate) fn sv_insert_from_slice(v: &mut InlineVec, index: usize, slice: &[u64])
    requires
        index <= items_of(*old(v)).len(),
    ensures
        items_of(*final(v)) == spliced(items_of(*old(v)), index as int, index as int, slice@),
{
    v.inner.insert_from_slice(index, slice)
}

/// `SmallVec::extend_from_slice`: appends copies of the items of a slice.
#[verifier::external_body]
pub(crate) fn sv_extend_from_slice(v: &mut InlineVec, slice: &[u64])
    ensures
        items_of(*final(v)) == items_of(*old(v)) + slice@,
{
    v.inner.extend_from_slice(slice)
}

/// `Extend::extend` of a `SmallVec`: appends what the iterator yields. The
/// items that were there stay in front; where the iterator keeps to the laws
/// of `vstd`'s iterator model, what follows them is the sequence that it has
/// left to yield.
#[verifier::external_body]
pub(crate) fn sv_extend<I: Iterator<Item = u64>>(v: &mut InlineVec, iter: I)
    ensures
        items_of(*old(v)).is_prefix_of(items_of(*final(v))),
        iter.obeys_prophetic_iter_laws() ==> items_of(*final(v)) == items_of(*old(v)) + iter.remaining(),
{
    v.inner.extend(iter)
}

/// `SmallVec::append`: moves all items of `other` to the end of the vector,
/// leaving `other` empty.
#[verifier::external_body]
pub(crate) fn sv_append(v: &mut InlineVec, other: &mut InlineVec)
    ensures
        items_of(*final(v)) == items_of(*old(v)) + items_of(*old(other)),
        items_of(*final(other)) == Seq::<u64>::empty(),
{
    v.inner.append(&mut other.inner)
}

/// `SmallVec::remove`: takes out the item at `index` and hands it out,
/// moving what follows one place to the front. It panics where `index` is
/// out of bounds.
#[verifier::external_body]
pub(crate) fn sv_remove(v: &mut InlineVec, index: usize) -> (r: u64)
    requires
        index < items_of(*old(v)).len(),
    ensures
        r == items_of(*old(v))[index as int],
        items_of(*final(v)) == items_of(*old(v)).remove(index as int),
{
    v.inner.remove(index)
}

/// `SmallVec::swap_remove`: takes out the item at `index` and hands it out,
/// putting the last item in its place. It panics where `index` is out of
/// bounds.
#[verifier::external_body]
pub(crate) fn sv_swap_remove(v: &mut InlineVec, index: usize) -> (r: u64)
    requires
        index < items_of(*old(v)).len(),
    ensures
        r == items_of(*old(v))[index as int],
        items_of(*final(v)) == items_of(*old(v)).update(index as int, items_of(*old(v)).last()).drop_last(),
{
    v.inner.swap_remove(index)
}

/// `SmallVec::truncate`: keeps the first `len` items and drops the rest;
/// where fewer are held, nothing changes.
#[verifier::external_body]
pub(crate) fn sv_truncate(v: &mut InlineVec, len: usize)
    ensures
        items_of(*final(v)) == truncated(items_of(*old(v)), len as int),
{
    v.inner.truncate(len)
}

/// `SmallVec::drain` over the indices from `first` up to, not including,
/// `past`, with what it yields gathered into a vector: the items of the range
/// are handed out in their order, and the others stay. It panics where the
/// range ends before it starts or reaches past the end.
#[verifier::external_body]
pub(crate) fn sv_drain(v: &mut InlineVec, first: usize, past: usize) -> (r: Vec<u64>)
    requires
        first <= past <= items_of(*old(v)).len(),
    ensures
        r@ == items_of(*old(v)).subrange(first as int, past as int),
        items_of(*final(v)) == without_range(items_of(*old(v)), first as int, past as int),
{
    v.inner.drain(first..past).collect()
}

/// `SmallVec::dedup`: of every run of neighbours that are equal, only the
/// first stays.
#[verifier::external_body]
pub(crate) fn sv_dedup(v: &mut InlineVec)
    ensures
        items_of(*final(v)) == deduped(items_of(*old(v)), equal_items::<u64>()),
{
    v.inner.dedup()
}

/// `SmallVec::dedup_by`: of every run of neighbours that `same_bucket`
/// relates, only the first stays. `same_bucket` is asked about an item and
/// the item kept last before it, in that order. The first item always stays.
#[verifier::external_body]
pub(crate) fn sv_dedup_by<F: Fn(&u64, &u64) -> bool>(v: &mut InlineVec, same_bucket: F)
    requires
        forall|a: &u64, b: &u64| call_requires(same_bucket, (a, b)),
    ensures
        items_of(*final(v)).len() <= items_of(*old(v)).len(),
        items_of(*old(v)).len() >= 1 ==> items_of(*final(v)).len() >= 1,
        forall|same: spec_fn(u64, u64) -> bool|
            (forall|a: &u64, b: &u64, r: bool|
                call_ensures(same_bucket, (a, b), r) ==> r == same(*a, *b)) ==> items_of(*final(v))
                == #[trigger] deduped(items_of(*old(v)), same),
{
    v.inner.dedup_by(|a, b| same_bucket(a, b))
}

/// `SmallVec::dedup_by_key`: of every run of neighbours with equal keys,
/// only the first stays. The first item always stays.
#[verifier::external_body]
pub(crate) fn sv_dedup_by_key<K: PartialEq, F: Fn(&u64) -> K>(v: &mut InlineVec, key: F)
    requires
        forall|a: &u64| call_requires(key, (a,)),
    ensures
        items_of(*final(v)).len() <= items_of(*old(v)).len(),
        items_of(*old(v)).len() >= 1 ==> items_of(*final(v)).len() >= 1,
        forall|key_of: spec_fn(u64) -> K|
            K::obeys_eq_spec() && (forall|a: &u64, k: K|
                call_ensures(key, (a,), k) ==> k == key_of(*a)) ==> items_of(*final(v))
                == #[trigger] deduped(items_of(*old(v)), equal_keys(key_of)),
{
    v.inner.dedup_by_key(|a| key(a))
}

/// `SmallVec::resize`: brings the vector to `len` items, dropping the items
/// past that length or appending copies of `value`.
#[verifier::external_body]
pub(crate) fn sv_resize(v: &mut InlineVec, len: usize, value: u64)
    ensures
        len <= items_of(*old(v)).len() ==> items_of(*final(v)) == items_of(*old(v)).take(len as int),
        len > items_of(*old(v)).len() ==> items_of(*final(v)) == items_of(*old(v)) + Seq::new(
            (len - items_of(*old(v)).len()) as nat,
            |i: int| value,
        ),
{
    v.inner.resize(len, value)
}

/// `SmallVec::resize_with`: brings the vector to `new_len` items, dropping
/// the items past that length or appending what `f` makes, call after call.
#[verifier::external_body]
pub(crate) fn sv_resize_with<F: FnMut() -> u64>(v: &mut InlineVec, new_len: usize, f: F)
    requires
        forall|unit: ()| call_requires(f, unit),
    ensures
        items_of(*final(v)).len() == new_len,
        new_len <= items_of(*old(v)).len() ==> items_of(*final(v)) == items_of(*old(v)).take(new_len as int),
        new_len > items_of(*old(v)).len() ==> items_of(*final(v)).take(items_of(*old(v)).len() as int) == items_of(*old(v)),
        forall|i: int|
            items_of(*old(v)).len() <= i < new_len ==> call_ensures(f, (), #[trigger] items_of(*final(v))[i]),
{
    v.inner.resize_with(new_len, f)
}

/// `SmallVec::reserve`: makes room and leaves the items as they are.
#[verifier::external_body]
pub(crate) fn sv_reserve(v: &mut InlineVec, additional: usize)
    ensures
        items_of(*final(v)) == items_of(*old(v)),
{
    v.inner.reserve(additional)
}

/// `SmallVec::try_reserve`: tries to make room and leaves the items as they
/// are, whether it succeeds or not. It succeeds at once where there is room
/// already, as there is where no room is asked for and where the items fit
/// inline with those to come. It fails where the room asked for is more than
/// one allocation can hold. Where it fails, the vector is as it was.
#[verifier::external_body]
pub(crate) fn sv_try_reserve(v: &mut InlineVec, additional: usize) -> (r: Result<
    (),
    CollectionAllocErr,
>)
    ensures
        items_of(*final(v)) == items_of(*old(v)),
        additional == 0 || items_of(*old(v)).len() + additional <= INLINE_CAPACITY ==> r is Ok,
        additional > 0 && exceeds_address_space(items_of(*old(v)).len() + additional) ==> r is Err,
        r is Err ==> *final(v) == *old(v),
{
    v.inner.try_reserve(additional)
}

/// `SmallVec::reserve_exact`: makes room and leaves the items as they are.
#[verifier::external_body]
pub(crate) fn sv_reserve_exact(v: &mut InlineVec, additional: usize)
    ensures
        items_of(*final(v)) == items_of(*old(v)),
{
    v.inner.reserve_exact(additional)
}

/// `SmallVec::try_reserve_exact`: tries to make room and leaves the items as
/// they are, whether it succeeds or not. It succeeds at once where there is
/// room already, as there is where no room is asked for and where the items
/// fit inline with those to come. It fails where the room asked for is more
/// than one allocation can hold. Where it fails, the vector is as it was.
#[verifier::external_body]
pub(crate) fn sv_try_reserve_exact(v: &mut InlineVec, additional: usize) -> (r: Result<
    (),
    CollectionAllocErr,
>)
    ensures
        items_of(*final(v)) == items_of(*old(v)),
        additional == 0 || items_of(*old(v)).len() + additional <= INLINE_CAPACITY ==> r is Ok,
        additional > 0 && exceeds_address_space(items_of(*old(v)).len() + additional) ==> r is Err,
        r is Err ==> *final(v) == *old(v),
{
    v.inner.try_reserve_exact(additional)
}

/// `SmallVec::shrink_to_fit`: gives room back and leaves the items as they
/// are.
#[verifier::external_body]
pub(crate) fn sv_shrink_to_fit(v: &mut InlineVec)
    ensures
        items_of(*final(v)) == items_of(*old(v)),
{
    v.inner.shrink_to_fit()
}

/// `SmallVec::grow`: changes the room and leaves the items as they are.
#[verifier::external_body]
pub(crate) fn sv_grow(v: &mut InlineVec, new_cap: usize)
    ensures
        items_of(*final(v)) == items_of(*old(v)),
{
    v.inner.grow(new_cap)
}

/// `SmallVec::try_grow`: tries to set the room to `new_cap` items, or to the
/// inline capacity where that is more, and leaves the items as they are,
/// whether it succeeds or not. It succeeds where `new_cap` is less than the
/// number of items held, which changes nothing, and where `new_cap` is no
/// more than the inline capacity, which takes no allocation. It fails where
/// `new_cap` is more than one allocation can hold. Where it fails, the vector
/// is as it was.
#[verifier::external_body]
pub(crate) fn sv_try_grow(v: &mut InlineVec, new_cap: usize) -> (r: Result<(), CollectionAllocErr>)
    ensures
        items_of(*final(v)) == items_of(*old(v)),
        new_cap < items_of(*old(v)).len() || new_cap <= INLINE_CAPACITY ==> r is Ok,
        new_cap >= items_of(*old(v)).len() && exceeds_address_space(new_cap as int) ==> r is Err,
        r is Err ==> *final(v) == *old(v),
{
    v.inner.try_grow(new_cap)
}

/// `SmallVec::into_vec`: the same items, in the same order, as a vector.
#[verifier::external_body]
pub(crate) fn sv_into_vec(v: InlineVec) -> (r: Vec<u64>)
    ensures
        r@ == items_of(v),
{
    v.inner.into_vec()
}

/// `SmallVec::into_boxed_slice`: the same items, in the same order, as a
/// boxed slice.
#[verifier::external_body]
pub(crate) fn sv_into_boxed_slice(v: InlineVec) -> (r: Box<[u64]>)
    ensures
        r@ == items_of(v),
{
    v.inner.into_boxed_slice()
}

/// `SmallVec::into_inner`: the inline buffer, where the items fill it
/// exactly and lie in it; else the vector itself, handed back. A vector
/// that holds fewer or more items than the buffer always comes back.
#[verifier::external_body]
pub(crate) fn sv_into_inner(v: InlineVec) -> (r: Result<[u64; INLINE_CAPACITY], InlineVec>)
    ensures
        r matches Ok(buf) ==> buf@ == items_of(v),
        r matches Err(back) ==> back == v,
        items_of(v).len() != INLINE_CAPACITY ==> r is Err,
{
    match v.inner.into_inner() {
        Ok(buf) => Ok(buf),
        Err(inner) => Err(InlineVec { inner }),
    }
}

impl InlineVec {
    /// A vector that holds nothing.
    pub fn new() -> (r: InlineVec)
        ensures
            r@ == Seq::<u64>::empty(),
    {
        sv_new()
    }

    /// The items of a vector, in the same order.
    pub fn from_vec(vec: Vec<u64>) -> (r: InlineVec)
        ensures
            r@ == vec@,
    {
        sv_from_vec(vec)
    }

    /// The items as a vector, in the same order.
    pub fn into_vec(self) -> (r: Vec<u64>)
        ensures
            r@ == self@,
    {
        sv_into_vec(self)
    }

    /// The items as a slice.
    pub fn as_slice(&self) -> (r: &[u64])
        ensures
            r@ == self@,
    {
        sv_as_slice(self)
    }

    /// The number of items held.
    pub fn len(&self) -> (r: usize)
        ensures
            r == self@.len(),
    {
        sv_len(self)
    }

    /// Whether nothing is held.
    pub fn is_empty(&self) -> (r: bool)
        ensures
            r == (self@.len() == 0),
    {
        sv_is_empty(self)
    }
}

impl Clone for InlineVec {
    fn clone(&self) -> (r: InlineVec)
        ensures
            r@ == self@,
    {
        sv_clone(self)
    }
}

impl PartialEq for InlineVec {
    fn eq(&self, other: &InlineVec) -> (r: bool)
    {
        sv_eq(self, other)
    }
}

impl PartialEqSpecImpl for InlineVec {
    open spec fn obeys_eq_spec() -> bool {
        true
    }

    open spec fn eq_spec(&self, other: &InlineVec) -> bool {
        self@ == other@
    }
}

impl Eq for InlineVec {

}

impl PartialOrd for InlineVec {
    fn partial_cmp(&self, other: &InlineVec) -> (r: Option<Ordering>)
    {
        sv_partial_cmp(self, other)
    }
}

impl PartialOrdSpecImpl for InlineVec {
    open spec fn obeys_partial_cmp_spec() -> bool {
        true
    }

    open spec fn partial_cmp_spec(&self, other: &InlineVec) -> Option<Ordering> {
        Some(lexicographic(self@, other@))
    }
}

} // verus!
