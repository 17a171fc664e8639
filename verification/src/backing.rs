//! Contracts for the operations of `Vec` that the collections hand on and
//! that `vstd` does not specify.
//!
//! Each function here makes one call into the standard library, and its
//! contract is believed, not proved. As in `vstd`'s own contracts for `Vec`,
//! running out of memory or of address space is not modelled.

use vstd::prelude::*;
use vstd::std_specs::cmp::PartialEqSpec;
use vstd::std_specs::iter::IteratorSpec;
use std::collections::TryReserveError;
use crate::model::{deduped, equal_items, equal_keys};

verus! {

/// `Vec::capacity`: the number of items the vector has room for, which is
/// never less than the number it holds.
#[verifier::external_body]
pub(crate) fn vec_capacity<T>(v: &Vec<T>) -> (c: usize)
    ensures
        c >= v@.len(),
{
    v.capacity()
}

/// `Vec::reserve_exact`: makes room and leaves the items as they are.
#[verifier::external_body]
pub(crate) fn vec_reserve_exact<T>(v: &mut Vec<T>, additional: usize)
    ensures
        final(v)@ == old(v)@,
{
    v.reserve_exact(additional)
}

/// `Vec::try_reserve_exact`: tries to make room and leaves the items as they
/// are, whether it succeeds or not. It does nothing, and succeeds, where no
/// room is asked for. It fails where the number of items to make room for
/// does not fit in a `usize`.
#[verifier::external_body]
pub(crate) fn vec_try_reserve_exact<T>(v: &mut Vec<T>, additional: usize) -> (r: Result<
    (),
    TryReserveError,
>)
    ensures
        final(v)@ == old(v)@,
        additional == 0 ==> r is Ok,
        old(v)@.len() + additional > usize::MAX ==> r is Err,
{
    v.try_reserve_exact(additional)
}

/// `Vec::shrink_to_fit`: gives room back and leaves the items as they are.
#[verifier::external_body]
pub(crate) fn vec_shrink_to_fit<T>(v: &mut Vec<T>)
    ensures
        final(v)@ == old(v)@,
{
    v.shrink_to_fit()
}

/// `Vec::shrink_to`: gives room back, down to a lower bound, and leaves the
/// items as they are.
#[verifier::external_body]
pub(crate) fn vec_shrink_to<T>(v: &mut Vec<T>, min_capacity: usize)
    ensures
        final(v)@ == old(v)@,
{
    v.shrink_to(min_capacity)
}

/// `Vec::into_boxed_slice`: the same items, in the same order, as a boxed
/// slice.
#[verifier::external_body]
pub(crate) fn vec_into_boxed_slice<T>(v: Vec<T>) -> (b: Box<[T]>)
    ensures
        b@ == v@,
{
    v.into_boxed_slice()
}

/// `Vec::from` on an array: the items of the array, in the same order.
#[verifier::external_body]
pub(crate) fn vec_from_array<T, const N: usize>(arr: [T; N]) -> (v: Vec<T>)
    ensures
        v@ == arr@,
{
    Vec::from(arr)
}

/// `TryFrom<Vec<T>>` for an array: the items of the vector as an array, where
/// there are exactly as many as the array holds; else the vector itself,
/// handed back.
#[verifier::external_body]
pub(crate) fn vec_try_into_array<T, const N: usize>(v: Vec<T>) -> (r: Result<[T; N], Vec<T>>)
    ensures
        r is Ok <==> v@.len() == N,
        r matches Ok(arr) ==> arr@ == v@,
        r matches Err(back) ==> back == v,
{
    v.try_into()
}

/// `Vec::leak`: the items of the vector, in the same order, as a slice that
/// is never freed.
#[verifier::external_body]
pub(crate) fn vec_leak<'a, T>(v: Vec<T>) -> (s: &'a mut [T])
    ensures
        s@ == v@,
{
    v.leak()
}

/// `Vec::extend`: appends what the iterator yields. The items that were there
/// stay in front; where the iterator keeps to the laws of `vstd`'s iterator
/// model, what follows them is the sequence that it has left to yield.
#[verifier::external_body]
pub(crate) fn vec_extend<T, I: Iterator<Item = T>>(v: &mut Vec<T>, iter: I)
    ensures
        old(v)@.is_prefix_of(final(v)@),
        iter.obeys_prophetic_iter_laws() ==> final(v)@ == old(v)@ + iter.remaining(),
{
    v.extend(iter)
}

/// `Vec::dedup`: of every run of neighbours that are equal, only the first
/// stays. The first item of the vector always stays.
#[verifier::external_body]
pub(crate) fn vec_dedup<T: PartialEq>(v: &mut Vec<T>)
    ensures
        final(v)@.len() <= old(v)@.len(),
        old(v)@.len() >= 1 ==> final(v)@.len() >= 1,
        T::obeys_eq_spec() ==> final(v)@ == deduped(old(v)@, equal_items::<T>()),
{
    v.dedup()
}

/// `Vec::dedup_by`: of every run of neighbours that `same_bucket` relates,
/// only the first stays. `same_bucket` is asked about an item and the item
/// kept last before it, in that order. The first item of the vector always
/// stays.
#[verifier::external_body]
pub(crate) fn vec_dedup_by<T, F: Fn(&T, &T) -> bool>(v: &mut Vec<T>, same_bucket: F)
    requires
        forall|a: &T, b: &T| call_requires(same_bucket, (a, b)),
    ensures
        final(v)@.len() <= old(v)@.len(),
        old(v)@.len() >= 1 ==> final(v)@.len() >= 1,
        forall|same: spec_fn(T, T) -> bool|
            (forall|a: &T, b: &T, r: bool|
                call_ensures(same_bucket, (a, b), r) ==> r == same(*a, *b)) ==> final(v)@
                == #[trigger] deduped(old(v)@, same),
{
    v.dedup_by(|a, b| same_bucket(a, b))
}

/// `Vec::dedup_by_key`: of every run of neighbours with equal keys, only the
/// first stays. The first item of the vector always stays.
#[verifier::external_body]
pub(crate) fn vec_dedup_by_key<T, K: PartialEq, F: Fn(&T) -> K>(v: &mut Vec<T>, key: F)
    requires
        forall|a: &T| call_requires(key, (a,)),
    ensures
        final(v)@.len() <= old(v)@.len(),
        old(v)@.len() >= 1 ==> final(v)@.len() >= 1,
        forall|key_of: spec_fn(T) -> K|
            K::obeys_eq_spec() && (forall|a: &T, k: K|
                call_ensures(key, (a,), k) ==> k == key_of(*a)) ==> final(v)@
                == #[trigger] deduped(old(v)@, equal_keys(key_of)),
{
    v.dedup_by_key(|a| key(a))
}

} // verus!
