//! What holds of the collections whatever they are given.

use vstd::prelude::*;
use crate::model::{
    after_drain,
    after_pop,
    after_remove,
    after_swap_remove,
    all_admitted,
    apply_first,
    deduped,
    drained,
    lemma_deduped_keeps_first,
    lemma_repeated_len,
    popped,
    removed,
    repeated,
    without_range,
    Change,
};
use crate::non_empty_slice::{NonEmptyBoxedSlice, NonEmptySlice};
use crate::inline_vec::InlineVec;
use crate::non_empty_smallvec::NonEmptySmallVec;
use crate::non_empty_vec::NonEmptyVec;
use crate::range::{
    covers_all,
    first_index,
    in_bounds,
    lemma_full_range_covers_all,
    lemma_partial_range_leaves_items,
    past_index,
    Bound,
};

verus! {

/// A vector that holds an item is always taken over, and what comes back
/// when the guarantee is given up again is equal to it.
pub proof fn law_vec_round_trip<T>(
    c: Vec<T>,
    taken: Result<NonEmptyVec<T>, Vec<T>>,
    back: Vec<T>,
)
    requires
        c@.len() >= 1,
        call_ensures(NonEmptyVec::<T>::try_from_vec, (c,), taken),
        taken matches Ok(v) ==> call_ensures(NonEmptyVec::<T>::to_vec, (v,), back),
    ensures
        taken is Ok,
        back == c,
{
    NonEmptyVec::<T>::lemma_backing_vec(c);
}

/// A slice that holds an item is always taken as a view, and the slice behind
/// the view is equal to it.
pub proof fn law_slice_round_trip<'a, T>(
    c: &'a [T],
    taken: Result<NonEmptySlice<'a, T>, &'a [T]>,
    back: &'a [T],
)
    requires
        c@.len() >= 1,
        call_ensures(NonEmptySlice::<'a, T>::try_from_slice, (c,), taken),
        taken matches Ok(s) ==> call_ensures(NonEmptySlice::<'a, T>::get_slice, (&s,), back),
    ensures
        taken is Ok,
        back@ == c@,
{
}

/// A small vector that holds an item is always taken over, and what comes
/// back when the guarantee is given up again is equal to it.
pub proof fn law_smallvec_round_trip(
    c: InlineVec,
    taken: Result<NonEmptySmallVec, InlineVec>,
    back: InlineVec,
)
    requires
        c@.len() >= 1,
        call_ensures(NonEmptySmallVec::try_from_smallvec, (c,), taken),
        taken matches Ok(v) ==> call_ensures(NonEmptySmallVec::into_smallvec, (v,), back),
    ensures
        taken is Ok,
        back == c,
{
    NonEmptySmallVec::lemma_backing_smallvec(c);
}

/// A vector that holds nothing is never taken over: it comes back as it was.
pub proof fn law_empty_vec_is_handed_back<T>(c: Vec<T>, taken: Result<NonEmptyVec<T>, Vec<T>>)
    requires
        c@.len() == 0,
        call_ensures(NonEmptyVec::<T>::try_from_vec, (c,), taken),
    ensures
        taken == Err::<NonEmptyVec<T>, Vec<T>>(c),
{
}

/// A slice that holds nothing is never taken as a view: it comes back as it
/// was.
pub proof fn law_empty_slice_is_handed_back<'a, T>(
    c: &'a [T],
    taken: Result<NonEmptySlice<'a, T>, &'a [T]>,
)
    requires
        c@.len() == 0,
        call_ensures(NonEmptySlice::<'a, T>::try_from_slice, (c,), taken),
    ensures
        taken == Err::<NonEmptySlice<'a, T>, &'a [T]>(c),
{
}

/// A small vector that holds nothing is never taken over: it comes back as
/// it was.
pub proof fn law_empty_smallvec_is_handed_back(
    c: InlineVec,
    taken: Result<NonEmptySmallVec, InlineVec>,
)
    requires
        c@.len() == 0,
        call_ensures(NonEmptySmallVec::try_from_smallvec, (c,), taken),
    ensures
        taken == Err::<NonEmptySmallVec, InlineVec>(c),
{
}

/// No admitted change empties a collection that holds an item.
pub proof fn law_change_keeps_an_item<T>(s: Seq<T>, change: Change<T>)
    requires
        s.len() >= 1,
        change.admitted(s),
    ensures
        change.apply(s).len() >= 1,
{
    match change {
        Change::Drain(start, end) => {
            if !covers_all(start, end, s.len() as int) {
                lemma_partial_range_leaves_items(start, end, s.len() as int);
            }
        },
        Change::Dedup(same) => {
            lemma_deduped_keeps_first(s, same);
        },
        _ => {},
    }
}

/// After every step of a run of admitted changes, a collection that held an
/// item at the start holds one still.
pub proof fn law_changes_keep_an_item<T>(s: Seq<T>, changes: Seq<Change<T>>, steps: nat)
    requires
        s.len() >= 1,
        all_admitted(s, changes),
    ensures
        apply_first(s, changes, steps).len() >= 1,
    decreases steps,
{
    if steps > 0 && changes.len() > 0 {
        law_change_keeps_an_item(s, changes.first());
        law_changes_keep_an_item(
            changes.first().apply(s),
            changes.drop_first(),
            (steps - 1) as nat,
        );
    }
}

/// On a collection of a single item the guarded removals hand out nothing
/// and change nothing, whatever the index.
pub proof fn law_single_item_stays<T>(s: Seq<T>, index: int)
    requires
        s.len() == 1,
    ensures
        popped(s) is None,
        after_pop(s) == s,
        removed(s, index) is None,
        after_remove(s, index) == s,
        after_swap_remove(s, index) == s,
{
}

/// A drain of the full range hands out nothing and changes nothing.
pub proof fn law_full_drain_is_refused<T>(s: Seq<T>, start: Bound, end: Bound)
    requires
        s.len() >= 1,
        first_index(start) == 0,
        past_index(end, s.len() as int) == s.len(),
    ensures
        drained(s, start, end) is None,
        after_drain(s, start, end) == s,
{
    lemma_full_range_covers_all(start, end, s.len() as int);
}

/// A drain of a range that is in bounds and leaves out an index hands out
/// the items of that range, takes out those and no others, and leaves an
/// item behind.
pub proof fn law_partial_drain_takes_the_range<T>(
    s: Seq<T>,
    start: Bound,
    end: Bound,
)
    requires
        s.len() >= 1,
        in_bounds(start, end, s.len() as int),
        first_index(start) > 0 || past_index(end, s.len() as int) < s.len(),
    ensures
        drained(s, start, end) == Some(
            s.subrange(first_index(start), past_index(end, s.len() as int)),
        ),
        after_drain(s, start, end) == without_range(
            s,
            first_index(start),
            past_index(end, s.len() as int),
        ),
        after_drain(s, start, end).len() == s.len() - (past_index(end, s.len() as int)
            - first_index(start)),
        after_drain(s, start, end).len() >= 1,
        forall|i: int|
            0 <= i < first_index(start) ==> #[trigger] after_drain(s, start, end)[i] == s[i],
        forall|i: int|
            first_index(start) <= i < after_drain(s, start, end).len() ==> #[trigger] after_drain(
                s,
                start,
                end,
            )[i] == s[i + (past_index(end, s.len() as int) - first_index(start))],
{
}

/// `n` copies of a sequence of `L` items hold `n * L` items, and the item at
/// index `i` is the item of the sequence at index `i % L`.
pub proof fn law_repeated_is_copies<T>(s: Seq<T>, n: nat)
    requires
        s.len() >= 1,
    ensures
        repeated(s, n).len() == n * s.len(),
        n >= 1 ==> repeated(s, n).len() >= 1,
        forall|i: int|
            0 <= i < repeated(s, n).len() ==> #[trigger] repeated(s, n)[i] == s[i % (
            s.len() as int)],
    decreases n,
{
    lemma_repeated_len(s, n);
    if n > 0 {
        let before = repeated(s, (n - 1) as nat);
        law_repeated_is_copies(s, (n - 1) as nat);
        lemma_repeated_len(s, (n - 1) as nat);
        let len = s.len() as int;
        assert(n * s.len() >= 1) by (nonlinear_arith)
            requires
                n >= 1,
                s.len() >= 1,
        ;
        assert forall|i: int| 0 <= i < repeated(s, n).len() implies #[trigger] repeated(s, n)[i]
            == s[i % len] by {
            if i >= before.len() {
                let k = i - before.len();
                assert(repeated(s, n)[i] == s[k]);
                assert(i % len == k) by (nonlinear_arith)
                    requires
                        i == (n - 1) * len + k,
                        0 <= k < len,
                        n >= 1,
                ;
            }
        }
    }
}

/// A vector turned into a boxed slice and back holds what it held.
pub proof fn law_boxed_round_trip<T>(
    v: NonEmptyVec<T>,
    boxed: NonEmptyBoxedSlice<T>,
    back: NonEmptyVec<T>,
)
    requires
        v.wf(),
        call_ensures(NonEmptyVec::<T>::into_boxed_slice, (v,), boxed),
        call_ensures(NonEmptyBoxedSlice::<T>::into_vec, (boxed,), back),
    ensures
        back.wf(),
        back@ == v@,
{
}

} // verus!
