//! What the operations do, written over sequences.
//!
//! The contracts of the collections are stated with these functions, and the
//! laws of the library are proved of them.

use vstd::prelude::*;
use vstd::std_specs::cmp::PartialEqSpec;
use std::cmp::Ordering;
use crate::range::{covers_all, first_index, in_bounds, past_index, Bound};

verus! {

/// What a guarded pop hands out: the last item, unless it is the only one.
pub open spec fn popped<T>(s: Seq<T>) -> Option<T> {
    if s.len() <= 1 {
        None
    } else {
        Some(s.last())
    }
}

/// What a guarded pop leaves behind.
pub open spec fn after_pop<T>(s: Seq<T>) -> Seq<T> {
    if s.len() <= 1 {
        s
    } else {
        s.drop_last()
    }
}

/// What a guarded removal at `index` hands out: the item there, unless the
/// collection holds a single item.
pub open spec fn removed<T>(s: Seq<T>, index: int) -> Option<T> {
    if s.len() <= 1 {
        None
    } else {
        Some(s[index])
    }
}

/// What a guarded removal at `index` leaves behind: the later items move one
/// place to the front.
pub open spec fn after_remove<T>(s: Seq<T>, index: int) -> Seq<T> {
    if s.len() <= 1 {
        s
    } else {
        s.remove(index)
    }
}

/// What a guarded swap-removal at `index` leaves behind: the last item takes
/// the place of the one removed.
pub open spec fn after_swap_remove<T>(s: Seq<T>, index: int) -> Seq<T> {
    if s.len() <= 1 {
        s
    } else {
        s.update(index, s.last()).drop_last()
    }
}

/// What a guarded drain hands out: the items of the range, unless the range
/// holds both ends of the collection.
pub open spec fn drained<T>(s: Seq<T>, start: Bound, end: Bound) -> Option<Seq<T>> {
    if covers_all(start, end, s.len() as int) {
        None
    } else {
        Some(s.subrange(first_index(start), past_index(end, s.len() as int)))
    }
}

/// What a guarded drain leaves behind: the items before and after the range.
pub open spec fn after_drain<T>(s: Seq<T>, start: Bound, end: Bound) -> Seq<T> {
    if covers_all(start, end, s.len() as int) {
        s
    } else {
        without_range(s, first_index(start), past_index(end, s.len() as int))
    }
}

/// The sequence without the items from index `first` up to, not including,
/// index `past`.
pub open spec fn without_range<T>(s: Seq<T>, first: int, past: int) -> Seq<T> {
    s.subrange(0, first) + s.subrange(past, s.len() as int)
}

/// The sequence with the items from index `first` up to, not including, index
/// `past` replaced by `with`.
pub open spec fn spliced<T>(s: Seq<T>, first: int, past: int, with: Seq<T>) -> Seq<T> {
    s.subrange(0, first) + with + s.subrange(past, s.len() as int)
}

/// The first `len` items, or all of them where there are fewer.
pub open spec fn truncated<T>(s: Seq<T>, len: int) -> Seq<T> {
    if len <= s.len() {
        s.take(len)
    } else {
        s
    }
}

/// `n` copies of the sequence, one after the other.
pub open spec fn repeated<T>(s: Seq<T>, n: nat) -> Seq<T>
    decreases n,
{
    if n == 0 {
        Seq::empty()
    } else {
        repeated(s, (n - 1) as nat) + s
    }
}

/// `n` copies of a sequence of `L` items hold `n * L` items.
pub proof fn lemma_repeated_len<T>(s: Seq<T>, n: nat)
    ensures
        repeated(s, n).len() == n * s.len(),
    decreases n,
{
    if n == 0 {
        assert(repeated(s, n).len() == 0);
        assert(n * s.len() == 0) by (nonlinear_arith)
            requires
                n == 0,
        ;
    } else {
        lemma_repeated_len(s, (n - 1) as nat);
        assert(repeated(s, n).len() == repeated(s, (n - 1) as nat).len() + s.len());
        assert(n * s.len() == (n - 1) * s.len() + s.len()) by (nonlinear_arith);
    }
}

/// The sequence with every run of neighbours that `same` relates reduced to
/// its first item. An item is dropped when `same` relates it to the item kept
/// last before it.
pub open spec fn deduped<T>(s: Seq<T>, same: spec_fn(T, T) -> bool) -> Seq<T>
    decreases s.len(),
{
    if s.len() <= 1 {
        s
    } else {
        let kept = deduped(s.drop_last(), same);
        if same(s.last(), kept.last()) {
            kept
        } else {
            kept.push(s.last())
        }
    }
}

/// Reducing runs keeps the first item where it is, and never adds an item.
pub proof fn lemma_deduped_keeps_first<T>(s: Seq<T>, same: spec_fn(T, T) -> bool)
    requires
        s.len() >= 1,
    ensures
        1 <= deduped(s, same).len() <= s.len(),
        deduped(s, same).first() == s.first(),
    decreases s.len(),
{
    if s.len() > 1 {
        lemma_deduped_keeps_first(s.drop_last(), same);
    }
}

/// The relation that `==` stands for on `T`.
pub open spec fn equal_items<T: PartialEq>() -> spec_fn(T, T) -> bool {
    |a: T, b: T| a.eq_spec(&b)
}

/// The relation between two items whose keys are equal.
pub open spec fn equal_keys<T, K: PartialEq>(key_of: spec_fn(T) -> K) -> spec_fn(T, T) -> bool {
    |a: T, b: T| key_of(a).eq_spec(&key_of(b))
}

/// How two sequences of numbers compare when they are read from the front:
/// the first place where they differ decides, and where there is none, the
/// shorter sequence comes first.
pub open spec fn lexicographic(a: Seq<u64>, b: Seq<u64>) -> Ordering
    decreases a.len(),
{
    if a.len() == 0 && b.len() == 0 {
        Ordering::Equal
    } else if a.len() == 0 {
        Ordering::Less
    } else if b.len() == 0 {
        Ordering::Greater
    } else if a.first() < b.first() {
        Ordering::Less
    } else if a.first() > b.first() {
        Ordering::Greater
    } else {
        lexicographic(a.drop_first(), b.drop_first())
    }
}

/// A change that the safe operations of an owned collection can make to
/// what it holds.
#[verifier::reject_recursive_types(T)]
pub enum Change<T> {
    /// An item is appended.
    Push(T),
    /// An item is put at an index.
    Insert(int, T),
    /// Items are appended.
    Extend(Seq<T>),
    /// The last item is taken off, under guard.
    Pop,
    /// The item at an index is taken out, under guard.
    Remove(int),
    /// The item at an index is taken out and the last put in its place, under
    /// guard.
    SwapRemove(int),
    /// The items past a length are dropped.
    Truncate(int),
    /// The items from an index on are moved out.
    SplitOff(int),
    /// The items of a range are taken out, under guard.
    Drain(Bound, Bound),
    /// Runs of related neighbours are reduced to their first item.
    Dedup(spec_fn(T, T) -> bool),
}

impl<T> Change<T> {
    /// Whether the operation accepts the change on a collection that holds
    /// `s`.
    pub open spec fn admitted(self, s: Seq<T>) -> bool {
        match self {
            Change::Push(_) => true,
            Change::Insert(index, _) => 0 <= index <= s.len(),
            Change::Extend(_) => true,
            Change::Pop => true,
            Change::Remove(index) => s.len() == 1 || 0 <= index < s.len(),
            Change::SwapRemove(index) => s.len() == 1 || 0 <= index < s.len(),
            Change::Truncate(len) => len >= 1,
            Change::SplitOff(at) => 1 <= at <= s.len(),
            Change::Drain(start, end) => covers_all(start, end, s.len() as int) || in_bounds(
                start,
                end,
                s.len() as int,
            ),
            Change::Dedup(_) => true,
        }
    }

    /// What the collection holds after the change.
    pub open spec fn apply(self, s: Seq<T>) -> Seq<T> {
        match self {
            Change::Push(item) => s.push(item),
            Change::Insert(index, item) => s.insert(index, item),
            Change::Extend(items) => s + items,
            Change::Pop => after_pop(s),
            Change::Remove(index) => after_remove(s, index),
            Change::SwapRemove(index) => after_swap_remove(s, index),
            Change::Truncate(len) => truncated(s, len),
            Change::SplitOff(at) => s.subrange(0, at),
            Change::Drain(start, end) => after_drain(s, start, end),
            Change::Dedup(same) => deduped(s, same),
        }
    }
}

/// Whether each change of `changes` is admitted when its turn comes, starting
/// from a collection that holds `s`.
pub open spec fn all_admitted<T>(s: Seq<T>, changes: Seq<Change<T>>) -> bool
    decreases changes.len(),
{
    if changes.len() == 0 {
        true
    } else {
        changes.first().admitted(s) && all_admitted(
            changes.first().apply(s),
            changes.drop_first(),
        )
    }
}

/// What a collection that holds `s` holds after the first `steps` changes of
/// `changes`.
pub open spec fn apply_first<T>(s: Seq<T>, changes: Seq<Change<T>>, steps: nat) -> Seq<T>
    decreases steps,
{
    if steps == 0 || changes.len() == 0 {
        s
    } else {
        apply_first(changes.first().apply(s), changes.drop_first(), (steps - 1) as nat)
    }
}

} // verus!
