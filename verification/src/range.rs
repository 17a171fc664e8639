//! Index ranges given by a pair of bounds.
//!
//! A range of indices is written as the pair of its start bound and its end
//! bound, each of them included, excluded or absent.

use vstd::prelude::*;

verus! {

/// One end of a range of indices.
#[derive(Clone, Copy, Debug, PartialEq, Eq, Structural, Hash)]
pub enum Bound {
    /// The range reaches this index and holds it.
    Included(usize),
    /// The range reaches this index and does not hold it.
    Excluded(usize),
    /// The range reaches as far as the collection does.
    Unbounded,
}

/// Whether the start bound lets `item` into the range.
pub open spec fn admits_from(start: Bound, item: int) -> bool {
    match start {
        Bound::Included(s) => s <= item,
        Bound::Excluded(s) => s < item,
        Bound::Unbounded => true,
    }
}

/// Whether the end bound lets `item` into the range.
pub open spec fn admits_to(end: Bound, item: int) -> bool {
    match end {
        Bound::Included(e) => item <= e,
        Bound::Excluded(e) => item < e,
        Bound::Unbounded => true,
    }
}

/// Whether `item` lies in the range from `start` to `end`.
pub open spec fn range_contains(start: Bound, end: Bound, item: int) -> bool {
    admits_from(start, item) && admits_to(end, item)
}

/// Whether the range holds both the first and the last index of a collection
/// of `len` items.
pub open spec fn covers_all(start: Bound, end: Bound, len: int) -> bool {
    range_contains(start, end, 0) && range_contains(start, end, len - 1)
}

/// The first index of the range.
pub open spec fn first_index(start: Bound) -> int {
    match start {
        Bound::Included(s) => s as int,
        Bound::Excluded(s) => s + 1,
        Bound::Unbounded => 0,
    }
}

/// One past the last index of the range, in a collection of `len` items.
pub open spec fn past_index(end: Bound, len: int) -> int {
    match end {
        Bound::Included(e) => e + 1,
        Bound::Excluded(e) => e as int,
        Bound::Unbounded => len,
    }
}

/// Whether the range is a well-formed sub-range of a collection of `len`
/// items: it does not end before it starts and does not reach past the end.
pub open spec fn in_bounds(start: Bound, end: Bound, len: int) -> bool {
    first_index(start) <= past_index(end, len) <= len
}

/// Tells whether `item` lies in the range.
pub fn contains(start: &Bound, end: &Bound, item: usize) -> (r: bool)
    ensures
        r == range_contains(*start, *end, item as int),
{
    let from = match start {
        Bound::Included(s) => *s <= item,
        Bound::Excluded(s) => *s < item,
        Bound::Unbounded => true,
    };
    let to = match end {
        Bound::Included(e) => item <= *e,
        Bound::Excluded(e) => item < *e,
        Bound::Unbounded => true,
    };
    from && to
}

/// Turns a range that is in bounds into its first index and the index one
/// past its last.
pub fn resolve(start: &Bound, end: &Bound, len: usize) -> (r: (usize, usize))
    requires
        in_bounds(*start, *end, len as int),
    ensures
        r.0 == first_index(*start),
        r.1 == past_index(*end, len as int),
        r.0 <= r.1 <= len,
{
    let first = match start {
        Bound::Included(s) => *s,
        Bound::Excluded(s) => *s + 1,
        Bound::Unbounded => 0,
    };
    let past = match end {
        Bound::Included(e) => *e + 1,
        Bound::Excluded(e) => *e,
        Bound::Unbounded => len,
    };
    (first, past)
}

/// A range in bounds that does not hold both ends of a non-empty collection
/// leaves at least one item outside it.
pub proof fn lemma_partial_range_leaves_items(start: Bound, end: Bound, len: int)
    requires
        len >= 1,
        in_bounds(start, end, len),
        !covers_all(start, end, len),
    ensures
        past_index(end, len) - first_index(start) < len,
{
}

/// A range in bounds that takes in every index of a non-empty collection holds
/// both of its ends.
pub proof fn lemma_full_range_covers_all(start: Bound, end: Bound, len: int)
    requires
        len >= 1,
        first_index(start) == 0,
        past_index(end, len) == len,
    ensures
        covers_all(start, end, len),
{
}

} // verus!
