//! A `usize` that is known not to be zero.

use vstd::prelude::*;

verus! {

/// A `usize` that is never zero.
///
/// Lengths and capacities of non-empty collections are handed out as this type,
/// and operations that must not empty a collection take their index or target
/// length as this type, so that the zero case is excluded by construction.
#[derive(Clone, Copy, Debug, PartialEq, Eq, Structural, PartialOrd, Ord, Hash)]
pub struct PositiveUsize {
    value: usize,
}

impl PositiveUsize {
    #[verifier::type_invariant]
    spec fn is_positive(&self) -> bool {
        self.value > 0
    }

    /// The number this value stands for.
    pub closed spec fn spec_get(&self) -> usize {
        self.value
    }

    /// Wraps `n`, or returns `None` when `n` is zero.
    pub fn new(n: usize) -> (r: Option<PositiveUsize>)
        ensures
            n == 0 ==> r is None,
            n > 0 ==> (r matches Some(p) && p.spec_get() == n),
    {
        if n == 0 {
            None
        } else {
            Some(PositiveUsize { value: n })
        }
    }

    /// Wraps a number that the caller has shown to be positive.
    pub fn new_unchecked(n: usize) -> (r: PositiveUsize)
        requires
            n > 0,
        ensures
            r.spec_get() == n,
    {
        PositiveUsize { value: n }
    }

    /// The wrapped number, which is at least one.
    #[verifier::when_used_as_spec(spec_get)]
    pub fn get(&self) -> (r: usize)
        ensures
            r == self.spec_get(),
            r > 0,
    {
        proof {
            use_type_invariant(self);
        }
        self.value
    }
}

} // verus!
