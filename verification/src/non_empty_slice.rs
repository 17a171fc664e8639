//! Borrowed and boxed views of at least one item.

use vstd::prelude::*;
use vstd::slice::slice_subrange;
use crate::model::{lemma_repeated_len, repeated};
use crate::non_empty_vec::NonEmptyVec;
use crate::positive::PositiveUsize;

verus! {

/// A borrowed run of items that is never empty.
///
/// The value is a handle on a slice: it owns nothing and is copied freely. It
/// can only be made from a slice that holds an item, so `first` and `last`
/// need no absence signal and `len` is never zero.
///
/// Of the ranges, only the whole range and a prefix through an inclusive
/// index are offered, since no other form is sure to hold an item. For any
/// other range, take the ordinary slice with `get_slice` and index that.
#[derive(Debug, Hash)]
pub struct NonEmptySlice<'a, T> {
    inner: &'a [T],
}

impl<'a, T> View for NonEmptySlice<'a, T> {
    type V = Seq<T>;

    closed spec fn view(&self) -> Seq<T> {
        self.inner@
    }
}

impl<'a, T> Clone for NonEmptySlice<'a, T> {
    fn clone(&self) -> (r: Self)
        ensures
            r == *self,
    {
        *self
    }
}

impl<'a, T> Copy for NonEmptySlice<'a, T> {

}

impl<'a, T> NonEmptySlice<'a, T> {
    #[verifier::type_invariant]
    spec fn holds_an_item(&self) -> bool {
        self.inner@.len() >= 1
    }

    /// Takes a slice as non-empty on the caller's word.
    pub fn from_slice_unchecked(slice: &'a [T]) -> (r: NonEmptySlice<'a, T>)
        requires
            slice@.len() >= 1,
        ensures
            r@ == slice@,
    {
        NonEmptySlice { inner: slice }
    }

    /// Views a slice as non-empty, or hands it back when it holds nothing.
    pub fn try_from_slice(slice: &'a [T]) -> (r: Result<NonEmptySlice<'a, T>, &'a [T]>)
        ensures
            slice@.len() == 0 ==> r == Err::<NonEmptySlice<'a, T>, &'a [T]>(slice),
            slice@.len() >= 1 ==> (r matches Ok(s) && s@ == slice@),
    {
        if slice.is_empty() {
            Err(slice)
        } else {
            Ok(NonEmptySlice { inner: slice })
        }
    }

    /// Takes a slice to write through as non-empty on the caller's word.
    pub fn from_slice_unchecked_mut(slice: &'a mut [T]) -> (r: NonEmptySliceMut<'a, T>)
        requires
            old(slice)@.len() >= 1,
        ensures
            r@ == old(slice)@,
            final(slice)@ == seq![*final(r.first)] + final(r.rest)@,
    {
        let (head, rest) = slice.split_at_mut(1);
        NonEmptySliceMut { first: &mut head[0], rest }
    }

    /// Views a slice to write through as non-empty, or hands it back when it
    /// holds nothing.
    pub fn try_from_slice_mut(slice: &'a mut [T]) -> (r: Result<
        NonEmptySliceMut<'a, T>,
        &'a mut [T],
    >)
        ensures
            old(slice)@.len() == 0 ==> (r matches Err(back) && back@ == old(slice)@
                && final(slice)@ == final(back)@),
            old(slice)@.len() >= 1 ==> (r matches Ok(s) && s@ == old(slice)@ && final(slice)@
                == seq![*final(s.first)] + final(s.rest)@),
    {
        if slice.is_empty() {
            Err(slice)
        } else {
            Ok(NonEmptySlice::from_slice_unchecked_mut(slice))
        }
    }

    /// Views an array as a non-empty slice. The array's length is part of its
    /// type, so that it is positive is settled before the program runs.
    pub fn from_arr<const N: usize>(arr: &'a [T; N]) -> (r: NonEmptySlice<'a, T>)
        requires
            N >= 1,
        ensures
            r@ == arr@,
    {
        NonEmptySlice { inner: arr.as_slice() }
    }

    /// The ordinary slice behind the view.
    pub fn get_slice(&self) -> (r: &'a [T])
        ensures
            r@ == self@,
            r@.len() >= 1,
    {
        proof {
            use_type_invariant(self);
        }
        self.inner
    }

    /// The number of items, as a number that is not zero.
    pub fn len(&self) -> (r: PositiveUsize)
        ensures
            r.get() == self@.len(),
    {
        proof {
            use_type_invariant(self);
        }
        PositiveUsize::new_unchecked(self.inner.len())
    }

    /// The number of items, as a plain number.
    pub fn get_len(&self) -> (r: usize)
        ensures
            r == self@.len(),
            r >= 1,
    {
        self.len().get()
    }

    /// Whether the view holds exactly one item, so that taking one away
    /// would leave nothing.
    pub fn has_just_1_element(&self) -> (r: bool)
        ensures
            r == (self@.len() == 1),
    {
        self.get_len() == 1
    }

    /// The first item. There always is one.
    pub fn first(&self) -> (r: &'a T)
        ensures
            *r == self@.first(),
    {
        proof {
            use_type_invariant(self);
        }
        &self.inner[0]
    }

    /// The last item. There always is one.
    pub fn last(&self) -> (r: &'a T)
        ensures
            *r == self@.last(),
    {
        let last_index = self.get_len() - 1;
        &self.inner[last_index]
    }

    /// The whole range: the view itself.
    pub fn whole(&self) -> (r: NonEmptySlice<'a, T>)
        ensures
            r == *self,
    {
        *self
    }

    /// The prefix that ends with the item at `end`. It holds that item at
    /// least.
    pub fn up_to_inclusive(&self, end: usize) -> (r: NonEmptySlice<'a, T>)
        requires
            end < self@.len(),
        ensures
            r@ == self@.take(end + 1),
    {
        let len = self.inner.len();
        NonEmptySlice { inner: slice_subrange(self.inner, 0, end + 1) }
    }

    /// Clones the items into a vector of their own.
    pub fn to_vec(&self) -> (r: NonEmptyVec<T>) where T: Clone
        ensures
            r.wf(),
            r@.len() == self@.len(),
            forall|i: int| 0 <= i < self@.len() ==> cloned(self@[i], #[trigger] r@[i]),
    {
        proof {
            use_type_invariant(self);
        }
        let mut vec: Vec<T> = Vec::new();
        vec.extend_from_slice(self.inner);
        NonEmptyVec::from_vec_unchecked(vec)
    }

    /// Copies the items `n` times over into a vector: `n` copies of the view,
    /// one after the other.
    pub fn repeat(&self, n: PositiveUsize) -> (r: NonEmptyVec<T>) where T: Copy
        ensures
            r.wf(),
            r@ == repeated(self@, n.get() as nat),
    {
        proof {
            use_type_invariant(self);
        }
        let count = n.get();
        let len = self.inner.len();
        let mut vec: Vec<T> = Vec::new();
        let mut done: usize = 0;
        while done < count
            invariant
                done <= count,
                len == self.inner@.len(),
                vec@ == repeated(self.inner@, done as nat),
            decreases count - done,
        {
            let ghost before = vec@;
            let mut at: usize = 0;
            while at < len
                invariant
                    at <= len,
                    len == self.inner@.len(),
                    vec@ == before + self.inner@.take(at as int),
                decreases len - at,
            {
                let item = self.inner[at];
                vec.push(item);
                proof {
                    assert(self.inner@.take(at + 1) =~= self.inner@.take(at as int).push(
                        self.inner@[at as int],
                    ));
                }
                at = at + 1;
            }
            proof {
                assert(self.inner@.take(len as int) =~= self.inner@);
            }
            done = done + 1;
        }
        proof {
            lemma_repeated_len(self.inner@, count as nat);
            assert(vec@.len() >= 1) by (nonlinear_arith)
                requires
                    vec@.len() == count * self.inner@.len(),
                    count >= 1,
                    self.inner@.len() >= 1,
            ;
        }
        NonEmptyVec::from_vec_unchecked(vec)
    }
}

impl<'a, T> std::ops::Index<usize> for NonEmptySlice<'a, T> {
    type Output = T;

    fn index(&self, index: usize) -> (r: &T)
        ensures
            *r == self@[index as int],
    {
        &self.inner[index]
    }
}

impl<'a, T> vstd::std_specs::core::IndexSpecImpl<usize> for NonEmptySlice<'a, T> {
    open spec fn index_req(&self, index: &usize) -> bool {
        *index < self@.len()
    }
}

/// A borrowed run of items to write through that is never empty.
///
/// A view to write through is held as what makes it non-empty: its first
/// item, and the rest. Whatever is written through either, the run keeps its
/// length, so it holds an item for as long as it is borrowed.
pub struct NonEmptySliceMut<'a, T> {
    /// The first item.
    pub first: &'a mut T,
    /// The items after the first.
    pub rest: &'a mut [T],
}

impl<'a, T> View for NonEmptySliceMut<'a, T> {
    type V = Seq<T>;

    open spec fn view(&self) -> Seq<T> {
        seq![*self.first] + self.rest@
    }
}

impl<'a, T> NonEmptySliceMut<'a, T> {
    /// The first item, to write to. There always is one.
    pub fn first_mut(&mut self) -> (r: &mut T)
        ensures
            *r == old(self)@.first(),
            final(self)@ == old(self)@.update(0, *final(r)),
            *final(final(self).first) == *final(old(self).first),
            final(final(self).rest)@ == final(old(self).rest)@,
    {
        &mut *self.first
    }

    /// The last item, to write to. There always is one.
    pub fn last_mut(&mut self) -> (r: &mut T)
        ensures
            *r == old(self)@.last(),
            final(self)@ == old(self)@.update(old(self)@.len() - 1, *final(r)),
            *final(final(self).first) == *final(old(self).first),
            final(final(self).rest)@ == final(old(self).rest)@,
    {
        let after_first = self.rest.len();
        if after_first == 0 {
            &mut *self.first
        } else {
            &mut self.rest[after_first - 1]
        }
    }

    /// The item at `index`, to write to.
    pub fn get_mut(&mut self, index: usize) -> (r: &mut T)
        requires
            index < old(self)@.len(),
        ensures
            *r == old(self)@[index as int],
            final(self)@ == old(self)@.update(index as int, *final(r)),
            *final(final(self).first) == *final(old(self).first),
            final(final(self).rest)@ == final(old(self).rest)@,
    {
        if index == 0 {
            &mut *self.first
        } else {
            &mut self.rest[index - 1]
        }
    }
}

/// An owned, boxed run of items that is never empty.
///
/// It is what a non-empty vector becomes when its spare room is given up, and
/// it turns back into a vector without its items being copied.
#[derive(Debug, Hash)]
pub struct NonEmptyBoxedSlice<T> {
    inner: Box<[T]>,
}

impl<T> View for NonEmptyBoxedSlice<T> {
    type V = Seq<T>;

    closed spec fn view(&self) -> Seq<T> {
        self.inner@
    }
}

impl<T> NonEmptyBoxedSlice<T> {
    #[verifier::type_invariant]
    spec fn holds_an_item(&self) -> bool {
        self.inner@.len() >= 1
    }

    /// Takes a boxed slice as non-empty on the caller's word.
    pub fn from_boxed_slice_unchecked(boxed: Box<[T]>) -> (r: NonEmptyBoxedSlice<T>)
        requires
            boxed@.len() >= 1,
        ensures
            r@ == boxed@,
    {
        NonEmptyBoxedSlice { inner: boxed }
    }

    /// Takes over a boxed slice, or hands it back when it holds nothing.
    pub fn try_from_boxed_slice(boxed: Box<[T]>) -> (r: Result<NonEmptyBoxedSlice<T>, Box<[T]>>)
        ensures
            boxed@.len() == 0 ==> r == Err::<NonEmptyBoxedSlice<T>, Box<[T]>>(boxed),
            boxed@.len() >= 1 ==> (r matches Ok(b) && b@ == boxed@),
    {
        if boxed.len() == 0 {
            Err(boxed)
        } else {
            Ok(NonEmptyBoxedSlice { inner: boxed })
        }
    }

    /// The items as a borrowed view.
    pub fn as_slice(&self) -> (r: NonEmptySlice<'_, T>)
        ensures
            r@ == self@,
    {
        proof {
            use_type_invariant(self);
        }
        NonEmptySlice::from_slice_unchecked(&*self.inner)
    }

    /// Turns the box back into a vector. The items stay where they are.
    pub fn into_vec(self) -> (r: NonEmptyVec<T>)
        ensures
            r.wf(),
            r@ == self@,
    {
        proof {
            use_type_invariant(&self);
        }
        NonEmptyVec::from_vec_unchecked(self.inner.into_vec())
    }

    /// Gives up the guarantee and hands out the ordinary boxed slice.
    pub fn into_boxed_slice(self) -> (r: Box<[T]>)
        ensures
            r@ == self@,
            r@.len() >= 1,
    {
        proof {
            use_type_invariant(&self);
        }
        self.inner
    }
}

} // verus!
