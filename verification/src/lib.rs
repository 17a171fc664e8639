//! Contiguous collections that always hold at least one item.
//!
//! Three kinds of collection carry the guarantee:
//!
//! - [`NonEmptySlice`], a borrowed view, with [`NonEmptySliceMut`] to write
//!   through and [`NonEmptyBoxedSlice`] as its owned, boxed form;
//! - [`NonEmptyVec`], an owned vector;
//! - [`NonEmptySmallVec`], an owned vector that keeps a few items inline,
//!   over the small vector [`InlineVec`].
//!
//! Each is made from its ordinary counterpart by a check that hands the
//! counterpart back when it is empty, or on the caller's word, and each turns
//! back into its counterpart without its items being copied. What adds items
//! is offered as the counterpart offers it. What takes items away comes in
//! three forms: guarded, handing out nothing where the last item would go;
//! with an argument that cannot name the emptying case, a [`PositiveUsize`];
//! and unguarded, with the proof left to the caller.
//!
//! The contracts are stated over the sequence of items that a collection
//! holds, its view, with the functions of [`model`]. What holds of the
//! collections whatever they are given is proved in [`laws`].

mod backing;
pub mod inline_vec;
pub mod laws;
pub mod model;
pub mod non_empty_slice;
pub mod non_empty_smallvec;
pub mod non_empty_vec;
pub mod positive;
pub mod range;

pub use inline_vec::{InlineVec, INLINE_CAPACITY};
pub use non_empty_slice::{NonEmptyBoxedSlice, NonEmptySlice, NonEmptySliceMut};
pub use non_empty_smallvec::NonEmptySmallVec;
pub use non_empty_vec::NonEmptyVec;
pub use positive::PositiveUsize;
pub use range::Bound;
