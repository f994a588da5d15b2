//! A helper trait for seeding a buffer from a single value.

use vstd::prelude::*;
use crate::double_buffer::DoubleBuffer;

verus! {

/// Conversion of a single cloneable value into a freshly seeded
/// [`DoubleBuffer`]: both slots start from the value and the selector is 0.
///
/// The trait is implemented for references, so that the buffer ends up
/// holding owned values rather than accidentally cloned references.
pub trait IntoDoubleBuffer: Clone where Self: Sized {
    /// The element type of the produced buffer.
    type Item: Clone;

    /// The seed value the conversion feeds into the buffer.
    spec fn spec_seed(self) -> Self::Item;

    /// Convert `self` into a buffer seeded from [`IntoDoubleBuffer::spec_seed`].
    fn into_double_buf(self) -> (result: DoubleBuffer<Self::Item>)
        ensures
            result.sel() == 0,
            vstd::pervasive::cloned::<Self::Item>(self.spec_seed(), result.spec_next()),
            vstd::pervasive::cloned::<Self::Item>(result.spec_next(), result.spec_current()),
    ;
}

impl<T: Clone> IntoDoubleBuffer for &T {
    type Item = T;

    open spec fn spec_seed(self) -> T {
        *self
    }

    fn into_double_buf(self) -> (result: DoubleBuffer<T>) {
        DoubleBuffer::new(T::clone(self))
    }
}

} // verus!
