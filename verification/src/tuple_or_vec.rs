//! One bound for a tuple or a vector.

use vstd::prelude::*;

verus! {

/// A value that turns into a `Vec<E>`: a vector itself, or a tuple of `E`.
///
/// A function that used to take a `Vec<E>` takes `V: TupleOrVec<E>` instead
/// and calls `as_vec` first; its callers then pass either.
pub trait TupleOrVec<E> {
    /// The elements that `as_vec` returns, in its order.
    spec fn as_seq(&self) -> Seq<E>;

    /// Converts the value to a vector.
    fn as_vec(self) -> (v: Vec<E>)
        ensures
            v@ == self.as_seq(),
    ;
}

impl<E> TupleOrVec<E> for Vec<E> {
    open spec fn as_seq(&self) -> Seq<E> {
        self@
    }

    /// A vector is returned as it is.
    fn as_vec(self) -> (v: Vec<E>)
        ensures
            v == self,
    {
        self
    }
}

} // verus!
