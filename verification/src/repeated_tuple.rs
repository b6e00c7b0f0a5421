//! The conversions of a tuple into a boxed slice or a vector.

use vstd::prelude::*;

verus! {

/// `<[T]>::reverse` of the standard library, which reverses the order of the
/// elements of a slice in place: afterwards the slice holds what it held
/// before, last element first.
pub assume_specification<T>[ <[T]>::reverse ](s: &mut [T])
    ensures
        final(s)@ == old(s)@.reverse(),
;

/// A tuple whose elements all have the type `E`.
///
/// The model of such a tuple is the sequence of its elements,
/// [`elements`](RepeatedTuple::elements), whose length is the tuple's
/// [`arity`](RepeatedTuple::arity). An implementation supplies the two and
/// the reversed boxed slice; the other three conversions follow from it.
///
/// The trait is meant for tuples, but any type may implement it, as long as
/// its `to_boxed_slice_reversed` returns its `elements` backwards and there
/// are `arity` of them.
pub trait RepeatedTuple<E>: Sized {
    /// The number of elements, which the type alone decides.
    spec fn arity() -> nat;

    /// The elements, first to last.
    spec fn elements(&self) -> Seq<E>;

    /// Converts a tuple to a boxed slice, with elements in reverse order.
    fn to_boxed_slice_reversed(self) -> (b: Box<[E]>)
        ensures
            b@ == self.elements().reverse(),
            b@.len() == Self::arity(),
    ;

    /// Converts a tuple to a boxed slice of its elements.
    fn to_boxed_slice(self) -> (b: Box<[E]>)
        ensures
            b@ == self.elements(),
            b@.len() == Self::arity(),
    {
        let mut s = self.to_boxed_slice_reversed();
        s.reverse();
        s
    }

    /// Converts a tuple to a vector, with elements in reverse order.
    fn to_vec_reversed(self) -> (v: Vec<E>)
        ensures
            v@ == self.elements().reverse(),
            v@.len() == Self::arity(),
    {
        self.to_boxed_slice_reversed().into_vec()
    }

    /// Converts a tuple to a vector of its elements.
    fn to_vec(self) -> (v: Vec<E>)
        ensures
            v@ == self.elements(),
            v@.len() == Self::arity(),
    {
        self.to_boxed_slice().into_vec()
    }
}

/// Reversal undoes itself on what the conversions return. Let `forward` be
/// what `to_boxed_slice` returns for `t` and `reversed` what
/// `to_boxed_slice_reversed` returns for it. Then `reversed`, reversed, is
/// `forward`, element by element, and `forward`, reversed, is `reversed`.
pub proof fn lemma_reversal_involution<E, R: RepeatedTuple<E>>(
    t: R,
    forward: Seq<E>,
    reversed: Seq<E>,
)
    requires
        forward == t.elements(),
        reversed == t.elements().reverse(),
    ensures
        reversed.reverse() == forward,
        forward.reverse() == reversed,
        reversed.len() == forward.len(),
        forall|i: int| 0 <= i < forward.len() ==> reversed[i] == forward[forward.len() - 1 - i],
{
}

} // verus!
