//! Tuples of one to eight elements.

use crate::repeated_tuple::RepeatedTuple;
use crate::tuple_or_vec::TupleOrVec;
use vstd::prelude::*;

verus! {

impl<E> RepeatedTuple<E> for (E,) {
    open spec fn arity() -> nat {
        1
    }

    open spec fn elements(&self) -> Seq<E> {
        seq![self.0]
    }

    fn to_boxed_slice_reversed(self) -> (b: Box<[E]>)
        ensures
            b@.len() == 1,
    {
        Box::new([self.0])
    }
}

impl<E> TupleOrVec<E> for (E,) {
    open spec fn as_seq(&self) -> Seq<E> {
        RepeatedTuple::elements(self)
    }

    fn as_vec(self) -> (v: Vec<E>)
        ensures
            v@ == RepeatedTuple::<E>::elements(&self),
            v@.len() == 1,
    {
        RepeatedTuple::to_vec(self)
    }
}

impl<E> RepeatedTuple<E> for (E, E) {
    open spec fn arity() -> nat {
        2
    }

    open spec fn elements(&self) -> Seq<E> {
        seq![self.0, self.1]
    }

    fn to_boxed_slice_reversed(self) -> (b: Box<[E]>)
        ensures
            b@.len() == 2,
    {
        Box::new([self.1, self.0])
    }
}

impl<E> TupleOrVec<E> for (E, E) {
    open spec fn as_seq(&self) -> Seq<E> {
        RepeatedTuple::elements(self)
    }

    fn as_vec(self) -> (v: Vec<E>)
        ensures
            v@ == RepeatedTuple::<E>::elements(&self),
            v@.len() == 2,
    {
        RepeatedTuple::to_vec(self)
    }
}

impl<E> RepeatedTuple<E> for (E, E, E) {
    open spec fn arity() -> nat {
        3
    }

    open spec fn elements(&self) -> Seq<E> {
        seq![self.0, self.1, self.2]
    }

    fn to_boxed_slice_reversed(self) -> (b: Box<[E]>)
        ensures
            b@.len() == 3,
    {
        Box::new([self.2, self.1, self.0])
    }
}

impl<E> TupleOrVec<E> for (E, E, E) {
    open spec fn as_seq(&self) -> Seq<E> {
        RepeatedTuple::elements(self)
    }

    fn as_vec(self) -> (v: Vec<E>)
        ensures
            v@ == RepeatedTuple::<E>::elements(&self),
            v@.len() == 3,
    {
        RepeatedTuple::to_vec(self)
    }
}

impl<E> RepeatedTuple<E> for (E, E, E, E) {
    open spec fn arity() -> nat {
        4
    }

    open spec fn elements(&self) -> Seq<E> {
        seq![self.0, self.1, self.2, self.3]
    }

    fn to_boxed_slice_reversed(self) -> (b: Box<[E]>)
        ensures
            b@.len() == 4,
    {
        Box::new([self.3, self.2, self.1, self.0])
    }
}

impl<E> TupleOrVec<E> for (E, E, E, E) {
    open spec fn as_seq(&self) -> Seq<E> {
        RepeatedTuple::elements(self)
    }

    fn as_vec(self) -> (v: Vec<E>)
        ensures
            v@ == RepeatedTuple::<E>::elements(&self),
            v@.len() == 4,
    {
        RepeatedTuple::to_vec(self)
    }
}

impl<E> RepeatedTuple<E> for (E, E, E, E, E) {
    open spec fn arity() -> nat {
        5
    }

    open spec fn elements(&self) -> Seq<E> {
        seq![self.0, self.1, self.2, self.3, self.4]
    }

    fn to_boxed_slice_reversed(self) -> (b: Box<[E]>)
        ensures
            b@.len() == 5,
    {
        Box::new([self.4, self.3, self.2, self.1, self.0])
    }
}

impl<E> TupleOrVec<E> for (E, E, E, E, E) {
    open spec fn as_seq(&self) -> Seq<E> {
        RepeatedTuple::elements(self)
    }

    fn as_vec(self) -> (v: Vec<E>)
        ensures
            v@ == RepeatedTuple::<E>::elements(&self),
            v@.len() == 5,
    {
        RepeatedTuple::to_vec(self)
    }
}

impl<E> RepeatedTuple<E> for (E, E, E, E, E, E) {
    open spec fn arity() -> nat {
        6
    }

    open spec fn elements(&self) -> Seq<E> {
        seq![self.0, self.1, self.2, self.3, self.4, self.5]
    }

    fn to_boxed_slice_reversed(self) -> (b: Box<[E]>)
        ensures
            b@.len() == 6,
    {
        Box::new([self.5, self.4, self.3, self.2, self.1, self.0])
    }
}

impl<E> TupleOrVec<E> for (E, E, E, E, E, E) {
    open spec fn as_seq(&self) -> Seq<E> {
        RepeatedTuple::elements(self)
    }

    fn as_vec(self) -> (v: Vec<E>)
        ensures
            v@ == RepeatedTuple::<E>::elements(&self),
            v@.len() == 6,
    {
        RepeatedTuple::to_vec(self)
    }
}

impl<E> RepeatedTuple<E> for (E, E, E, E, E, E, E) {
    open spec fn arity() -> nat {
        7
    }

    open spec fn elements(&self) -> Seq<E> {
        seq![self.0, self.1, self.2, self.3, self.4, self.5, self.6]
    }

    fn to_boxed_slice_reversed(self) -> (b: Box<[E]>)
        ensures
            b@.len() == 7,
    {
        Box::new([self.6, self.5, self.4, self.3, self.2, self.1, self.0])
    }
}

impl<E> TupleOrVec<E> for (E, E, E, E, E, E, E) {
    open spec fn as_seq(&self) -> Seq<E> {
        RepeatedTuple::elements(self)
    }

    fn as_vec(self) -> (v: Vec<E>)
        ensures
            v@ == RepeatedTuple::<E>::elements(&self),
            v@.len() == 7,
    {
        RepeatedTuple::to_vec(self)
    }
}

impl<E> RepeatedTuple<E> for (E, E, E, E, E, E, E, E) {
    open spec fn arity() -> nat {
        8
    }

    open spec fn elements(&self) -> Seq<E> {
        seq![self.0, self.1, self.2, self.3, self.4, self.5, self.6, self.7]
    }

    fn to_boxed_slice_reversed(self) -> (b: Box<[E]>)
        ensures
            b@.len() == 8,
    {
        Box::new([self.7, self.6, self.5, self.4, self.3, self.2, self.1, self.0])
    }
}

impl<E> TupleOrVec<E> for (E, E, E, E, E, E, E, E) {
    open spec fn as_seq(&self) -> Seq<E> {
        RepeatedTuple::elements(self)
    }

    fn as_vec(self) -> (v: Vec<E>)
        ensures
            v@ == RepeatedTuple::<E>::elements(&self),
            v@.len() == 8,
    {
        RepeatedTuple::to_vec(self)
    }
}

} // verus!
