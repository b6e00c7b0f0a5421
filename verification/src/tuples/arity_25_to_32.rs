//! Tuples of twenty-five to thirty-two elements.

use crate::repeated_tuple::RepeatedTuple;
use crate::tuple_or_vec::TupleOrVec;
use vstd::prelude::*;

verus! {

impl<E> RepeatedTuple<E> for (
    E, E, E, E, E, E, E, E, E, E, E, E, E, E, E, E,
    E, E, E, E, E, E, E, E, E,
) {
    open spec fn arity() -> nat {
        25
    }

    open spec fn elements(&self) -> Seq<E> {
        seq![
            self.0, self.1, self.2, self.3, self.4, self.5, self.6, self.7,
            self.8, self.9, self.10, self.11, self.12, self.13, self.14, self.15,
            self.16, self.17, self.18, self.19, self.20, self.21, self.22, self.23,
            self.24,
        ]
    }

    fn to_boxed_slice_reversed(self) -> (b: Box<[E]>)
        ensures
            b@.len() == 25,
    {
        Box::new([
            self.24, self.23, self.22, self.21, self.20, self.19, self.18, self.17,
            self.16, self.15, self.14, self.13, self.12, self.11, self.10, self.9,
            self.8, self.7, self.6, self.5, self.4, self.3, self.2, self.1,
            self.0,
        ])
    }
}

impl<E> TupleOrVec<E> for (
    E, E, E, E, E, E, E, E, E, E, E, E, E, E, E, E,
    E, E, E, E, E, E, E, E, E,
) {
    open spec fn as_seq(&self) -> Seq<E> {
        RepeatedTuple::elements(self)
    }

    fn as_vec(self) -> (v: Vec<E>)
        ensures
            v@ == RepeatedTuple::<E>::elements(&self),
            v@.len() == 25,
    {
        RepeatedTuple::to_vec(self)
    }
}

impl<E> RepeatedTuple<E> for (
    E, E, E, E, E, E, E, E, E, E, E, E, E, E, E, E,
    E, E, E, E, E, E, E, E, E, E,
) {
    open spec fn arity() -> nat {
        26
    }

    open spec fn elements(&self) -> Seq<E> {
        seq![
            self.0, self.1, self.2, self.3, self.4, self.5, self.6, self.7,
            self.8, self.9, self.10, self.11, self.12, self.13, self.14, self.15,
            self.16, self.17, self.18, self.19, self.20, self.21, self.22, self.23,
            self.24, self.25,
        ]
    }

    fn to_boxed_slice_reversed(self) -> (b: Box<[E]>)
        ensures
            b@.len() == 26,
    {
        Box::new([
            self.25, self.24, self.23, self.22, self.21, self.20, self.19, self.18,
            self.17, self.16, self.15, self.14, self.13, self.12, self.11, self.10,
            self.9, self.8, self.7, self.6, self.5, self.4, self.3, self.2,
            self.1, self.0,
        ])
    }
}

impl<E> TupleOrVec<E> for (
    E, E, E, E, E, E, E, E, E, E, E, E, E, E, E, E,
    E, E, E, E, E, E, E, E, E, E,
) {
    open spec fn as_seq(&self) -> Seq<E> {
        RepeatedTuple::elements(self)
    }

    fn as_vec(self) -> (v: Vec<E>)
        ensures
            v@ == RepeatedTuple::<E>::elements(&self),
            v@.len() == 26,
    {
        RepeatedTuple::to_vec(self)
    }
}

impl<E> RepeatedTuple<E> for (
    E, E, E, E, E, E, E, E, E, E, E, E, E, E, E, E,
    E, E, E, E, E, E, E, E, E, E, E,
) {
    open spec fn arity() -> nat {
        27
    }

    open spec fn elements(&self) -> Seq<E> {
        seq![
            self.0, self.1, self.2, self.3, self.4, self.5, self.6, self.7,
            self.8, self.9, self.10, self.11, self.12, self.13, self.14, self.15,
            self.16, self.17, self.18, self.19, self.20, self.21, self.22, self.23,
            self.24, self.25, self.26,
        ]
    }

    fn to_boxed_slice_reversed(self) -> (b: Box<[E]>)
        ensures
            b@.len() == 27,
    {
        Box::new([
            self.26, self.25, self.24, self.23, self.22, self.21, self.20, self.19,
            self.18, self.17, self.16, self.15, self.14, self.13, self.12, self.11,
            self.10, self.9, self.8, self.7, self.6, self.5, self.4, self.3,
            self.2, self.1, self.0,
        ])
    }
}

impl<E> TupleOrVec<E> for (
    E, E, E, E, E, E, E, E, E, E, E, E, E, E, E, E,
    E, E, E, E, E, E, E, E, E, E, E,
) {
    open spec fn as_seq(&self) -> Seq<E> {
        RepeatedTuple::elements(self)
    }

    fn as_vec(self) -> (v: Vec<E>)
        ensures
            v@ == RepeatedTuple::<E>::elements(&self),
            v@.len() == 27,
    {
        RepeatedTuple::to_vec(self)
    }
}

impl<E> RepeatedTuple<E> for (
    E, E, E, E, E, E, E, E, E, E, E, E, E, E, E, E,
    E, E, E, E, E, E, E, E, E, E, E, E,
) {
    open spec fn arity() -> nat {
        28
    }

    open spec fn elements(&self) -> Seq<E> {
        seq![
            self.0, self.1, self.2, self.3, self.4, self.5, self.6, self.7,
            self.8, self.9, self.10, self.11, self.12, self.13, self.14, self.15,
            self.16, self.17, self.18, self.19, self.20, self.21, self.22, self.23,
            self.24, self.25, self.26, self.27,
        ]
    }

    fn to_boxed_slice_reversed(self) -> (b: Box<[E]>)
        ensures
            b@.len() == 28,
    {
        Box::new([
            self.27, self.26, self.25, self.24, self.23, self.22, self.21, self.20,
            self.19, self.18, self.17, self.16, self.15, self.14, self.13, self.12,
            self.11, self.10, self.9, self.8, self.7, self.6, self.5, self.4,
            self.3, self.2, self.1, self.0,
        ])
    }
}

impl<E> TupleOrVec<E> for (
    E, E, E, E, E, E, E, E, E, E, E, E, E, E, E, E,
    E, E, E, E, E, E, E, E, E, E, E, E,
) {
    open spec fn as_seq(&self) -> Seq<E> {
        RepeatedTuple::elements(self)
    }

    fn as_vec(self) -> (v: Vec<E>)
        ensures
            v@ == RepeatedTuple::<E>::elements(&self),
            v@.len() == 28,
    {
        RepeatedTuple::to_vec(self)
    }
}

impl<E> RepeatedTuple<E> for (
    E, E, E, E, E, E, E, E, E, E, E, E, E, E, E, E,
    E, E, E, E, E, E, E, E, E, E, E, E, E,
) {
    open spec fn arity() -> nat {
        29
    }

    open spec fn elements(&self) -> Seq<E> {
        seq![
            self.0, self.1, self.2, self.3, self.4, self.5, self.6, self.7,
            self.8, self.9, self.10, self.11, self.12, self.13, self.14, self.15,
            self.16, self.17, self.18, self.19, self.20, self.21, self.22, self.23,
            self.24, self.25, self.26, self.27, self.28,
        ]
    }

    fn to_boxed_slice_reversed(self) -> (b: Box<[E]>)
        ensures
            b@.len() == 29,
    {
        Box::new([
            self.28, self.27, self.26, self.25, self.24, self.23, self.22, self.21,
            self.20, self.19, self.18, self.17, self.16, self.15, self.14, self.13,
            self.12, self.11, self.10, self.9, self.8, self.7, self.6, self.5,
            self.4, self.3, self.2, self.1, self.0,
        ])
    }
}

impl<E> TupleOrVec<E> for (
    E, E, E, E, E, E, E, E, E, E, E, E, E, E, E, E,
    E, E, E, E, E, E, E, E, E, E, E, E, E,
) {
    open spec fn as_seq(&self) -> Seq<E> {
        RepeatedTuple::elements(self)
    }

    fn as_vec(self) -> (v: Vec<E>)
        ensures
            v@ == RepeatedTuple::<E>::elements(&self),
            v@.len() == 29,
    {
        RepeatedTuple::to_vec(self)
    }
}

impl<E> RepeatedTuple<E> for (
    E, E, E, E, E, E, E, E, E, E, E, E, E, E, E, E,
    E, E, E, E, E, E, E, E, E, E, E, E, E, E,
) {
    open spec fn arity() -> nat {
        30
    }

    open spec fn elements(&self) -> Seq<E> {
        seq![
            self.0, self.1, self.2, self.3, self.4, self.5, self.6, self.7,
            self.8, self.9, self.10, self.11, self.12, self.13, self.14, self.15,
            self.16, self.17, self.18, self.19, self.20, self.21, self.22, self.23,
            self.24, self.25, self.26, self.27, self.28, self.29,
        ]
    }

    fn to_boxed_slice_reversed(self) -> (b: Box<[E]>)
        ensures
            b@.len() == 30,
    {
        Box::new([
            self.29, self.28, self.27, self.26, self.25, self.24, self.23, self.22,
            self.21, self.20, self.19, self.18, self.17, self.16, self.15, self.14,
            self.13, self.12, self.11, self.10, self.9, self.8, self.7, self.6,
            self.5, self.4, self.3, self.2, self.1, self.0,
        ])
    }
}

impl<E> TupleOrVec<E> for (
    E, E, E, E, E, E, E, E, E, E, E, E, E, E, E, E,
    E, E, E, E, E, E, E, E, E, E, E, E, E, E,
) {
    open spec fn as_seq(&self) -> Seq<E> {
        RepeatedTuple::elements(self)
    }

    fn as_vec(self) -> (v: Vec<E>)
        ensures
            v@ == RepeatedTuple::<E>::elements(&self),
            v@.len() == 30,
    {
        RepeatedTuple::to_vec(self)
    }
}

impl<E> RepeatedTuple<E> for (
    E, E, E, E, E, E, E, E, E, E, E, E, E, E, E, E,
    E, E, E, E, E, E, E, E, E, E, E, E, E, E, E,
) {
    open spec fn arity() -> nat {
        31
    }

    open spec fn elements(&self) -> Seq<E> {
        seq![
            self.0, self.1, self.2, self.3, self.4, self.5, self.6, self.7,
            self.8, self.9, self.10, self.11, self.12, self.13, self.14, self.15,
            self.16, self.17, self.18, self.19, self.20, self.21, self.22, self.23,
            self.24, self.25, self.26, self.27, self.28, self.29, self.30,
        ]
    }

    fn to_boxed_slice_reversed(self) -> (b: Box<[E]>)
        ensures
            b@.len() == 31,
    {
        Box::new([
            self.30, self.29, self.28, self.27, self.26, self.25, self.24, self.23,
            self.22, self.21, self.20, self.19, self.18, self.17, self.16, self.15,
            self.14, self.13, self.12, self.11, self.10, self.9, self.8, self.7,
            self.6, self.5, self.4, self.3, self.2, self.1, self.0,
        ])
    }
}

impl<E> TupleOrVec<E> for (
    E, E, E, E, E, E, E, E, E, E, E, E, E, E, E, E,
    E, E, E, E, E, E, E, E, E, E, E, E, E, E, E,
) {
    open spec fn as_seq(&self) -> Seq<E> {
        RepeatedTuple::elements(self)
    }

    fn as_vec(self) -> (v: Vec<E>)
        ensures
            v@ == RepeatedTuple::<E>::elements(&self),
            v@.len() == 31,
    {
        RepeatedTuple::to_vec(self)
    }
}

impl<E> RepeatedTuple<E> for (
    E, E, E, E, E, E, E, E, E, E, E, E, E, E, E, E,
    E, E, E, E, E, E, E, E, E, E, E, E, E, E, E, E,
) {
    open spec fn arity() -> nat {
        32
    }

    open spec fn elements(&self) -> Seq<E> {
        seq![
            self.0, self.1, self.2, self.3, self.4, self.5, self.6, self.7,
            self.8, self.9, self.10, self.11, self.12, self.13, self.14, self.15,
            self.16, self.17, self.18, self.19, self.20, self.21, self.22, self.23,
            self.24, self.25, self.26, self.27, self.28, self.29, self.30, self.31,
        ]
    }

    fn to_boxed_slice_reversed(self) -> (b: Box<[E]>)
        ensures
            b@.len() == 32,
    {
        Box::new([
            self.31, self.30, self.29, self.28, self.27, self.26, self.25, self.24,
            self.23, self.22, self.21, self.20, self.19, self.18, self.17, self.16,
            self.15, self.14, self.13, self.12, self.11, self.10, self.9, self.8,
            self.7, self.6, self.5, self.4, self.3, self.2, self.1, self.0,
        ])
    }
}

impl<E> TupleOrVec<E> for (
    E, E, E, E, E, E, E, E, E, E, E, E, E, E, E, E,
    E, E, E, E, E, E, E, E, E, E, E, E, E, E, E, E,
) {
    open spec fn as_seq(&self) -> Seq<E> {
        RepeatedTuple::elements(self)
    }

    fn as_vec(self) -> (v: Vec<E>)
        ensures
            v@ == RepeatedTuple::<E>::elements(&self),
            v@.len() == 32,
    {
        RepeatedTuple::to_vec(self)
    }
}

} // verus!
