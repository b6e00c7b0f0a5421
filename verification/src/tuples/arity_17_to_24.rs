//! Tuples of seventeen to twenty-four elements.

use crate::repeated_tuple::RepeatedTuple;
use crate::tuple_or_vec::TupleOrVec;
use vstd::prelude::*;

verus! {

impl<E> RepeatedTuple<E> for (
    E, E, E, E, E, E, E, E, E, E, E, E, E, E, E, E,
    E,
) {
    open spec fn arity() -> nat {
        17
    }

    open spec fn elements(&self) -> Seq<E> {
        seq![
            self.0, self.1, self.2, self.3, self.4, self.5, self.6, self.7,
            self.8, self.9, self.10, self.11, self.12, self.13, self.14, self.15,
            self.16,
        ]
    }

    fn to_boxed_slice_reversed(self) -> (b: Box<[E]>)
        ensures
            b@.len() == 17,
    {
        Box::new([
            self.16, self.15, self.14, self.13, self.12, self.11, self.10, self.9,
            self.8, self.7, self.6, self.5, self.4, self.3, self.2, self.1,
            self.0,
        ])
    }
}

impl<E> TupleOrVec<E> for (
    E, E, E, E, E, E, E, E, E, E, E, E, E, E, E, E,
    E,
) {
    open spec fn as_seq(&self) -> Seq<E> {
        RepeatedTuple::elements(self)
    }

    fn as_vec(self) -> (v: Vec<E>)
        ensures
            v@ == RepeatedTuple::<E>::elements(&self),
            v@.len() == 17,
    {
        RepeatedTuple::to_vec(self)
    }
}

impl<E> RepeatedTuple<E> for (
    E, E, E, E, E, E, E, E, E, E, E, E, E, E, E, E,
    E, E,
) {
    open spec fn arity() -> nat {
        18
    }

    open spec fn elements(&self) -> Seq<E> {
        seq![
            self.0, self.1, self.2, self.3, self.4, self.5, self.6, self.7,
            self.8, self.9, self.10, self.11, self.12, self.13, self.14, self.15,
            self.16, self.17,
        ]
    }

    fn to_boxed_slice_reversed(self) -> (b: Box<[E]>)
        ensures
            b@.len() == 18,
    {
        Box::new([
            self.17, self.16, self.15, self.14, self.13, self.12, self.11, self.10,
            self.9, self.8, self.7, self.6, self.5, self.4, self.3, self.2,
            self.1, self.0,
        ])
    }
}

impl<E> TupleOrVec<E> for (
    E, E, E, E, E, E, E, E, E, E, E, E, E, E, E, E,
    E, E,
) {
    open spec fn as_seq(&self) -> Seq<E> {
        RepeatedTuple::elements(self)
    }

    fn as_vec(self) -> (v: Vec<E>)
        ensures
            v@ == RepeatedTuple::<E>::elements(&self),
            v@.len() == 18,
    {
        RepeatedTuple::to_vec(self)
    }
}

impl<E> RepeatedTuple<E> for (
    E, E, E, E, E, E, E, E, E, E, E, E, E, E, E, E,
    E, E, E,
) {
    open spec fn arity() -> nat {
        19
    }

    open spec fn elements(&self) -> Seq<E> {
        seq![
            self.0, self.1, self.2, self.3, self.4, self.5, self.6, self.7,
            self.8, self.9, self.10, self.11, self.12, self.13, self.14, self.15,
            self.16, self.17, self.18,
        ]
    }

    fn to_boxed_slice_reversed(self) -> (b: Box<[E]>)
        ensures
            b@.len() == 19,
    {
        Box::new([
            self.18, self.17, self.16, self.15, self.14, self.13, self.12, self.11,
            self.10, self.9, self.8, self.7, self.6, self.5, self.4, self.3,
            self.2, self.1, self.0,
        ])
    }
}

impl<E> TupleOrVec<E> for (
    E, E, E, E, E, E, E, E, E, E, E, E, E, E, E, E,
    E, E, E,
) {
    open spec fn as_seq(&self) -> Seq<E> {
        RepeatedTuple::elements(self)
    }

    fn as_vec(self) -> (v: Vec<E>)
        ensures
            v@ == RepeatedTuple::<E>::elements(&self),
            v@.len() == 19,
    {
        RepeatedTuple::to_vec(self)
    }
}

impl<E> RepeatedTuple<E> for (
    E, E, E, E, E, E, E, E, E, E, E, E, E, E, E, E,
    E, E, E, E,
) {
    open spec fn arity() -> nat {
        20
    }

    open spec fn elements(&self) -> Seq<E> {
        seq![
            self.0, self.1, self.2, self.3, self.4, self.5, self.6, self.7,
            self.8, self.9, self.10, self.11, self.12, self.13, self.14, self.15,
            self.16, self.17, self.18, self.19,
        ]
    }

    fn to_boxed_slice_reversed(self) -> (b: Box<[E]>)
        ensures
            b@.len() == 20,
    {
        Box::new([
            self.19, self.18, self.17, self.16, self.15, self.14, self.13, self.12,
            self.11, self.10, self.9, self.8, self.7, self.6, self.5, self.4,
            self.3, self.2, self.1, self.0,
        ])
    }
}

impl<E> TupleOrVec<E> for (
    E, E, E, E, E, E, E, E, E, E, E, E, E, E, E, E,
    E, E, E, E,
) {
    open spec fn as_seq(&self) -> Seq<E> {
        RepeatedTuple::elements(self)
    }

    fn as_vec(self) -> (v: Vec<E>)
        ensures
            v@ == RepeatedTuple::<E>::elements(&self),
            v@.len() == 20,
    {
        RepeatedTuple::to_vec(self)
    }
}

impl<E> RepeatedTuple<E> for (
    E, E, E, E, E, E, E, E, E, E, E, E, E, E, E, E,
    E, E, E, E, E,
) {
    open spec fn arity() -> nat {
        21
    }

    open spec fn elements(&self) -> Seq<E> {
        seq![
            self.0, self.1, self.2, self.3, self.4, self.5, self.6, self.7,
            self.8, self.9, self.10, self.11, self.12, self.13, self.14, self.15,
            self.16, self.17, self.18, self.19, self.20,
        ]
    }

    fn to_boxed_slice_reversed(self) -> (b: Box<[E]>)
        ensures
            b@.len() == 21,
    {
        Box::new([
            self.20, self.19, self.18, self.17, self.16, self.15, self.14, self.13,
            self.12, self.11, self.10, self.9, self.8, self.7, self.6, self.5,
            self.4, self.3, self.2, self.1, self.0,
        ])
    }
}

impl<E> TupleOrVec<E> for (
    E, E, E, E, E, E, E, E, E, E, E, E, E, E, E, E,
    E, E, E, E, E,
) {
    open spec fn as_seq(&self) -> Seq<E> {
        RepeatedTuple::elements(self)
    }

    fn as_vec(self) -> (v: Vec<E>)
        ensures
            v@ == RepeatedTuple::<E>::elements(&self),
            v@.len() == 21,
    {
        RepeatedTuple::to_vec(self)
    }
}

impl<E> RepeatedTuple<E> for (
    E, E, E, E, E, E, E, E, E, E, E, E, E, E, E, E,
    E, E, E, E, E, E,
) {
    open spec fn arity() -> nat {
        22
    }

    open spec fn elements(&self) -> Seq<E> {
        seq![
            self.0, self.1, self.2, self.3, self.4, self.5, self.6, self.7,
            self.8, self.9, self.10, self.11, self.12, self.13, self.14, self.15,
            self.16, self.17, self.18, self.19, self.20, self.21,
        ]
    }

    fn to_boxed_slice_reversed(self) -> (b: Box<[E]>)
        ensures
            b@.len() == 22,
    {
        Box::new([
            self.21, self.20, self.19, self.18, self.17, self.16, self.15, self.14,
            self.13, self.12, self.11, self.10, self.9, self.8, self.7, self.6,
            self.5, self.4, self.3, self.2, self.1, self.0,
        ])
    }
}

impl<E> TupleOrVec<E> for (
    E, E, E, E, E, E, E, E, E, E, E, E, E, E, E, E,
    E, E, E, E, E, E,
) {
    open spec fn as_seq(&self) -> Seq<E> {
        RepeatedTuple::elements(self)
    }

    fn as_vec(self) -> (v: Vec<E>)
        ensures
            v@ == RepeatedTuple::<E>::elements(&self),
            v@.len() == 22,
    {
        RepeatedTuple::to_vec(self)
    }
}

impl<E> RepeatedTuple<E> for (
    E, E, E, E, E, E, E, E, E, E, E, E, E, E, E, E,
    E, E, E, E, E, E, E,
) {
    open spec fn arity() -> nat {
        23
    }

    open spec fn elements(&self) -> Seq<E> {
        seq![
            self.0, self.1, self.2, self.3, self.4, self.5, self.6, self.7,
            self.8, self.9, self.10, self.11, self.12, self.13, self.14, self.15,
            self.16, self.17, self.18, self.19, self.20, self.21, self.22,
        ]
    }

    fn to_boxed_slice_reversed(self) -> (b: Box<[E]>)
        ensures
            b@.len() == 23,
    {
        Box::new([
            self.22, self.21, self.20, self.19, self.18, self.17, self.16, self.15,
            self.14, self.13, self.12, self.11, self.10, self.9, self.8, self.7,
            self.6, self.5, self.4, self.3, self.2, self.1, self.0,
        ])
    }
}

impl<E> TupleOrVec<E> for (
    E, E, E, E, E, E, E, E, E, E, E, E, E, E, E, E,
    E, E, E, E, E, E, E,
) {
    open spec fn as_seq(&self) -> Seq<E> {
        RepeatedTuple::elements(self)
    }

    fn as_vec(self) -> (v: Vec<E>)
        ensures
            v@ == RepeatedTuple::<E>::elements(&self),
            v@.len() == 23,
    {
        RepeatedTuple::to_vec(self)
    }
}

impl<E> RepeatedTuple<E> for (
    E, E, E, E, E, E, E, E, E, E, E, E, E, E, E, E,
    E, E, E, E, E, E, E, E,
) {
    open spec fn arity() -> nat {
        24
    }

    open spec fn elements(&self) -> Seq<E> {
        seq![
            self.0, self.1, self.2, self.3, self.4, self.5, self.6, self.7,
            self.8, self.9, self.10, self.11, self.12, self.13, self.14, self.15,
            self.16, self.17, self.18, self.19, self.20, self.21, self.22, self.23,
        ]
    }

    fn to_boxed_slice_reversed(self) -> (b: Box<[E]>)
        ensures
            b@.len() == 24,
    {
        Box::new([
            self.23, self.22, self.21, self.20, self.19, self.18, self.17, self.16,
            self.15, self.14, self.13, self.12, self.11, self.10, self.9, self.8,
            self.7, self.6, self.5, self.4, self.3, self.2, self.1, self.0,
        ])
    }
}

impl<E> TupleOrVec<E> for (
    E, E, E, E, E, E, E, E, E, E, E, E, E, E, E, E,
    E, E, E, E, E, E, E, E,
) {
    open spec fn as_seq(&self) -> Seq<E> {
        RepeatedTuple::elements(self)
    }

    fn as_vec(self) -> (v: Vec<E>)
        ensures
            v@ == RepeatedTuple::<E>::elements(&self),
            v@.len() == 24,
    {
        RepeatedTuple::to_vec(self)
    }
}

} // verus!
