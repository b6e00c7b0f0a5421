//! Tuples of thirty-three to forty elements.

use crate::repeated_tuple::RepeatedTuple;
use crate::tuple_or_vec::TupleOrVec;
use vstd::prelude::*;

verus! {

impl<E> RepeatedTuple<E> for (
    E, E, E, E, E, E, E, E, E, E, E, E, E, E, E, E,
    E, E, E, E, E, E, E, E, E, E, E, E, E, E, E, E,
    E,
) {
    open spec fn arity() -> nat {
        33
    }

    open spec fn elements(&self) -> Seq<E> {
        seq![
            self.0, self.1, self.2, self.3, self.4, self.5, self.6, self.7,
            self.8, self.9, self.10, self.11, self.12, self.13, self.14, self.15,
            self.16, self.17, self.18, self.19, self.20, self.21, self.22, self.23,
            self.24, self.25, self.26, self.27, self.28, self.29, self.30, self.31,
            self.32,
        ]
    }

    fn to_boxed_slice_reversed(self) -> (b: Box<[E]>)
        ensures
            b@.len() == 33,
    {
        Box::new([
            self.32, self.31, self.30, self.29, self.28, self.27, self.26, self.25,
            self.24, self.23, self.22, self.21, self.20, self.19, self.18, self.17,
            self.16, self.15, self.14, self.13, self.12, self.11, self.10, self.9,
            self.8, self.7, self.6, self.5, self.4, self.3, self.2, self.1,
            self.0,
        ])
    }
}

impl<E> TupleOrVec<E> for (
    E, E, E, E, E, E, E, E, E, E, E, E, E, E, E, E,
    E, E, E, E, E, E, E, E, E, E, E, E, E, E, E, E,
    E,
) {
    open spec fn as_seq(&self) -> Seq<E> {
        RepeatedTuple::elements(self)
    }

    fn as_vec(self) -> (v: Vec<E>)
        ensures
            v@ == RepeatedTuple::<E>::elements(&self),
            v@.len() == 33,
    {
        RepeatedTuple::to_vec(self)
    }
}

impl<E> RepeatedTuple<E> for (
    E, E, E, E, E, E, E, E, E, E, E, E, E, E, E, E,
    E, E, E, E, E, E, E, E, E, E, E, E, E, E, E, E,
    E, E,
) {
    open spec fn arity() -> nat {
        34
    }

    open spec fn elements(&self) -> Seq<E> {
        seq![
            self.0, self.1, self.2, self.3, self.4, self.5, self.6, self.7,
            self.8, self.9, self.10, self.11, self.12, self.13, self.14, self.15,
            self.16, self.17, self.18, self.19, self.20, self.21, self.22, self.23,
            self.24, self.25, self.26, self.27, self.28, self.29, self.30, self.31,
            self.32, self.33,
        ]
    }

    fn to_boxed_slice_reversed(self) -> (b: Box<[E]>)
        ensures
            b@.len() == 34,
    {
        Box::new([
            self.33, self.32, self.31, self.30, self.29, self.28, self.27, self.26,
            self.25, self.24, self.23, self.22, self.21, self.20, self.19, self.18,
            self.17, self.16, self.15, self.14, self.13, self.12, self.11, self.10,
            self.9, self.8, self.7, self.6, self.5, self.4, self.3, self.2,
            self.1, self.0,
        ])
    }
}

impl<E> TupleOrVec<E> for (
    E, E, E, E, E, E, E, E, E, E, E, E, E, E, E, E,
    E, E, E, E, E, E, E, E, E, E, E, E, E, E, E, E,
    E, E,
) {
    open spec fn as_seq(&self) -> Seq<E> {
        RepeatedTuple::elements(self)
    }

    fn as_vec(self) -> (v: Vec<E>)
        ensures
            v@ == RepeatedTuple::<E>::elements(&self),
            v@.len() == 34,
    {
        RepeatedTuple::to_vec(self)
    }
}

impl<E> RepeatedTuple<E> for (
    E, E, E, E, E, E, E, E, E, E, E, E, E, E, E, E,
    E, E, E, E, E, E, E, E, E, E, E, E, E, E, E, E,
    E, E, E,
) {
    open spec fn arity() -> nat {
        35
    }

    open spec fn elements(&self) -> Seq<E> {
        seq![
            self.0, self.1, self.2, self.3, self.4, self.5, self.6, self.7,
            self.8, self.9, self.10, self.11, self.12, self.13, self.14, self.15,
            self.16, self.17, self.18, self.19, self.20, self.21, self.22, self.23,
            self.24, self.25, self.26, self.27, self.28, self.29, self.30, self.31,
            self.32, self.33, self.34,
        ]
    }

    fn to_boxed_slice_reversed(self) -> (b: Box<[E]>)
        ensures
            b@.len() == 35,
    {
        Box::new([
            self.34, self.33, self.32, self.31, self.30, self.29, self.28, self.27,
            self.26, self.25, self.24, self.23, self.22, self.21, self.20, self.19,
            self.18, self.17, self.16, self.15, self.14, self.13, self.12, self.11,
            self.10, self.9, self.8, self.7, self.6, self.5, self.4, self.3,
            self.2, self.1, self.0,
        ])
    }
}

impl<E> TupleOrVec<E> for (
    E, E, E, E, E, E, E, E, E, E, E, E, E, E, E, E,
    E, E, E, E, E, E, E, E, E, E, E, E, E, E, E, E,
    E, E, E,
) {
    open spec fn as_seq(&self) -> Seq<E> {
        RepeatedTuple::elements(self)
    }

    fn as_vec(self) -> (v: Vec<E>)
        ensures
            v@ == RepeatedTuple::<E>::elements(&self),
            v@.len() == 35,
    {
        RepeatedTuple::to_vec(self)
    }
}

impl<E> RepeatedTuple<E> for (
    E, E, E, E, E, E, E, E, E, E, E, E, E, E, E, E,
    E, E, E, E, E, E, E, E, E, E, E, E, E, E, E, E,
    E, E, E, E,
) {
    open spec fn arity() -> nat {
        36
    }

    open spec fn elements(&self) -> Seq<E> {
        seq![
            self.0, self.1, self.2, self.3, self.4, self.5, self.6, self.7,
            self.8, self.9, self.10, self.11, self.12, self.13, self.14, self.15,
            self.16, self.17, self.18, self.19, self.20, self.21, self.22, self.23,
            self.24, self.25, self.26, self.27, self.28, self.29, self.30, self.31,
            self.32, self.33, self.34, self.35,
        ]
    }

    fn to_boxed_slice_reversed(self) -> (b: Box<[E]>)
        ensures
            b@.len() == 36,
    {
        Box::new([
            self.35, self.34, self.33, self.32, self.31, self.30, self.29, self.28,
            self.27, self.26, self.25, self.24, self.23, self.22, self.21, self.20,
            self.19, self.18, self.17, self.16, self.15, self.14, self.13, self.12,
            self.11, self.10, self.9, self.8, self.7, self.6, self.5, self.4,
            self.3, self.2, self.1, self.0,
        ])
    }
}

impl<E> TupleOrVec<E> for (
    E, E, E, E, E, E, E, E, E, E, E, E, E, E, E, E,
    E, E, E, E, E, E, E, E, E, E, E, E, E, E, E, E,
    E, E, E, E,
) {
    open spec fn as_seq(&self) -> Seq<E> {
        RepeatedTuple::elements(self)
    }

    fn as_vec(self) -> (v: Vec<E>)
        ensures
            v@ == RepeatedTuple::<E>::elements(&self),
            v@.len() == 36,
    {
        RepeatedTuple::to_vec(self)
    }
}

impl<E> RepeatedTuple<E> for (
    E, E, E, E, E, E, E, E, E, E, E, E, E, E, E, E,
    E, E, E, E, E, E, E, E, E, E, E, E, E, E, E, E,
    E, E, E, E, E,
) {
    open spec fn arity() -> nat {
        37
    }

    open spec fn elements(&self) -> Seq<E> {
        seq![
            self.0, self.1, self.2, self.3, self.4, self.5, self.6, self.7,
            self.8, self.9, self.10, self.11, self.12, self.13, self.14, self.15,
            self.16, self.17, self.18, self.19, self.20, self.21, self.22, self.23,
            self.24, self.25, self.26, self.27, self.28, self.29, self.30, self.31,
            self.32, self.33, self.34, self.35, self.36,
        ]
    }

    fn to_boxed_slice_reversed(self) -> (b: Box<[E]>)
        ensures
            b@.len() == 37,
    {
        Box::new([
            self.36, self.35, self.34, self.33, self.32, self.31, self.30, self.29,
            self.28, self.27, self.26, self.25, self.24, self.23, self.22, self.21,
            self.20, self.19, self.18, self.17, self.16, self.15, self.14, self.13,
            self.12, self.11, self.10, self.9, self.8, self.7, self.6, self.5,
            self.4, self.3, self.2, self.1, self.0,
        ])
    }
}

impl<E> TupleOrVec<E> for (
    E, E, E, E, E, E, E, E, E, E, E, E, E, E, E, E,
    E, E, E, E, E, E, E, E, E, E, E, E, E, E, E, E,
    E, E, E, E, E,
) {
    open spec fn as_seq(&self) -> Seq<E> {
        RepeatedTuple::elements(self)
    }

    fn as_vec(self) -> (v: Vec<E>)
        ensures
            v@ == RepeatedTuple::<E>::elements(&self),
            v@.len() == 37,
    {
        RepeatedTuple::to_vec(self)
    }
}

impl<E> RepeatedTuple<E> for (
    E, E, E, E, E, E, E, E, E, E, E, E, E, E, E, E,
    E, E, E, E, E, E, E, E, E, E, E, E, E, E, E, E,
    E, E, E, E, E, E,
) {
    open spec fn arity() -> nat {
        38
    }

    open spec fn elements(&self) -> Seq<E> {
        seq![
            self.0, self.1, self.2, self.3, self.4, self.5, self.6, self.7,
            self.8, self.9, self.10, self.11, self.12, self.13, self.14, self.15,
            self.16, self.17, self.18, self.19, self.20, self.21, self.22, self.23,
            self.24, self.25, self.26, self.27, self.28, self.29, self.30, self.31,
            self.32, self.33, self.34, self.35, self.36, self.37,
        ]
    }

    fn to_boxed_slice_reversed(self) -> (b: Box<[E]>)
        ensures
            b@.len() == 38,
    {
        Box::new([
            self.37, self.36, self.35, self.34, self.33, self.32, self.31, self.30,
            self.29, self.28, self.27, self.26, self.25, self.24, self.23, self.22,
            self.21, self.20, self.19, self.18, self.17, self.16, self.15, self.14,
            self.13, self.12, self.11, self.10, self.9, self.8, self.7, self.6,
            self.5, self.4, self.3, self.2, self.1, self.0,
        ])
    }
}

impl<E> TupleOrVec<E> for (
    E, E, E, E, E, E, E, E, E, E, E, E, E, E, E, E,
    E, E, E, E, E, E, E, E, E, E, E, E, E, E, E, E,
    E, E, E, E, E, E,
) {
    open spec fn as_seq(&self) -> Seq<E> {
        RepeatedTuple::elements(self)
    }

    fn as_vec(self) -> (v: Vec<E>)
        ensures
            v@ == RepeatedTuple::<E>::elements(&self),
            v@.len() == 38,
    {
        RepeatedTuple::to_vec(self)
    }
}

impl<E> RepeatedTuple<E> for (
    E, E, E, E, E, E, E, E, E, E, E, E, E, E, E, E,
    E, E, E, E, E, E, E, E, E, E, E, E, E, E, E, E,
    E, E, E, E, E, E, E,
) {
    open spec fn arity() -> nat {
        39
    }

    open spec fn elements(&self) -> Seq<E> {
        seq![
            self.0, self.1, self.2, self.3, self.4, self.5, self.6, self.7,
            self.8, self.9, self.10, self.11, self.12, self.13, self.14, self.15,
            self.16, self.17, self.18, self.19, self.20, self.21, self.22, self.23,
            self.24, self.25, self.26, self.27, self.28, self.29, self.30, self.31,
            self.32, self.33, self.34, self.35, self.36, self.37, self.38,
        ]
    }

    fn to_boxed_slice_reversed(self) -> (b: Box<[E]>)
        ensures
            b@.len() == 39,
    {
        Box::new([
            self.38, self.37, self.36, self.35, self.34, self.33, self.32, self.31,
            self.30, self.29, self.28, self.27, self.26, self.25, self.24, self.23,
            self.22, self.21, self.20, self.19, self.18, self.17, self.16, self.15,
            self.14, self.13, self.12, self.11, self.10, self.9, self.8, self.7,
            self.6, self.5, self.4, self.3, self.2, self.1, self.0,
        ])
    }
}

impl<E> TupleOrVec<E> for (
    E, E, E, E, E, E, E, E, E, E, E, E, E, E, E, E,
    E, E, E, E, E, E, E, E, E, E, E, E, E, E, E, E,
    E, E, E, E, E, E, E,
) {
    open spec fn as_seq(&self) -> Seq<E> {
        RepeatedTuple::elements(self)
    }

    fn as_vec(self) -> (v: Vec<E>)
        ensures
            v@ == RepeatedTuple::<E>::elements(&self),
            v@.len() == 39,
    {
        RepeatedTuple::to_vec(self)
    }
}

impl<E> RepeatedTuple<E> for (
    E, E, E, E, E, E, E, E, E, E, E, E, E, E, E, E,
    E, E, E, E, E, E, E, E, E, E, E, E, E, E, E, E,
    E, E, E, E, E, E, E, E,
) {
    open spec fn arity() -> nat {
        40
    }

    open spec fn elements(&self) -> Seq<E> {
        seq![
            self.0, self.1, self.2, self.3, self.4, self.5, self.6, self.7,
            self.8, self.9, self.10, self.11, self.12, self.13, self.14, self.15,
            self.16, self.17, self.18, self.19, self.20, self.21, self.22, self.23,
            self.24, self.25, self.26, self.27, self.28, self.29, self.30, self.31,
            self.32, self.33, self.34, self.35, self.36, self.37, self.38, self.39,
        ]
    }

    fn to_boxed_slice_reversed(self) -> (b: Box<[E]>)
        ensures
            b@.len() == 40,
    {
        Box::new([
            self.39, self.38, self.37, self.36, self.35, self.34, self.33, self.32,
            self.31, self.30, self.29, self.28, self.27, self.26, self.25, self.24,
            self.23, self.22, self.21, self.20, self.19, self.18, self.17, self.16,
            self.15, self.14, self.13, self.12, self.11, self.10, self.9, self.8,
            self.7, self.6, self.5, self.4, self.3, self.2, self.1, self.0,
        ])
    }
}

impl<E> TupleOrVec<E> for (
    E, E, E, E, E, E, E, E, E, E, E, E, E, E, E, E,
    E, E, E, E, E, E, E, E, E, E, E, E, E, E, E, E,
    E, E, E, E, E, E, E, E,
) {
    open spec fn as_seq(&self) -> Seq<E> {
        RepeatedTuple::elements(self)
    }

    fn as_vec(self) -> (v: Vec<E>)
        ensures
            v@ == RepeatedTuple::<E>::elements(&self),
            v@.len() == 40,
    {
        RepeatedTuple::to_vec(self)
    }
}

} // verus!
