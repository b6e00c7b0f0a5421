//! Tuples of forty-one to forty-eight elements.

use crate::repeated_tuple::RepeatedTuple;
use crate::tuple_or_vec::TupleOrVec;
use vstd::prelude::*;

verus! {

impl<E> RepeatedTuple<E> for (
    E, E, E, E, E, E, E, E, E, E, E, E, E, E, E, E,
    E, E, E, E, E, E, E, E, E, E, E, E, E, E, E, E,
    E, E, E, E, E, E, E, E, E,
) {
    open spec fn arity() -> nat {
        41
    }

    open spec fn elements(&self) -> Seq<E> {
        seq![
            self.0, self.1, self.2, self.3, self.4, self.5, self.6, self.7,
            self.8, self.9, self.10, self.11, self.12, self.13, self.14, self.15,
            self.16, self.17, self.18, self.19, self.20, self.21, self.22, self.23,
            self.24, self.25, self.26, self.27, self.28, self.29, self.30, self.31,
            self.32, self.33, self.34, self.35, self.36, self.37, self.38, self.39,
            self.40,
        ]
    }

    fn to_boxed_slice_reversed(self) -> (b: Box<[E]>)
        ensures
            b@.len() == 41,
    {
        Box::new([
            self.40, self.39, self.38, self.37, self.36, self.35, self.34, self.33,
            self.32, self.31, self.30, self.29, self.28, self.27, self.26, self.25,
            self.24, self.23, self.22, self.21, self.20, self.19, self.18, self.17,
            self.16, self.15, self.14, self.13, self.12, self.11, self.10, self.9,
            self.8, self.7, self.6, self.5, self.4, self.3, self.2, self.1,
            self.0,
        ])
    }
}

impl<E> TupleOrVec<E> for (
    E, E, E, E, E, E, E, E, E, E, E, E, E, E, E, E,
    E, E, E, E, E, E, E, E, E, E, E, E, E, E, E, E,
    E, E, E, E, E, E, E, E, E,
) {
    open spec fn as_seq(&self) -> Seq<E> {
        RepeatedTuple::elements(self)
    }

    fn as_vec(self) -> (v: Vec<E>)
        ensures
            v@ == RepeatedTuple::<E>::elements(&self),
            v@.len() == 41,
    {
        RepeatedTuple::to_vec(self)
    }
}

impl<E> RepeatedTuple<E> for (
    E, E, E, E, E, E, E, E, E, E, E, E, E, E, E, E,
    E, E, E, E, E, E, E, E, E, E, E, E, E, E, E, E,
    E, E, E, E, E, E, E, E, E, E,
) {
    open spec fn arity() -> nat {
        42
    }

    open spec fn elements(&self) -> Seq<E> {
        seq![
            self.0, self.1, self.2, self.3, self.4, self.5, self.6, self.7,
            self.8, self.9, self.10, self.11, self.12, self.13, self.14, self.15,
            self.16, self.17, self.18, self.19, self.20, self.21, self.22, self.23,
            self.24, self.25, self.26, self.27, self.28, self.29, self.30, self.31,
            self.32, self.33, self.34, self.35, self.36, self.37, self.38, self.39,
            self.40, self.41,
        ]
    }

    fn to_boxed_slice_reversed(self) -> (b: Box<[E]>)
        ensures
            b@.len() == 42,
    {
        Box::new([
            self.41, self.40, self.39, self.38, self.37, self.36, self.35, self.34,
            self.33, self.32, self.31, self.30, self.29, self.28, self.27, self.26,
            self.25, self.24, self.23, self.22, self.21, self.20, self.19, self.18,
            self.17, self.16, self.15, self.14, self.13, self.12, self.11, self.10,
            self.9, self.8, self.7, self.6, self.5, self.4, self.3, self.2,
            self.1, self.0,
        ])
    }
}

impl<E> TupleOrVec<E> for (
    E, E, E, E, E, E, E, E, E, E, E, E, E, E, E, E,
    E, E, E, E, E, E, E, E, E, E, E, E, E, E, E, E,
    E, E, E, E, E, E, E, E, E, E,
) {
    open spec fn as_seq(&self) -> Seq<E> {
        RepeatedTuple::elements(self)
    }

    fn as_vec(self) -> (v: Vec<E>)
        ensures
            v@ == RepeatedTuple::<E>::elements(&self),
            v@.len() == 42,
    {
        RepeatedTuple::to_vec(self)
    }
}

impl<E> RepeatedTuple<E> for (
    E, E, E, E, E, E, E, E, E, E, E, E, E, E, E, E,
    E, E, E, E, E, E, E, E, E, E, E, E, E, E, E, E,
    E, E, E, E, E, E, E, E, E, E, E,
) {
    open spec fn arity() -> nat {
        43
    }

    open spec fn elements(&self) -> Seq<E> {
        seq![
            self.0, self.1, self.2, self.3, self.4, self.5, self.6, self.7,
            self.8, self.9, self.10, self.11, self.12, self.13, self.14, self.15,
            self.16, self.17, self.18, self.19, self.20, self.21, self.22, self.23,
            self.24, self.25, self.26, self.27, self.28, self.29, self.30, self.31,
            self.32, self.33, self.34, self.35, self.36, self.37, self.38, self.39,
            self.40, self.41, self.42,
        ]
    }

    fn to_boxed_slice_reversed(self) -> (b: Box<[E]>)
        ensures
            b@.len() == 43,
    {
        Box::new([
            self.42, self.41, self.40, self.39, self.38, self.37, self.36, self.35,
            self.34, self.33, self.32, self.31, self.30, self.29, self.28, self.27,
            self.26, self.25, self.24, self.23, self.22, self.21, self.20, self.19,
            self.18, self.17, self.16, self.15, self.14, self.13, self.12, self.11,
            self.10, self.9, self.8, self.7, self.6, self.5, self.4, self.3,
            self.2, self.1, self.0,
        ])
    }
}

impl<E> TupleOrVec<E> for (
    E, E, E, E, E, E, E, E, E, E, E, E, E, E, E, E,
    E, E, E, E, E, E, E, E, E, E, E, E, E, E, E, E,
    E, E, E, E, E, E, E, E, E, E, E,
) {
    open spec fn as_seq(&self) -> Seq<E> {
        RepeatedTuple::elements(self)
    }

    fn as_vec(self) -> (v: Vec<E>)
        ensures
            v@ == RepeatedTuple::<E>::elements(&self),
            v@.len() == 43,
    {
        RepeatedTuple::to_vec(self)
    }
}

impl<E> RepeatedTuple<E> for (
    E, E, E, E, E, E, E, E, E, E, E, E, E, E, E, E,
    E, E, E, E, E, E, E, E, E, E, E, E, E, E, E, E,
    E, E, E, E, E, E, E, E, E, E, E, E,
) {
    open spec fn arity() -> nat {
        44
    }

    open spec fn elements(&self) -> Seq<E> {
        seq![
            self.0, self.1, self.2, self.3, self.4, self.5, self.6, self.7,
            self.8, self.9, self.10, self.11, self.12, self.13, self.14, self.15,
            self.16, self.17, self.18, self.19, self.20, self.21, self.22, self.23,
            self.24, self.25, self.26, self.27, self.28, self.29, self.30, self.31,
            self.32, self.33, self.34, self.35, self.36, self.37, self.38, self.39,
            self.40, self.41, self.42, self.43,
        ]
    }

    fn to_boxed_slice_reversed(self) -> (b: Box<[E]>)
        ensures
            b@.len() == 44,
    {
        Box::new([
            self.43, self.42, self.41, self.40, self.39, self.38, self.37, self.36,
            self.35, self.34, self.33, self.32, self.31, self.30, self.29, self.28,
            self.27, self.26, self.25, self.24, self.23, self.22, self.21, self.20,
            self.19, self.18, self.17, self.16, self.15, self.14, self.13, self.12,
            self.11, self.10, self.9, self.8, self.7, self.6, self.5, self.4,
            self.3, self.2, self.1, self.0,
        ])
    }
}

impl<E> TupleOrVec<E> for (
    E, E, E, E, E, E, E, E, E, E, E, E, E, E, E, E,
    E, E, E, E, E, E, E, E, E, E, E, E, E, E, E, E,
    E, E, E, E, E, E, E, E, E, E, E, E,
) {
    open spec fn as_seq(&self) -> Seq<E> {
        RepeatedTuple::elements(self)
    }

    fn as_vec(self) -> (v: Vec<E>)
        ensures
            v@ == RepeatedTuple::<E>::elements(&self),
            v@.len() == 44,
    {
        RepeatedTuple::to_vec(self)
    }
}

impl<E> RepeatedTuple<E> for (
    E, E, E, E, E, E, E, E, E, E, E, E, E, E, E, E,
    E, E, E, E, E, E, E, E, E, E, E, E, E, E, E, E,
    E, E, E, E, E, E, E, E, E, E, E, E, E,
) {
    open spec fn arity() -> nat {
        45
    }

    open spec fn elements(&self) -> Seq<E> {
        seq![
            self.0, self.1, self.2, self.3, self.4, self.5, self.6, self.7,
            self.8, self.9, self.10, self.11, self.12, self.13, self.14, self.15,
            self.16, self.17, self.18, self.19, self.20, self.21, self.22, self.23,
            self.24, self.25, self.26, self.27, self.28, self.29, self.30, self.31,
            self.32, self.33, self.34, self.35, self.36, self.37, self.38, self.39,
            self.40, self.41, self.42, self.43, self.44,
        ]
    }

    fn to_boxed_slice_reversed(self) -> (b: Box<[E]>)
        ensures
            b@.len() == 45,
    {
        Box::new([
            self.44, self.43, self.42, self.41, self.40, self.39, self.38, self.37,
            self.36, self.35, self.34, self.33, self.32, self.31, self.30, self.29,
            self.28, self.27, self.26, self.25, self.24, self.23, self.22, self.21,
            self.20, self.19, self.18, self.17, self.16, self.15, self.14, self.13,
            self.12, self.11, self.10, self.9, self.8, self.7, self.6, self.5,
            self.4, self.3, self.2, self.1, self.0,
        ])
    }
}

impl<E> TupleOrVec<E> for (
    E, E, E, E, E, E, E, E, E, E, E, E, E, E, E, E,
    E, E, E, E, E, E, E, E, E, E, E, E, E, E, E, E,
    E, E, E, E, E, E, E, E, E, E, E, E, E,
) {
    open spec fn as_seq(&self) -> Seq<E> {
        RepeatedTuple::elements(self)
    }

    fn as_vec(self) -> (v: Vec<E>)
        ensures
            v@ == RepeatedTuple::<E>::elements(&self),
            v@.len() == 45,
    {
        RepeatedTuple::to_vec(self)
    }
}

impl<E> RepeatedTuple<E> for (
    E, E, E, E, E, E, E, E, E, E, E, E, E, E, E, E,
    E, E, E, E, E, E, E, E, E, E, E, E, E, E, E, E,
    E, E, E, E, E, E, E, E, E, E, E, E, E, E,
) {
    open spec fn arity() -> nat {
        46
    }

    open spec fn elements(&self) -> Seq<E> {
        seq![
            self.0, self.1, self.2, self.3, self.4, self.5, self.6, self.7,
            self.8, self.9, self.10, self.11, self.12, self.13, self.14, self.15,
            self.16, self.17, self.18, self.19, self.20, self.21, self.22, self.23,
            self.24, self.25, self.26, self.27, self.28, self.29, self.30, self.31,
            self.32, self.33, self.34, self.35, self.36, self.37, self.38, self.39,
            self.40, self.41, self.42, self.43, self.44, self.45,
        ]
    }

    fn to_boxed_slice_reversed(self) -> (b: Box<[E]>)
        ensures
            b@.len() == 46,
    {
        Box::new([
            self.45, self.44, self.43, self.42, self.41, self.40, self.39, self.38,
            self.37, self.36, self.35, self.34, self.33, self.32, self.31, self.30,
            self.29, self.28, self.27, self.26, self.25, self.24, self.23, self.22,
            self.21, self.20, self.19, self.18, self.17, self.16, self.15, self.14,
            self.13, self.12, self.11, self.10, self.9, self.8, self.7, self.6,
            self.5, self.4, self.3, self.2, self.1, self.0,
        ])
    }
}

impl<E> TupleOrVec<E> for (
    E, E, E, E, E, E, E, E, E, E, E, E, E, E, E, E,
    E, E, E, E, E, E, E, E, E, E, E, E, E, E, E, E,
    E, E, E, E, E, E, E, E, E, E, E, E, E, E,
) {
    open spec fn as_seq(&self) -> Seq<E> {
        RepeatedTuple::elements(self)
    }

    fn as_vec(self) -> (v: Vec<E>)
        ensures
            v@ == RepeatedTuple::<E>::elements(&self),
            v@.len() == 46,
    {
        RepeatedTuple::to_vec(self)
    }
}

impl<E> RepeatedTuple<E> for (
    E, E, E, E, E, E, E, E, E, E, E, E, E, E, E, E,
    E, E, E, E, E, E, E, E, E, E, E, E, E, E, E, E,
    E, E, E, E, E, E, E, E, E, E, E, E, E, E, E,
) {
    open spec fn arity() -> nat {
        47
    }

    open spec fn elements(&self) -> Seq<E> {
        seq![
            self.0, self.1, self.2, self.3, self.4, self.5, self.6, self.7,
            self.8, self.9, self.10, self.11, self.12, self.13, self.14, self.15,
            self.16, self.17, self.18, self.19, self.20, self.21, self.22, self.23,
            self.24, self.25, self.26, self.27, self.28, self.29, self.30, self.31,
            self.32, self.33, self.34, self.35, self.36, self.37, self.38, self.39,
            self.40, self.41, self.42, self.43, self.44, self.45, self.46,
        ]
    }

    fn to_boxed_slice_reversed(self) -> (b: Box<[E]>)
        ensures
            b@.len() == 47,
    {
        Box::new([
            self.46, self.45, self.44, self.43, self.42, self.41, self.40, self.39,
            self.38, self.37, self.36, self.35, self.34, self.33, self.32, self.31,
            self.30, self.29, self.28, self.27, self.26, self.25, self.24, self.23,
            self.22, self.21, self.20, self.19, self.18, self.17, self.16, self.15,
            self.14, self.13, self.12, self.11, self.10, self.9, self.8, self.7,
            self.6, self.5, self.4, self.3, self.2, self.1, self.0,
        ])
    }
}

impl<E> TupleOrVec<E> for (
    E, E, E, E, E, E, E, E, E, E, E, E, E, E, E, E,
    E, E, E, E, E, E, E, E, E, E, E, E, E, E, E, E,
    E, E, E, E, E, E, E, E, E, E, E, E, E, E, E,
) {
    open spec fn as_seq(&self) -> Seq<E> {
        RepeatedTuple::elements(self)
    }

    fn as_vec(self) -> (v: Vec<E>)
        ensures
            v@ == RepeatedTuple::<E>::elements(&self),
            v@.len() == 47,
    {
        RepeatedTuple::to_vec(self)
    }
}

impl<E> RepeatedTuple<E> for (
    E, E, E, E, E, E, E, E, E, E, E, E, E, E, E, E,
    E, E, E, E, E, E, E, E, E, E, E, E, E, E, E, E,
    E, E, E, E, E, E, E, E, E, E, E, E, E, E, E, E,
) {
    open spec fn arity() -> nat {
        48
    }

    open spec fn elements(&self) -> Seq<E> {
        seq![
            self.0, self.1, self.2, self.3, self.4, self.5, self.6, self.7,
            self.8, self.9, self.10, self.11, self.12, self.13, self.14, self.15,
            self.16, self.17, self.18, self.19, self.20, self.21, self.22, self.23,
            self.24, self.25, self.26, self.27, self.28, self.29, self.30, self.31,
            self.32, self.33, self.34, self.35, self.36, self.37, self.38, self.39,
            self.40, self.41, self.42, self.43, self.44, self.45, self.46, self.47,
        ]
    }

    fn to_boxed_slice_reversed(self) -> (b: Box<[E]>)
        ensures
            b@.len() == 48,
    {
        Box::new([
            self.47, self.46, self.45, self.44, self.43, self.42, self.41, self.40,
            self.39, self.38, self.37, self.36, self.35, self.34, self.33, self.32,
            self.31, self.30, self.29, self.28, self.27, self.26, self.25, self.24,
            self.23, self.22, self.21, self.20, self.19, self.18, self.17, self.16,
            self.15, self.14, self.13, self.12, self.11, self.10, self.9, self.8,
            self.7, self.6, self.5, self.4, self.3, self.2, self.1, self.0,
        ])
    }
}

impl<E> TupleOrVec<E> for (
    E, E, E, E, E, E, E, E, E, E, E, E, E, E, E, E,
    E, E, E, E, E, E, E, E, E, E, E, E, E, E, E, E,
    E, E, E, E, E, E, E, E, E, E, E, E, E, E, E, E,
) {
    open spec fn as_seq(&self) -> Seq<E> {
        RepeatedTuple::elements(self)
    }

    fn as_vec(self) -> (v: Vec<E>)
        ensures
            v@ == RepeatedTuple::<E>::elements(&self),
            v@.len() == 48,
    {
        RepeatedTuple::to_vec(self)
    }
}

} // verus!
