//! Tuples of forty-nine to fifty-six elements.

use crate::repeated_tuple::RepeatedTuple;
use crate::tuple_or_vec::TupleOrVec;
use vstd::prelude::*;

verus! {

impl<E> RepeatedTuple<E> for (
    E, E, E, E, E, E, E, E, E, E, E, E, E, E, E, E,
    E, E, E, E, E, E, E, E, E, E, E, E, E, E, E, E,
    E, E, E, E, E, E, E, E, E, E, E, E, E, E, E, E,
    E,
) {
    open spec fn arity() -> nat {
        49
    }

    open spec fn elements(&self) -> Seq<E> {
        seq![
            self.0, self.1, self.2, self.3, self.4, self.5, self.6, self.7,
            self.8, self.9, self.10, self.11, self.12, self.13, self.14, self.15,
            self.16, self.17, self.18, self.19, self.20, self.21, self.22, self.23,
            self.24, self.25, self.26, self.27, self.28, self.29, self.30, self.31,
            self.32, self.33, self.34, self.35, self.36, self.37, self.38, self.39,
            self.40, self.41, self.42, self.43, self.44, self.45, self.46, self.47,
            self.48,
        ]
    }

    fn to_boxed_slice_reversed(self) -> (b: Box<[E]>)
        ensures
            b@.len() == 49,
    {
        Box::new([
            self.48, self.47, self.46, self.45, self.44, self.43, self.42, self.41,
            self.40, self.39, self.38, self.37, self.36, self.35, self.34, self.33,
            self.32, self.31, self.30, self.29, self.28, self.27, self.26, self.25,
            self.24, self.23, self.22, self.21, self.20, self.19, self.18, self.17,
            self.16, self.15, self.14, self.13, self.12, self.11, self.10, self.9,
            self.8, self.7, self.6, self.5, self.4, self.3, self.2, self.1,
            self.0,
        ])
    }
}

impl<E> TupleOrVec<E> for (
    E, E, E, E, E, E, E, E, E, E, E, E, E, E, E, E,
    E, E, E, E, E, E, E, E, E, E, E, E, E, E, E, E,
    E, E, E, E, E, E, E, E, E, E, E, E, E, E, E, E,
    E,
) {
    open spec fn as_seq(&self) -> Seq<E> {
        RepeatedTuple::elements(self)
    }

    fn as_vec(self) -> (v: Vec<E>)
        ensures
            v@ == RepeatedTuple::<E>::elements(&self),
            v@.len() == 49,
    {
        RepeatedTuple::to_vec(self)
    }
}

impl<E> RepeatedTuple<E> for (
    E, E, E, E, E, E, E, E, E, E, E, E, E, E, E, E,
    E, E, E, E, E, E, E, E, E, E, E, E, E, E, E, E,
    E, E, E, E, E, E, E, E, E, E, E, E, E, E, E, E,
    E, E,
) {
    open spec fn arity() -> nat {
        50
    }

    open spec fn elements(&self) -> Seq<E> {
        seq![
            self.0, self.1, self.2, self.3, self.4, self.5, self.6, self.7,
            self.8, self.9, self.10, self.11, self.12, self.13, self.14, self.15,
            self.16, self.17, self.18, self.19, self.20, self.21, self.22, self.23,
            self.24, self.25, self.26, self.27, self.28, self.29, self.30, self.31,
            self.32, self.33, self.34, self.35, self.36, self.37, self.38, self.39,
            self.40, self.41, self.42, self.43, self.44, self.45, self.46, self.47,
            self.48, self.49,
        ]
    }

    fn to_boxed_slice_reversed(self) -> (b: Box<[E]>)
        ensures
            b@.len() == 50,
    {
        Box::new([
            self.49, self.48, self.47, self.46, self.45, self.44, self.43, self.42,
            self.41, self.40, self.39, self.38, self.37, self.36, self.35, self.34,
            self.33, self.32, self.31, self.30, self.29, self.28, self.27, self.26,
            self.25, self.24, self.23, self.22, self.21, self.20, self.19, self.18,
            self.17, self.16, self.15, self.14, self.13, self.12, self.11, self.10,
            self.9, self.8, self.7, self.6, self.5, self.4, self.3, self.2,
            self.1, self.0,
        ])
    }
}

impl<E> TupleOrVec<E> for (
    E, E, E, E, E, E, E, E, E, E, E, E, E, E, E, E,
    E, E, E, E, E, E, E, E, E, E, E, E, E, E, E, E,
    E, E, E, E, E, E, E, E, E, E, E, E, E, E, E, E,
    E, E,
) {
    open spec fn as_seq(&self) -> Seq<E> {
        RepeatedTuple::elements(self)
    }

    fn as_vec(self) -> (v: Vec<E>)
        ensures
            v@ == RepeatedTuple::<E>::elements(&self),
            v@.len() == 50,
    {
        RepeatedTuple::to_vec(self)
    }
}

impl<E> RepeatedTuple<E> for (
    E, E, E, E, E, E, E, E, E, E, E, E, E, E, E, E,
    E, E, E, E, E, E, E, E, E, E, E, E, E, E, E, E,
    E, E, E, E, E, E, E, E, E, E, E, E, E, E, E, E,
    E, E, E,
) {
    open spec fn arity() -> nat {
        51
    }

    open spec fn elements(&self) -> Seq<E> {
        seq![
            self.0, self.1, self.2, self.3, self.4, self.5, self.6, self.7,
            self.8, self.9, self.10, self.11, self.12, self.13, self.14, self.15,
            self.16, self.17, self.18, self.19, self.20, self.21, self.22, self.23,
            self.24, self.25, self.26, self.27, self.28, self.29, self.30, self.31,
            self.32, self.33, self.34, self.35, self.36, self.37, self.38, self.39,
            self.40, self.41, self.42, self.43, self.44, self.45, self.46, self.47,
            self.48, self.49, self.50,
        ]
    }

    fn to_boxed_slice_reversed(self) -> (b: Box<[E]>)
        ensures
            b@.len() == 51,
    {
        Box::new([
            self.50, self.49, self.48, self.47, self.46, self.45, self.44, self.43,
            self.42, self.41, self.40, self.39, self.38, self.37, self.36, self.35,
            self.34, self.33, self.32, self.31, self.30, self.29, self.28, self.27,
            self.26, self.25, self.24, self.23, self.22, self.21, self.20, self.19,
            self.18, self.17, self.16, self.15, self.14, self.13, self.12, self.11,
            self.10, self.9, self.8, self.7, self.6, self.5, self.4, self.3,
            self.2, self.1, self.0,
        ])
    }
}

impl<E> TupleOrVec<E> for (
    E, E, E, E, E, E, E, E, E, E, E, E, E, E, E, E,
    E, E, E, E, E, E, E, E, E, E, E, E, E, E, E, E,
    E, E, E, E, E, E, E, E, E, E, E, E, E, E, E, E,
    E, E, E,
) {
    open spec fn as_seq(&self) -> Seq<E> {
        RepeatedTuple::elements(self)
    }

    fn as_vec(self) -> (v: Vec<E>)
        ensures
            v@ == RepeatedTuple::<E>::elements(&self),
            v@.len() == 51,
    {
        RepeatedTuple::to_vec(self)
    }
}

impl<E> RepeatedTuple<E> for (
    E, E, E, E, E, E, E, E, E, E, E, E, E, E, E, E,
    E, E, E, E, E, E, E, E, E, E, E, E, E, E, E, E,
    E, E, E, E, E, E, E, E, E, E, E, E, E, E, E, E,
    E, E, E, E,
) {
    open spec fn arity() -> nat {
        52
    }

    open spec fn elements(&self) -> Seq<E> {
        seq![
            self.0, self.1, self.2, self.3, self.4, self.5, self.6, self.7,
            self.8, self.9, self.10, self.11, self.12, self.13, self.14, self.15,
            self.16, self.17, self.18, self.19, self.20, self.21, self.22, self.23,
            self.24, self.25, self.26, self.27, self.28, self.29, self.30, self.31,
            self.32, self.33, self.34, self.35, self.36, self.37, self.38, self.39,
            self.40, self.41, self.42, self.43, self.44, self.45, self.46, self.47,
            self.48, self.49, self.50, self.51,
        ]
    }

    fn to_boxed_slice_reversed(self) -> (b: Box<[E]>)
        ensures
            b@.len() == 52,
    {
        Box::new([
            self.51, self.50, self.49, self.48, self.47, self.46, self.45, self.44,
            self.43, self.42, self.41, self.40, self.39, self.38, self.37, self.36,
            self.35, self.34, self.33, self.32, self.31, self.30, self.29, self.28,
            self.27, self.26, self.25, self.24, self.23, self.22, self.21, self.20,
            self.19, self.18, self.17, self.16, self.15, self.14, self.13, self.12,
            self.11, self.10, self.9, self.8, self.7, self.6, self.5, self.4,
            self.3, self.2, self.1, self.0,
        ])
    }
}

impl<E> TupleOrVec<E> for (
    E, E, E, E, E, E, E, E, E, E, E, E, E, E, E, E,
    E, E, E, E, E, E, E, E, E, E, E, E, E, E, E, E,
    E, E, E, E, E, E, E, E, E, E, E, E, E, E, E, E,
    E, E, E, E,
) {
    open spec fn as_seq(&self) -> Seq<E> {
        RepeatedTuple::elements(self)
    }

    fn as_vec(self) -> (v: Vec<E>)
        ensures
            v@ == RepeatedTuple::<E>::elements(&self),
            v@.len() == 52,
    {
        RepeatedTuple::to_vec(self)
    }
}

impl<E> RepeatedTuple<E> for (
    E, E, E, E, E, E, E, E, E, E, E, E, E, E, E, E,
    E, E, E, E, E, E, E, E, E, E, E, E, E, E, E, E,
    E, E, E, E, E, E, E, E, E, E, E, E, E, E, E, E,
    E, E, E, E, E,
) {
    open spec fn arity() -> nat {
        53
    }

    open spec fn elements(&self) -> Seq<E> {
        seq![
            self.0, self.1, self.2, self.3, self.4, self.5, self.6, self.7,
            self.8, self.9, self.10, self.11, self.12, self.13, self.14, self.15,
            self.16, self.17, self.18, self.19, self.20, self.21, self.22, self.23,
            self.24, self.25, self.26, self.27, self.28, self.29, self.30, self.31,
            self.32, self.33, self.34, self.35, self.36, self.37, self.38, self.39,
            self.40, self.41, self.42, self.43, self.44, self.45, self.46, self.47,
            self.48, self.49, self.50, self.51, self.52,
        ]
    }

    fn to_boxed_slice_reversed(self) -> (b: Box<[E]>)
        ensures
            b@.len() == 53,
    {
        Box::new([
            self.52, self.51, self.50, self.49, self.48, self.47, self.46, self.45,
            self.44, self.43, self.42, self.41, self.40, self.39, self.38, self.37,
            self.36, self.35, self.34, self.33, self.32, self.31, self.30, self.29,
            self.28, self.27, self.26, self.25, self.24, self.23, self.22, self.21,
            self.20, self.19, self.18, self.17, self.16, self.15, self.14, self.13,
            self.12, self.11, self.10, self.9, self.8, self.7, self.6, self.5,
            self.4, self.3, self.2, self.1, self.0,
        ])
    }
}

impl<E> TupleOrVec<E> for (
    E, E, E, E, E, E, E, E, E, E, E, E, E, E, E, E,
    E, E, E, E, E, E, E, E, E, E, E, E, E, E, E, E,
    E, E, E, E, E, E, E, E, E, E, E, E, E, E, E, E,
    E, E, E, E, E,
) {
    open spec fn as_seq(&self) -> Seq<E> {
        RepeatedTuple::elements(self)
    }

    fn as_vec(self) -> (v: Vec<E>)
        ensures
            v@ == RepeatedTuple::<E>::elements(&self),
            v@.len() == 53,
    {
        RepeatedTuple::to_vec(self)
    }
}

impl<E> RepeatedTuple<E> for (
    E, E, E, E, E, E, E, E, E, E, E, E, E, E, E, E,
    E, E, E, E, E, E, E, E, E, E, E, E, E, E, E, E,
    E, E, E, E, E, E, E, E, E, E, E, E, E, E, E, E,
    E, E, E, E, E, E,
) {
    open spec fn arity() -> nat {
        54
    }

    open spec fn elements(&self) -> Seq<E> {
        seq![
            self.0, self.1, self.2, self.3, self.4, self.5, self.6, self.7,
            self.8, self.9, self.10, self.11, self.12, self.13, self.14, self.15,
            self.16, self.17, self.18, self.19, self.20, self.21, self.22, self.23,
            self.24, self.25, self.26, self.27, self.28, self.29, self.30, self.31,
            self.32, self.33, self.34, self.35, self.36, self.37, self.38, self.39,
            self.40, self.41, self.42, self.43, self.44, self.45, self.46, self.47,
            self.48, self.49, self.50, self.51, self.52, self.53,
        ]
    }

    fn to_boxed_slice_reversed(self) -> (b: Box<[E]>)
        ensures
            b@.len() == 54,
    {
        Box::new([
            self.53, self.52, self.51, self.50, self.49, self.48, self.47, self.46,
            self.45, self.44, self.43, self.42, self.41, self.40, self.39, self.38,
            self.37, self.36, self.35, self.34, self.33, self.32, self.31, self.30,
            self.29, self.28, self.27, self.26, self.25, self.24, self.23, self.22,
            self.21, self.20, self.19, self.18, self.17, self.16, self.15, self.14,
            self.13, self.12, self.11, self.10, self.9, self.8, self.7, self.6,
            self.5, self.4, self.3, self.2, self.1, self.0,
        ])
    }
}

impl<E> TupleOrVec<E> for (
    E, E, E, E, E, E, E, E, E, E, E, E, E, E, E, E,
    E, E, E, E, E, E, E, E, E, E, E, E, E, E, E, E,
    E, E, E, E, E, E, E, E, E, E, E, E, E, E, E, E,
    E, E, E, E, E, E,
) {
    open spec fn as_seq(&self) -> Seq<E> {
        RepeatedTuple::elements(self)
    }

    fn as_vec(self) -> (v: Vec<E>)
        ensures
            v@ == RepeatedTuple::<E>::elements(&self),
            v@.len() == 54,
    {
        RepeatedTuple::to_vec(self)
    }
}

impl<E> RepeatedTuple<E> for (
    E, E, E, E, E, E, E, E, E, E, E, E, E, E, E, E,
    E, E, E, E, E, E, E, E, E, E, E, E, E, E, E, E,
    E, E, E, E, E, E, E, E, E, E, E, E, E, E, E, E,
    E, E, E, E, E, E, E,
) {
    open spec fn arity() -> nat {
        55
    }

    open spec fn elements(&self) -> Seq<E> {
        seq![
            self.0, self.1, self.2, self.3, self.4, self.5, self.6, self.7,
            self.8, self.9, self.10, self.11, self.12, self.13, self.14, self.15,
            self.16, self.17, self.18, self.19, self.20, self.21, self.22, self.23,
            self.24, self.25, self.26, self.27, self.28, self.29, self.30, self.31,
            self.32, self.33, self.34, self.35, self.36, self.37, self.38, self.39,
            self.40, self.41, self.42, self.43, self.44, self.45, self.46, self.47,
            self.48, self.49, self.50, self.51, self.52, self.53, self.54,
        ]
    }

    fn to_boxed_slice_reversed(self) -> (b: Box<[E]>)
        ensures
            b@.len() == 55,
    {
        Box::new([
            self.54, self.53, self.52, self.51, self.50, self.49, self.48, self.47,
            self.46, self.45, self.44, self.43, self.42, self.41, self.40, self.39,
            self.38, self.37, self.36, self.35, self.34, self.33, self.32, self.31,
            self.30, self.29, self.28, self.27, self.26, self.25, self.24, self.23,
            self.22, self.21, self.20, self.19, self.18, self.17, self.16, self.15,
            self.14, self.13, self.12, self.11, self.10, self.9, self.8, self.7,
            self.6, self.5, self.4, self.3, self.2, self.1, self.0,
        ])
    }
}

impl<E> TupleOrVec<E> for (
    E, E, E, E, E, E, E, E, E, E, E, E, E, E, E, E,
    E, E, E, E, E, E, E, E, E, E, E, E, E, E, E, E,
    E, E, E, E, E, E, E, E, E, E, E, E, E, E, E, E,
    E, E, E, E, E, E, E,
) {
    open spec fn as_seq(&self) -> Seq<E> {
        RepeatedTuple::elements(self)
    }

    fn as_vec(self) -> (v: Vec<E>)
        ensures
            v@ == RepeatedTuple::<E>::elements(&self),
            v@.len() == 55,
    {
        RepeatedTuple::to_vec(self)
    }
}

impl<E> RepeatedTuple<E> for (
    E, E, E, E, E, E, E, E, E, E, E, E, E, E, E, E,
    E, E, E, E, E, E, E, E, E, E, E, E, E, E, E, E,
    E, E, E, E, E, E, E, E, E, E, E, E, E, E, E, E,
    E, E, E, E, E, E, E, E,
) {
    open spec fn arity() -> nat {
        56
    }

    open spec fn elements(&self) -> Seq<E> {
        seq![
            self.0, self.1, self.2, self.3, self.4, self.5, self.6, self.7,
            self.8, self.9, self.10, self.11, self.12, self.13, self.14, self.15,
            self.16, self.17, self.18, self.19, self.20, self.21, self.22, self.23,
            self.24, self.25, self.26, self.27, self.28, self.29, self.30, self.31,
            self.32, self.33, self.34, self.35, self.36, self.37, self.38, self.39,
            self.40, self.41, self.42, self.43, self.44, self.45, self.46, self.47,
            self.48, self.49, self.50, self.51, self.52, self.53, self.54, self.55,
        ]
    }

    fn to_boxed_slice_reversed(self) -> (b: Box<[E]>)
        ensures
            b@.len() == 56,
    {
        Box::new([
            self.55, self.54, self.53, self.52, self.51, self.50, self.49, self.48,
            self.47, self.46, self.45, self.44, self.43, self.42, self.41, self.40,
            self.39, self.38, self.37, self.36, self.35, self.34, self.33, self.32,
            self.31, self.30, self.29, self.28, self.27, self.26, self.25, self.24,
            self.23, self.22, self.21, self.20, self.19, self.18, self.17, self.16,
            self.15, self.14, self.13, self.12, self.11, self.10, self.9, self.8,
            self.7, self.6, self.5, self.4, self.3, self.2, self.1, self.0,
        ])
    }
}

impl<E> TupleOrVec<E> for (
    E, E, E, E, E, E, E, E, E, E, E, E, E, E, E, E,
    E, E, E, E, E, E, E, E, E, E, E, E, E, E, E, E,
    E, E, E, E, E, E, E, E, E, E, E, E, E, E, E, E,
    E, E, E, E, E, E, E, E,
) {
    open spec fn as_seq(&self) -> Seq<E> {
        RepeatedTuple::elements(self)
    }

    fn as_vec(self) -> (v: Vec<E>)
        ensures
            v@ == RepeatedTuple::<E>::elements(&self),
            v@.len() == 56,
    {
        RepeatedTuple::to_vec(self)
    }
}

} // verus!
