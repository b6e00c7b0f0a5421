//! Tuples of fifty-seven to sixty-four elements.

use crate::repeated_tuple::RepeatedTuple;
use crate::tuple_or_vec::TupleOrVec;
use vstd::prelude::*;

verus! {

impl<E> RepeatedTuple<E> for (
    E, E, E, E, E, E, E, E, E, E, E, E, E, E, E, E,
    E, E, E, E, E, E, E, E, E, E, E, E, E, E, E, E,
    E, E, E, E, E, E, E, E, E, E, E, E, E, E, E, E,
    E, E, E, E, E, E, E, E, E,
) {
    open spec fn arity() -> nat {
        57
    }

    open spec fn elements(&self) -> Seq<E> {
        seq![
            self.0, self.1, self.2, self.3, self.4, self.5, self.6, self.7,
            self.8, self.9, self.10, self.11, self.12, self.13, self.14, self.15,
            self.16, self.17, self.18, self.19, self.20, self.21, self.22, self.23,
            self.24, self.25, self.26, self.27, self.28, self.29, self.30, self.31,
            self.32, self.33, self.34, self.35, self.36, self.37, self.38, self.39,
            self.40, self.41, self.42, self.43, self.44, self.45, self.46, self.47,
            self.48, self.49, self.50, self.51, self.52, self.53, self.54, self.55,
            self.56,
        ]
    }

    fn to_boxed_slice_reversed(self) -> (b: Box<[E]>)
        ensures
            b@.len() == 57,
    {
        Box::new([
            self.56, self.55, self.54, self.53, self.52, self.51, self.50, self.49,
            self.48, self.47, self.46, self.45, self.44, self.43, self.42, self.41,
            self.40, self.39, self.38, self.37, self.36, self.35, self.34, self.33,
            self.32, self.31, self.30, self.29, self.28, self.27, self.26, self.25,
            self.24, self.23, self.22, self.21, self.20, self.19, self.18, self.17,
            self.16, self.15, self.14, self.13, self.12, self.11, self.10, self.9,
            self.8, self.7, self.6, self.5, self.4, self.3, self.2, self.1,
            self.0,
        ])
    }
}

impl<E> TupleOrVec<E> for (
    E, E, E, E, E, E, E, E, E, E, E, E, E, E, E, E,
    E, E, E, E, E, E, E, E, E, E, E, E, E, E, E, E,
    E, E, E, E, E, E, E, E, E, E, E, E, E, E, E, E,
    E, E, E, E, E, E, E, E, E,
) {
    open spec fn as_seq(&self) -> Seq<E> {
        RepeatedTuple::elements(self)
    }

    fn as_vec(self) -> (v: Vec<E>)
        ensures
            v@ == RepeatedTuple::<E>::elements(&self),
            v@.len() == 57,
    {
        RepeatedTuple::to_vec(self)
    }
}

impl<E> RepeatedTuple<E> for (
    E, E, E, E, E, E, E, E, E, E, E, E, E, E, E, E,
    E, E, E, E, E, E, E, E, E, E, E, E, E, E, E, E,
    E, E, E, E, E, E, E, E, E, E, E, E, E, E, E, E,
    E, E, E, E, E, E, E, E, E, E,
) {
    open spec fn arity() -> nat {
        58
    }

    open spec fn elements(&self) -> Seq<E> {
        seq![
            self.0, self.1, self.2, self.3, self.4, self.5, self.6, self.7,
            self.8, self.9, self.10, self.11, self.12, self.13, self.14, self.15,
            self.16, self.17, self.18, self.19, self.20, self.21, self.22, self.23,
            self.24, self.25, self.26, self.27, self.28, self.29, self.30, self.31,
            self.32, self.33, self.34, self.35, self.36, self.37, self.38, self.39,
            self.40, self.41, self.42, self.43, self.44, self.45, self.46, self.47,
            self.48, self.49, self.50, self.51, self.52, self.53, self.54, self.55,
            self.56, self.57,
        ]
    }

    fn to_boxed_slice_reversed(self) -> (b: Box<[E]>)
        ensures
            b@.len() == 58,
    {
        Box::new([
            self.57, self.56, self.55, self.54, self.53, self.52, self.51, self.50,
            self.49, self.48, self.47, self.46, self.45, self.44, self.43, self.42,
            self.41, self.40, self.39, self.38, self.37, self.36, self.35, self.34,
            self.33, self.32, self.31, self.30, self.29, self.28, self.27, self.26,
            self.25, self.24, self.23, self.22, self.21, self.20, self.19, self.18,
            self.17, self.16, self.15, self.14, self.13, self.12, self.11, self.10,
            self.9, self.8, self.7, self.6, self.5, self.4, self.3, self.2,
            self.1, self.0,
        ])
    }
}

impl<E> TupleOrVec<E> for (
    E, E, E, E, E, E, E, E, E, E, E, E, E, E, E, E,
    E, E, E, E, E, E, E, E, E, E, E, E, E, E, E, E,
    E, E, E, E, E, E, E, E, E, E, E, E, E, E, E, E,
    E, E, E, E, E, E, E, E, E, E,
) {
    open spec fn as_seq(&self) -> Seq<E> {
        RepeatedTuple::elements(self)
    }

    fn as_vec(self) -> (v: Vec<E>)
        ensures
            v@ == RepeatedTuple::<E>::elements(&self),
            v@.len() == 58,
    {
        RepeatedTuple::to_vec(self)
    }
}

impl<E> RepeatedTuple<E> for (
    E, E, E, E, E, E, E, E, E, E, E, E, E, E, E, E,
    E, E, E, E, E, E, E, E, E, E, E, E, E, E, E, E,
    E, E, E, E, E, E, E, E, E, E, E, E, E, E, E, E,
    E, E, E, E, E, E, E, E, E, E, E,
) {
    open spec fn arity() -> nat {
        59
    }

    open spec fn elements(&self) -> Seq<E> {
        seq![
            self.0, self.1, self.2, self.3, self.4, self.5, self.6, self.7,
            self.8, self.9, self.10, self.11, self.12, self.13, self.14, self.15,
            self.16, self.17, self.18, self.19, self.20, self.21, self.22, self.23,
            self.24, self.25, self.26, self.27, self.28, self.29, self.30, self.31,
            self.32, self.33, self.34, self.35, self.36, self.37, self.38, self.39,
            self.40, self.41, self.42, self.43, self.44, self.45, self.46, self.47,
            self.48, self.49, self.50, self.51, self.52, self.53, self.54, self.55,
            self.56, self.57, self.58,
        ]
    }

    fn to_boxed_slice_reversed(self) -> (b: Box<[E]>)
        ensures
            b@.len() == 59,
    {
        Box::new([
            self.58, self.57, self.56, self.55, self.54, self.53, self.52, self.51,
            self.50, self.49, self.48, self.47, self.46, self.45, self.44, self.43,
            self.42, self.41, self.40, self.39, self.38, self.37, self.36, self.35,
            self.34, self.33, self.32, self.31, self.30, self.29, self.28, self.27,
            self.26, self.25, self.24, self.23, self.22, self.21, self.20, self.19,
            self.18, self.17, self.16, self.15, self.14, self.13, self.12, self.11,
            self.10, self.9, self.8, self.7, self.6, self.5, self.4, self.3,
            self.2, self.1, self.0,
        ])
    }
}

impl<E> TupleOrVec<E> for (
    E, E, E, E, E, E, E, E, E, E, E, E, E, E, E, E,
    E, E, E, E, E, E, E, E, E, E, E, E, E, E, E, E,
    E, E, E, E, E, E, E, E, E, E, E, E, E, E, E, E,
    E, E, E, E, E, E, E, E, E, E, E,
) {
    open spec fn as_seq(&self) -> Seq<E> {
        RepeatedTuple::elements(self)
    }

    fn as_vec(self) -> (v: Vec<E>)
        ensures
            v@ == RepeatedTuple::<E>::elements(&self),
            v@.len() == 59,
    {
        RepeatedTuple::to_vec(self)
    }
}

impl<E> RepeatedTuple<E> for (
    E, E, E, E, E, E, E, E, E, E, E, E, E, E, E, E,
    E, E, E, E, E, E, E, E, E, E, E, E, E, E, E, E,
    E, E, E, E, E, E, E, E, E, E, E, E, E, E, E, E,
    E, E, E, E, E, E, E, E, E, E, E, E,
) {
    open spec fn arity() -> nat {
        60
    }

    open spec fn elements(&self) -> Seq<E> {
        seq![
            self.0, self.1, self.2, self.3, self.4, self.5, self.6, self.7,
            self.8, self.9, self.10, self.11, self.12, self.13, self.14, self.15,
            self.16, self.17, self.18, self.19, self.20, self.21, self.22, self.23,
            self.24, self.25, self.26, self.27, self.28, self.29, self.30, self.31,
            self.32, self.33, self.34, self.35, self.36, self.37, self.38, self.39,
            self.40, self.41, self.42, self.43, self.44, self.45, self.46, self.47,
            self.48, self.49, self.50, self.51, self.52, self.53, self.54, self.55,
            self.56, self.57, self.58, self.59,
        ]
    }

    fn to_boxed_slice_reversed(self) -> (b: Box<[E]>)
        ensures
            b@.len() == 60,
    {
        Box::new([
            self.59, self.58, self.57, self.56, self.55, self.54, self.53, self.52,
            self.51, self.50, self.49, self.48, self.47, self.46, self.45, self.44,
            self.43, self.42, self.41, self.40, self.39, self.38, self.37, self.36,
            self.35, self.34, self.33, self.32, self.31, self.30, self.29, self.28,
            self.27, self.26, self.25, self.24, self.23, self.22, self.21, self.20,
            self.19, self.18, self.17, self.16, self.15, self.14, self.13, self.12,
            self.11, self.10, self.9, self.8, self.7, self.6, self.5, self.4,
            self.3, self.2, self.1, self.0,
        ])
    }
}

impl<E> TupleOrVec<E> for (
    E, E, E, E, E, E, E, E, E, E, E, E, E, E, E, E,
    E, E, E, E, E, E, E, E, E, E, E, E, E, E, E, E,
    E, E, E, E, E, E, E, E, E, E, E, E, E, E, E, E,
    E, E, E, E, E, E, E, E, E, E, E, E,
) {
    open spec fn as_seq(&self) -> Seq<E> {
        RepeatedTuple::elements(self)
    }

    fn as_vec(self) -> (v: Vec<E>)
        ensures
            v@ == RepeatedTuple::<E>::elements(&self),
            v@.len() == 60,
    {
        RepeatedTuple::to_vec(self)
    }
}

impl<E> RepeatedTuple<E> for (
    E, E, E, E, E, E, E, E, E, E, E, E, E, E, E, E,
    E, E, E, E, E, E, E, E, E, E, E, E, E, E, E, E,
    E, E, E, E, E, E, E, E, E, E, E, E, E, E, E, E,
    E, E, E, E, E, E, E, E, E, E, E, E, E,
) {
    open spec fn arity() -> nat {
        61
    }

    open spec fn elements(&self) -> Seq<E> {
        seq![
            self.0, self.1, self.2, self.3, self.4, self.5, self.6, self.7,
            self.8, self.9, self.10, self.11, self.12, self.13, self.14, self.15,
            self.16, self.17, self.18, self.19, self.20, self.21, self.22, self.23,
            self.24, self.25, self.26, self.27, self.28, self.29, self.30, self.31,
            self.32, self.33, self.34, self.35, self.36, self.37, self.38, self.39,
            self.40, self.41, self.42, self.43, self.44, self.45, self.46, self.47,
            self.48, self.49, self.50, self.51, self.52, self.53, self.54, self.55,
            self.56, self.57, self.58, self.59, self.60,
        ]
    }

    fn to_boxed_slice_reversed(self) -> (b: Box<[E]>)
        ensures
            b@.len() == 61,
    {
        Box::new([
            self.60, self.59, self.58, self.57, self.56, self.55, self.54, self.53,
            self.52, self.51, self.50, self.49, self.48, self.47, self.46, self.45,
            self.44, self.43, self.42, self.41, self.40, self.39, self.38, self.37,
            self.36, self.35, self.34, self.33, self.32, self.31, self.30, self.29,
            self.28, self.27, self.26, self.25, self.24, self.23, self.22, self.21,
            self.20, self.19, self.18, self.17, self.16, self.15, self.14, self.13,
            self.12, self.11, self.10, self.9, self.8, self.7, self.6, self.5,
            self.4, self.3, self.2, self.1, self.0,
        ])
    }
}

impl<E> TupleOrVec<E> for (
    E, E, E, E, E, E, E, E, E, E, E, E, E, E, E, E,
    E, E, E, E, E, E, E, E, E, E, E, E, E, E, E, E,
    E, E, E, E, E, E, E, E, E, E, E, E, E, E, E, E,
    E, E, E, E, E, E, E, E, E, E, E, E, E,
) {
    open spec fn as_seq(&self) -> Seq<E> {
        RepeatedTuple::elements(self)
    }

    fn as_vec(self) -> (v: Vec<E>)
        ensures
            v@ == RepeatedTuple::<E>::elements(&self),
            v@.len() == 61,
    {
        RepeatedTuple::to_vec(self)
    }
}

impl<E> RepeatedTuple<E> for (
    E, E, E, E, E, E, E, E, E, E, E, E, E, E, E, E,
    E, E, E, E, E, E, E, E, E, E, E, E, E, E, E, E,
    E, E, E, E, E, E, E, E, E, E, E, E, E, E, E, E,
    E, E, E, E, E, E, E, E, E, E, E, E, E, E,
) {
    open spec fn arity() -> nat {
        62
    }

    open spec fn elements(&self) -> Seq<E> {
        seq![
            self.0, self.1, self.2, self.3, self.4, self.5, self.6, self.7,
            self.8, self.9, self.10, self.11, self.12, self.13, self.14, self.15,
            self.16, self.17, self.18, self.19, self.20, self.21, self.22, self.23,
            self.24, self.25, self.26, self.27, self.28, self.29, self.30, self.31,
            self.32, self.33, self.34, self.35, self.36, self.37, self.38, self.39,
            self.40, self.41, self.42, self.43, self.44, self.45, self.46, self.47,
            self.48, self.49, self.50, self.51, self.52, self.53, self.54, self.55,
            self.56, self.57, self.58, self.59, self.60, self.61,
        ]
    }

    fn to_boxed_slice_reversed(self) -> (b: Box<[E]>)
        ensures
            b@.len() == 62,
    {
        Box::new([
            self.61, self.60, self.59, self.58, self.57, self.56, self.55, self.54,
            self.53, self.52, self.51, self.50, self.49, self.48, self.47, self.46,
            self.45, self.44, self.43, self.42, self.41, self.40, self.39, self.38,
            self.37, self.36, self.35, self.34, self.33, self.32, self.31, self.30,
            self.29, self.28, self.27, self.26, self.25, self.24, self.23, self.22,
            self.21, self.20, self.19, self.18, self.17, self.16, self.15, self.14,
            self.13, self.12, self.11, self.10, self.9, self.8, self.7, self.6,
            self.5, self.4, self.3, self.2, self.1, self.0,
        ])
    }
}

impl<E> TupleOrVec<E> for (
    E, E, E, E, E, E, E, E, E, E, E, E, E, E, E, E,
    E, E, E, E, E, E, E, E, E, E, E, E, E, E, E, E,
    E, E, E, E, E, E, E, E, E, E, E, E, E, E, E, E,
    E, E, E, E, E, E, E, E, E, E, E, E, E, E,
) {
    open spec fn as_seq(&self) -> Seq<E> {
        RepeatedTuple::elements(self)
    }

    fn as_vec(self) -> (v: Vec<E>)
        ensures
            v@ == RepeatedTuple::<E>::elements(&self),
            v@.len() == 62,
    {
        RepeatedTuple::to_vec(self)
    }
}

impl<E> RepeatedTuple<E> for (
    E, E, E, E, E, E, E, E, E, E, E, E, E, E, E, E,
    E, E, E, E, E, E, E, E, E, E, E, E, E, E, E, E,
    E, E, E, E, E, E, E, E, E, E, E, E, E, E, E, E,
    E, E, E, E, E, E, E, E, E, E, E, E, E, E, E,
) {
    open spec fn arity() -> nat {
        63
    }

    open spec fn elements(&self) -> Seq<E> {
        seq![
            self.0, self.1, self.2, self.3, self.4, self.5, self.6, self.7,
            self.8, self.9, self.10, self.11, self.12, self.13, self.14, self.15,
            self.16, self.17, self.18, self.19, self.20, self.21, self.22, self.23,
            self.24, self.25, self.26, self.27, self.28, self.29, self.30, self.31,
            self.32, self.33, self.34, self.35, self.36, self.37, self.38, self.39,
            self.40, self.41, self.42, self.43, self.44, self.45, self.46, self.47,
            self.48, self.49, self.50, self.51, self.52, self.53, self.54, self.55,
            self.56, self.57, self.58, self.59, self.60, self.61, self.62,
        ]
    }

    fn to_boxed_slice_reversed(self) -> (b: Box<[E]>)
        ensures
            b@.len() == 63,
    {
        Box::new([
            self.62, self.61, self.60, self.59, self.58, self.57, self.56, self.55,
            self.54, self.53, self.52, self.51, self.50, self.49, self.48, self.47,
            self.46, self.45, self.44, self.43, self.42, self.41, self.40, self.39,
            self.38, self.37, self.36, self.35, self.34, self.33, self.32, self.31,
            self.30, self.29, self.28, self.27, self.26, self.25, self.24, self.23,
            self.22, self.21, self.20, self.19, self.18, self.17, self.16, self.15,
            self.14, self.13, self.12, self.11, self.10, self.9, self.8, self.7,
            self.6, self.5, self.4, self.3, self.2, self.1, self.0,
        ])
    }
}

impl<E> TupleOrVec<E> for (
    E, E, E, E, E, E, E, E, E, E, E, E, E, E, E, E,
    E, E, E, E, E, E, E, E, E, E, E, E, E, E, E, E,
    E, E, E, E, E, E, E, E, E, E, E, E, E, E, E, E,
    E, E, E, E, E, E, E, E, E, E, E, E, E, E, E,
) {
    open spec fn as_seq(&self) -> Seq<E> {
        RepeatedTuple::elements(self)
    }

    fn as_vec(self) -> (v: Vec<E>)
        ensures
            v@ == RepeatedTuple::<E>::elements(&self),
            v@.len() == 63,
    {
        RepeatedTuple::to_vec(self)
    }
}

impl<E> RepeatedTuple<E> for (
    E, E, E, E, E, E, E, E, E, E, E, E, E, E, E, E,
    E, E, E, E, E, E, E, E, E, E, E, E, E, E, E, E,
    E, E, E, E, E, E, E, E, E, E, E, E, E, E, E, E,
    E, E, E, E, E, E, E, E, E, E, E, E, E, E, E, E,
) {
    open spec fn arity() -> nat {
        64
    }

    open spec fn elements(&self) -> Seq<E> {
        seq![
            self.0, self.1, self.2, self.3, self.4, self.5, self.6, self.7,
            self.8, self.9, self.10, self.11, self.12, self.13, self.14, self.15,
            self.16, self.17, self.18, self.19, self.20, self.21, self.22, self.23,
            self.24, self.25, self.26, self.27, self.28, self.29, self.30, self.31,
            self.32, self.33, self.34, self.35, self.36, self.37, self.38, self.39,
            self.40, self.41, self.42, self.43, self.44, self.45, self.46, self.47,
            self.48, self.49, self.50, self.51, self.52, self.53, self.54, self.55,
            self.56, self.57, self.58, self.59, self.60, self.61, self.62, self.63,
        ]
    }

    fn to_boxed_slice_reversed(self) -> (b: Box<[E]>)
        ensures
            b@.len() == 64,
    {
        Box::new([
            self.63, self.62, self.61, self.60, self.59, self.58, self.57, self.56,
            self.55, self.54, self.53, self.52, self.51, self.50, self.49, self.48,
            self.47, self.46, self.45, self.44, self.43, self.42, self.41, self.40,
            self.39, self.38, self.37, self.36, self.35, self.34, self.33, self.32,
            self.31, self.30, self.29, self.28, self.27, self.26, self.25, self.24,
            self.23, self.22, self.21, self.20, self.19, self.18, self.17, self.16,
            self.15, self.14, self.13, self.12, self.11, self.10, self.9, self.8,
            self.7, self.6, self.5, self.4, self.3, self.2, self.1, self.0,
        ])
    }
}

impl<E> TupleOrVec<E> for (
    E, E, E, E, E, E, E, E, E, E, E, E, E, E, E, E,
    E, E, E, E, E, E, E, E, E, E, E, E, E, E, E, E,
    E, E, E, E, E, E, E, E, E, E, E, E, E, E, E, E,
    E, E, E, E, E, E, E, E, E, E, E, E, E, E, E, E,
) {
    open spec fn as_seq(&self) -> Seq<E> {
        RepeatedTuple::elements(self)
    }

    fn as_vec(self) -> (v: Vec<E>)
        ensures
            v@ == RepeatedTuple::<E>::elements(&self),
            v@.len() == 64,
    {
        RepeatedTuple::to_vec(self)
    }
}

} // verus!
