//! Conversions from tuples to vectors and boxed slices.
//!
//! A function that wants a small, varying number of arguments of one type
//! usually takes a `Vec<E>`, and its callers write `vec![..]` over and over,
//! most of all where the arguments nest. With [`RepeatedTuple`] a tuple whose
//! elements all have the type `E` converts into a `Vec<E>` or a `Box<[E]>`,
//! forwards or backwards; with [`TupleOrVec`] a function accepts a tuple or
//! a vector alike and calls `as_vec` on what it was given.
//!
//! Both traits are implemented for the tuples of one up to sixty-four
//! elements; `TupleOrVec` is implemented for `Vec<E>` as well. A longer tuple,
//! or one whose elements differ in type, implements neither, so passing one
//! does not compile.
//!
//! Every conversion is total and keeps every element: the contracts give the
//! exact sequence that comes out, and with it the length.
//!
//! The forward conversions build the reversed buffer first and reverse it in
//! place, which costs one more pass over the elements than the reversed
//! conversions do.

pub mod repeated_tuple;
pub mod tuple_or_vec;
mod tuples;

pub use repeated_tuple::RepeatedTuple;
pub use tuple_or_vec::TupleOrVec;
