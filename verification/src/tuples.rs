//! `RepeatedTuple` and `TupleOrVec` for the tuples of one up to sixty-four
//! elements of a single type, eight tuple lengths to a module. Longer tuples
//! have no implementation.

mod arity_1_to_8;
mod arity_9_to_16;
mod arity_17_to_24;
mod arity_25_to_32;
mod arity_33_to_40;
mod arity_41_to_48;
mod arity_49_to_56;
mod arity_57_to_64;
