//! Static schema inference for the function nodes of a lazy query plan.
//!
//! Every function node of an expression tree is given one output column
//! descriptor, a name and a logical type, from the descriptors of its inputs
//! and the kind of function applied. Nothing is computed on data.

pub mod dtype;
pub mod error;
pub mod rules;
pub mod combinators;
pub mod access;
pub mod kind;
pub mod capability;
pub mod infer;
pub mod laws;
