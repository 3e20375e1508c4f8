//! The ways in which inference fails.

use vstd::prelude::*;
use crate::dtype::{DataType, DType};

verus! {

/// A static schema error of the query under construction.
#[derive(Debug, PartialEq, Eq)]
pub enum InferError {
    /// The primary input has the wrong kind of type.
    TypeMismatch { expected: String, actual: DataType },
    /// A positional struct access fell outside the struct.
    IndexOutOfBounds { index: i64, length: usize },
    /// A struct has no sub-field of the given name.
    FieldNotFound(String),
    /// Two types have no common supertype.
    NoCommonSupertype(DataType, DataType),
}

/// Mathematical model of an [`InferError`].
pub enum Failure {
    TypeMismatch { expected: Seq<char>, actual: DType },
    IndexOutOfBounds { index: int, length: nat },
    FieldNotFound(Seq<char>),
    NoCommonSupertype(DType, DType),
}

impl View for InferError {
    type V = Failure;

    open spec fn view(&self) -> Failure {
        match *self {
            InferError::TypeMismatch { expected, actual } => Failure::TypeMismatch {
                expected: expected@,
                actual: actual@,
            },
            InferError::IndexOutOfBounds { index, length } => Failure::IndexOutOfBounds {
                index: index as int,
                length: length as nat,
            },
            InferError::FieldNotFound(name) => Failure::FieldNotFound(name@),
            InferError::NoCommonSupertype(a, b) => Failure::NoCommonSupertype(a@, b@),
        }
    }
}

/// The word by which a mismatch names the temporal kind it wanted.
pub open spec fn datetime_word() -> Seq<char> {
    "Datetime"@
}

} // verus!
