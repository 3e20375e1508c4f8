//! The type-to-type rules of the function kinds that look at one input type.
//!
//! Each rule is a total function on type models, with an executable
//! counterpart proved equal to it.

use vstd::prelude::*;
use crate::dtype::{DataType, DType, TimeUnit};

verus! {

/// The unsigned integer type that counts and positions are reported in.
pub open spec fn index_type() -> DType {
    DType::UInt32
}

/// Floating point semantics: 32-bit floats stay, all else becomes a 64-bit
/// float.
pub open spec fn float_type(d: DType) -> DType {
    match d {
        DType::Float32 => DType::Float32,
        _ => DType::Float64,
    }
}

/// The integer types too narrow to hold a sum of their own values.
pub open spec fn is_narrow_integer(d: DType) -> bool {
    d is UInt8 || d is Int8 || d is Int16 || d is UInt16
}

/// Summing a list: the element type, with narrow integers widened to a
/// 64-bit signed integer.
pub open spec fn list_sum_type(d: DType) -> DType {
    if is_narrow_integer(d.element()) {
        DType::Int64
    } else {
        d.element()
    }
}

/// Dot product: narrow integers widen to a 64-bit signed integer.
pub open spec fn dot_type(d: DType) -> DType {
    if is_narrow_integer(d) {
        DType::Int64
    } else {
        d
    }
}

/// Differences: points in time give durations, unsigned integers the next
/// signed width that holds a negative result.
pub open spec fn diff_type(d: DType) -> DType {
    match d {
        DType::Datetime(tu, _) => DType::Duration(tu),
        DType::Date => DType::Duration(TimeUnit::Milliseconds),
        DType::Time => DType::Duration(TimeUnit::Nanoseconds),
        DType::UInt64 => DType::Int64,
        DType::UInt32 => DType::Int64,
        DType::UInt16 => DType::Int32,
        DType::UInt8 => DType::Int16,
        other => other,
    }
}

/// The smallest type a shrink may give: an estimate made before any value
/// is seen. Unsigned integers are reported as the narrow signed type and
/// signed integers as the narrow unsigned one.
pub open spec fn shrink_type(d: DType) -> DType {
    if d.is_float() {
        DType::Float32
    } else if d.is_unsigned() {
        DType::Int8
    } else if d.is_signed() {
        DType::UInt8
    } else {
        d
    }
}

/// The types that stand for another physical type and keep themselves
/// under a running sum.
pub open spec fn is_logical(d: DType) -> bool {
    d is Date || d is Time || d is Datetime || d is Duration || d is Categorical
}

/// Running sum: wide enough for the accumulated total.
pub open spec fn cumsum_type(d: DType) -> DType {
    if is_logical(d) {
        d
    } else {
        match d {
            DType::Boolean => DType::UInt32,
            DType::Int32 => DType::Int32,
            DType::UInt32 => DType::UInt32,
            DType::UInt64 => DType::UInt64,
            DType::Float32 => DType::Float32,
            DType::Float64 => DType::Float64,
            _ => DType::Int64,
        }
    }
}

/// Running product: wide enough for the accumulated total.
pub open spec fn cumprod_type(d: DType) -> DType {
    match d {
        DType::UInt64 => DType::UInt64,
        DType::Float32 => DType::Float32,
        DType::Float64 => DType::Float64,
        _ => DType::Int64,
    }
}

pub fn index_dtype() -> (r: DataType)
    ensures
        r@ == index_type(),
{
    DataType::UInt32
}

pub fn float_of(d: &DataType) -> (r: DataType)
    ensures
        r@ == float_type(d@),
{
    match d {
        DataType::Float32 => DataType::Float32,
        _ => DataType::Float64,
    }
}

/// The element type of a list, copied; `Unknown` for anything that is no
/// list.
pub fn element_of(d: &DataType) -> (r: DataType)
    ensures
        r@ == d@.element(),
{
    match d.inner_dtype() {
        Some(inner) => inner.clone(),
        None => DataType::Unknown,
    }
}

pub fn list_sum(d: &DataType) -> (r: DataType)
    ensures
        r@ == list_sum_type(d@),
{
    let elem = element_of(d);
    match elem {
        DataType::UInt8 | DataType::Int8 | DataType::Int16 | DataType::UInt16 => DataType::Int64,
        other => other,
    }
}

pub fn dot(d: &DataType) -> (r: DataType)
    ensures
        r@ == dot_type(d@),
{
    match d {
        DataType::Int8 | DataType::Int16 | DataType::UInt16 | DataType::UInt8 => DataType::Int64,
        other => other.clone(),
    }
}

pub fn diff(d: &DataType) -> (r: DataType)
    ensures
        r@ == diff_type(d@),
{
    match d {
        DataType::Datetime(tu, _) => DataType::Duration(*tu),
        DataType::Date => DataType::Duration(TimeUnit::Milliseconds),
        DataType::Time => DataType::Duration(TimeUnit::Nanoseconds),
        DataType::UInt64 | DataType::UInt32 => DataType::Int64,
        DataType::UInt16 => DataType::Int32,
        DataType::UInt8 => DataType::Int16,
        other => other.clone(),
    }
}

pub fn shrink(d: &DataType) -> (r: DataType)
    ensures
        r@ == shrink_type(d@),
{
    if d.is_numeric() {
        if d.is_float() {
            DataType::Float32
        } else if d.is_unsigned() {
            DataType::Int8
        } else {
            DataType::UInt8
        }
    } else {
        d.clone()
    }
}

pub fn cumsum(d: &DataType) -> (r: DataType)
    ensures
        r@ == cumsum_type(d@),
{
    match d {
        DataType::Boolean => DataType::UInt32,
        DataType::Int32 => DataType::Int32,
        DataType::UInt32 => DataType::UInt32,
        DataType::UInt64 => DataType::UInt64,
        DataType::Float32 => DataType::Float32,
        DataType::Float64 => DataType::Float64,
        DataType::Date | DataType::Time | DataType::Datetime(_, _) | DataType::Duration(_)
        | DataType::Categorical => d.clone(),
        _ => DataType::Int64,
    }
}

pub fn cumprod(d: &DataType) -> (r: DataType)
    ensures
        r@ == cumprod_type(d@),
{
    match d {
        DataType::UInt64 => DataType::UInt64,
        DataType::Float32 => DataType::Float32,
        DataType::Float64 => DataType::Float64,
        _ => DataType::Int64,
    }
}

} // verus!
