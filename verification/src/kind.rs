//! The kinds of function whose output descriptor is inferred.
//!
//! A kind carries only the parameters that decide the output: a declared
//! type, a time zone, a time unit, the index or name of a struct access.

use vstd::prelude::*;
use crate::dtype::{DataType, TimeUnit};

verus! {

/// Operations on text columns.
#[derive(Debug, PartialEq, Eq)]
pub enum StringFunction {
    Contains,
    EndsWith,
    StartsWith,
    Extract,
    ExtractAll,
    CountMatch,
    Zfill,
    LJust,
    RJust,
    /// Parsing to a temporal type that the caller declares.
    Strptime(DataType),
    ConcatVertical,
    ConcatHorizontal,
    Replace,
    Uppercase,
    Lowercase,
    Strip,
    LStrip,
    RStrip,
    FromRadix,
}

/// Operations on binary columns.
#[derive(Debug, PartialEq, Eq)]
pub enum BinaryFunction {
    Contains,
    EndsWith,
    StartsWith,
}

/// Operations on temporal columns.
#[derive(Debug, PartialEq, Eq)]
pub enum TemporalFunction {
    Year,
    IsoYear,
    Month,
    Quarter,
    Week,
    WeekDay,
    Day,
    OrdinalDay,
    Hour,
    Minute,
    Second,
    Millisecond,
    Microsecond,
    Nanosecond,
    TimeStamp,
    IsLeapYear,
    Time,
    Date,
    /// A point in time put together from its parts, without a zone.
    Datetime,
    Truncate,
    Round,
    /// Moves a point in time to a zone, or clears its zone.
    CastTimezone(Option<String>),
    /// Gives a point in time a zone.
    TzLocalize(String),
    DateRange,
    /// A date and a time combined to a point in time of the given unit.
    Combine(TimeUnit),
}

/// Operations on list columns.
#[derive(Debug, PartialEq, Eq)]
pub enum ListFunction {
    Concat,
    Contains,
    Slice,
    Get,
    Take,
    CountMatch,
    Sum,
}

/// Access to the sub-fields of a struct column.
#[derive(Debug, PartialEq, Eq)]
pub enum StructFunction {
    FieldByIndex(i64),
    FieldByName(String),
}

/// Predicates and boolean reductions.
#[derive(Debug, PartialEq, Eq)]
pub enum BooleanFunction {
    All,
    Any,
    IsNot,
    IsNull,
    IsNotNull,
    IsFinite,
    IsInfinite,
    IsNan,
    IsNotNan,
    IsFirst,
    IsUnique,
    IsDuplicated,
    IsIn,
}

/// Operations on categorical columns.
#[derive(Debug, PartialEq, Eq)]
pub enum CategoricalFunction {
    SetOrdering,
}

/// The kind of a function node.
#[derive(Debug, PartialEq, Eq)]
pub enum FunctionKind {
    Abs,
    NullCount,
    Pow,
    Coalesce,
    Hash,
    ArgWhere,
    SearchSorted,
    StringExpr(StringFunction),
    BinaryExpr(BinaryFunction),
    TemporalExpr(TemporalFunction),
    DateOffset,
    Trigonometry,
    Sign,
    /// Filling nulls, with the supertype that the caller declares.
    FillNull { super_type: DataType },
    RollingSkew,
    ShiftAndFill,
    DropNans,
    Clip,
    ListExpr(ListFunction),
    StructExpr(StructFunction),
    TopK,
    Shift,
    Reverse,
    Boolean(BooleanFunction),
    Categorical(CategoricalFunction),
    Cumcount,
    Cumsum,
    Cumprod,
    Cummin,
    Cummax,
    ApproxUnique,
    Diff,
    Interpolate,
    ShrinkType,
    Dot,
    Entropy,
    Log,
    Log1p,
    Exp,
    Unique,
    Round,
    Floor,
    Ceil,
    UpperBound,
    LowerBound,
}

} // verus!
