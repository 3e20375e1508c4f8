//! The dispatcher: from the kind of a function node and the descriptors of
//! its inputs to the descriptor of its output.

use vstd::prelude::*;
use crate::dtype::{DataType, DType, Field, Column, zone_model};
use crate::error::{InferError, Failure};
use crate::kind::{
    FunctionKind, StringFunction, BinaryFunction, TemporalFunction, ListFunction, StructFunction,
};
use crate::rules::{
    index_type, float_type, list_sum_type, dot_type, diff_type, shrink_type, cumsum_type,
    cumprod_type, index_dtype, list_sum, dot, diff, shrink, cumsum, cumprod,
};
use crate::combinators::{
    field_result, renamed_type, join_outcome, zoned, with_dtype, float_dtype, same_type,
    super_type, inner_type_list, inner_super_type_list, cast_tz,
};
use crate::access::{field_at, field_named, field_by_index, field_by_name};

verus! {

/// The kinds whose output is a join over the types of all inputs.
pub open spec fn uses_join(kind: FunctionKind) -> bool {
    kind is Coalesce || kind == FunctionKind::TemporalExpr(TemporalFunction::DateRange) || kind
        == FunctionKind::ListExpr(ListFunction::Concat)
}

/// The output type of a text operation on a column of type `d`.
pub open spec fn string_type(s: StringFunction, d: DType) -> DType {
    match s {
        StringFunction::Contains | StringFunction::EndsWith | StringFunction::StartsWith =>
            DType::Boolean,
        StringFunction::Extract | StringFunction::Zfill | StringFunction::LJust
        | StringFunction::RJust => d,
        StringFunction::ExtractAll => DType::List(Box::new(DType::Utf8)),
        StringFunction::CountMatch => DType::UInt32,
        StringFunction::Strptime(declared) => declared@,
        StringFunction::ConcatVertical | StringFunction::ConcatHorizontal
        | StringFunction::Replace | StringFunction::Uppercase | StringFunction::Lowercase
        | StringFunction::Strip | StringFunction::LStrip | StringFunction::RStrip => DType::Utf8,
        StringFunction::FromRadix => DType::Int32,
    }
}

/// The output type of a temporal operation on a column of type `d`, for
/// the operations that keep the primary input's name and cannot fail.
pub open spec fn temporal_type(t: TemporalFunction, d: DType) -> DType {
    match t {
        TemporalFunction::Year | TemporalFunction::IsoYear => DType::Int32,
        TemporalFunction::Month | TemporalFunction::Quarter | TemporalFunction::Week
        | TemporalFunction::WeekDay | TemporalFunction::Day | TemporalFunction::OrdinalDay
        | TemporalFunction::Hour | TemporalFunction::Minute | TemporalFunction::Second
        | TemporalFunction::Millisecond | TemporalFunction::Microsecond
        | TemporalFunction::Nanosecond => DType::UInt32,
        TemporalFunction::TimeStamp => DType::Int64,
        TemporalFunction::IsLeapYear => DType::Boolean,
        TemporalFunction::Time => DType::Time,
        TemporalFunction::Date => DType::Date,
        TemporalFunction::Combine(tu) => DType::Datetime(tu, None),
        _ => d,
    }
}

/// The output type of a list operation on a column of type `d`, for the
/// operations that look at the primary input alone.
pub open spec fn list_type(l: ListFunction, d: DType) -> DType {
    match l {
        ListFunction::Contains => DType::Boolean,
        ListFunction::Get => d.element(),
        ListFunction::CountMatch => index_type(),
        ListFunction::Sum => list_sum_type(d),
        _ => d,
    }
}

/// The output type of a kind on a primary input of type `d`, for the kinds
/// that keep the primary input's name and cannot fail.
pub open spec fn output_type(kind: FunctionKind, d: DType) -> DType {
    match kind {
        FunctionKind::NullCount | FunctionKind::ArgWhere | FunctionKind::SearchSorted
        | FunctionKind::Cumcount | FunctionKind::ApproxUnique => index_type(),
        FunctionKind::Hash => DType::UInt64,
        FunctionKind::Pow | FunctionKind::Trigonometry | FunctionKind::RollingSkew
        | FunctionKind::Entropy | FunctionKind::Log | FunctionKind::Log1p | FunctionKind::Exp =>
            float_type(d),
        FunctionKind::StringExpr(s) => string_type(s, d),
        FunctionKind::BinaryExpr(_) => DType::Boolean,
        FunctionKind::TemporalExpr(t) => temporal_type(t, d),
        FunctionKind::Sign => DType::Int64,
        FunctionKind::FillNull { super_type } => super_type@,
        FunctionKind::ListExpr(l) => list_type(l, d),
        FunctionKind::Boolean(_) => DType::Boolean,
        FunctionKind::Categorical(_) => DType::Categorical,
        FunctionKind::Cumsum => cumsum_type(d),
        FunctionKind::Cumprod => cumprod_type(d),
        FunctionKind::Diff => diff_type(d),
        FunctionKind::ShrinkType => shrink_type(d),
        FunctionKind::Dot => dot_type(d),
        _ => d,
    }
}

/// What inference gives for a kind whose output no join decides: the
/// sub-field for a struct access, the rewritten point in time for a change
/// of zone, else the primary input's name with the kind's output type.
pub open spec fn inferred(kind: FunctionKind, primary: Column) -> Result<Column, Failure> {
    match kind {
        FunctionKind::StructExpr(StructFunction::FieldByIndex(index)) => field_at(
            primary.dtype,
            index as int,
        ),
        FunctionKind::StructExpr(StructFunction::FieldByName(name)) => field_named(
            primary.dtype,
            name@,
        ),
        FunctionKind::TemporalExpr(TemporalFunction::CastTimezone(tz)) => zoned(
            primary,
            zone_model(tz),
        ),
        FunctionKind::TemporalExpr(TemporalFunction::TzLocalize(tz)) => zoned(primary, Some(tz@)),
        FunctionKind::TemporalExpr(TemporalFunction::Datetime) => zoned(primary, None),
        _ => Ok(Column { name: primary.name, dtype: output_type(kind, primary.dtype) }),
    }
}

/// `r` is a possible result of inference: for a kind that joins, a possible
/// outcome of its fold; for any other kind, the one result that the kind
/// and the primary input determine.
pub open spec fn infer_outcome<F: Fn(&DataType, &DataType) -> Result<DataType, InferError>>(
    kind: FunctionKind,
    inputs: Seq<Field>,
    join: F,
    r: Result<Field, InferError>,
) -> bool {
    if kind == FunctionKind::ListExpr(ListFunction::Concat) {
        join_outcome(join, inputs, true, r)
    } else if uses_join(kind) {
        join_outcome(join, inputs, false, r)
    } else {
        field_result(r) == inferred(kind, inputs[0]@)
    }
}

fn infer_string(s: &StringFunction, inputs: &Vec<Field>) -> (r: Field)
    requires
        inputs.len() > 0,
    ensures
        r@ == renamed_type(inputs@, string_type(*s, inputs[0].dtype@)),
{
    match s {
        StringFunction::Contains | StringFunction::EndsWith | StringFunction::StartsWith => {
            with_dtype(inputs, DataType::Boolean)
        },
        StringFunction::Extract | StringFunction::Zfill | StringFunction::LJust
        | StringFunction::RJust => same_type(inputs),
        StringFunction::ExtractAll => {
            let text = DataType::Utf8;
            assert(text@ == DType::Utf8);
            with_dtype(inputs, DataType::List(Box::new(text)))
        },
        StringFunction::CountMatch => with_dtype(inputs, DataType::UInt32),
        StringFunction::Strptime(declared) => with_dtype(inputs, declared.clone()),
        StringFunction::ConcatVertical | StringFunction::ConcatHorizontal
        | StringFunction::Replace | StringFunction::Uppercase | StringFunction::Lowercase
        | StringFunction::Strip | StringFunction::LStrip | StringFunction::RStrip => with_dtype(
            inputs,
            DataType::Utf8,
        ),
        StringFunction::FromRadix => with_dtype(inputs, DataType::Int32),
    }
}

fn infer_temporal<F: Fn(&DataType, &DataType) -> Result<DataType, InferError>>(
    t: &TemporalFunction,
    inputs: &Vec<Field>,
    join: F,
) -> (r: Result<Field, InferError>)
    requires
        inputs.len() > 0,
        forall|a: &DataType, b: &DataType| join.requires((a, b)),
    ensures
        infer_outcome(FunctionKind::TemporalExpr(*t), inputs@, join, r),
{
    match t {
        TemporalFunction::Year | TemporalFunction::IsoYear => Ok(
            with_dtype(inputs, DataType::Int32),
        ),
        TemporalFunction::Month | TemporalFunction::Quarter | TemporalFunction::Week
        | TemporalFunction::WeekDay | TemporalFunction::Day | TemporalFunction::OrdinalDay
        | TemporalFunction::Hour | TemporalFunction::Minute | TemporalFunction::Second
        | TemporalFunction::Millisecond | TemporalFunction::Microsecond
        | TemporalFunction::Nanosecond => Ok(with_dtype(inputs, DataType::UInt32)),
        TemporalFunction::TimeStamp => Ok(with_dtype(inputs, DataType::Int64)),
        TemporalFunction::IsLeapYear => Ok(with_dtype(inputs, DataType::Boolean)),
        TemporalFunction::Time => Ok(with_dtype(inputs, DataType::Time)),
        TemporalFunction::Date => Ok(with_dtype(inputs, DataType::Date)),
        TemporalFunction::Datetime => cast_tz(inputs, &None),
        TemporalFunction::Truncate | TemporalFunction::Round => Ok(same_type(inputs)),
        TemporalFunction::CastTimezone(tz) => cast_tz(inputs, tz),
        TemporalFunction::TzLocalize(tz) => cast_tz(inputs, &Some(tz.clone())),
        TemporalFunction::DateRange => super_type(inputs, join),
        TemporalFunction::Combine(tu) => Ok(with_dtype(inputs, DataType::Datetime(*tu, None))),
    }
}

fn infer_list<F: Fn(&DataType, &DataType) -> Result<DataType, InferError>>(
    l: &ListFunction,
    inputs: &Vec<Field>,
    join: F,
) -> (r: Result<Field, InferError>)
    requires
        inputs.len() > 0,
        forall|a: &DataType, b: &DataType| join.requires((a, b)),
    ensures
        infer_outcome(FunctionKind::ListExpr(*l), inputs@, join, r),
{
    match l {
        ListFunction::Concat => inner_super_type_list(inputs, join),
        ListFunction::Contains => Ok(with_dtype(inputs, DataType::Boolean)),
        ListFunction::Slice | ListFunction::Take => Ok(same_type(inputs)),
        ListFunction::Get => Ok(inner_type_list(inputs)),
        ListFunction::CountMatch => Ok(with_dtype(inputs, index_dtype())),
        ListFunction::Sum => Ok(with_dtype(inputs, list_sum(&inputs[0].dtype))),
    }
}

/// Infers the output descriptor of a function node from its kind and the
/// descriptors of its inputs, the primary input first. `join` gives the
/// common supertype of two types, or the failure that names them.
pub fn infer<F: Fn(&DataType, &DataType) -> Result<DataType, InferError>>(
    kind: &FunctionKind,
    inputs: &Vec<Field>,
    join: F,
) -> (r: Result<Field, InferError>)
    requires
        inputs.len() > 0,
        forall|a: &DataType, b: &DataType| join.requires((a, b)),
    ensures
        infer_outcome(*kind, inputs@, join, r),
{
    match kind {
        FunctionKind::Abs | FunctionKind::DateOffset | FunctionKind::ShiftAndFill
        | FunctionKind::DropNans | FunctionKind::Clip | FunctionKind::TopK | FunctionKind::Shift
        | FunctionKind::Reverse | FunctionKind::Cummin | FunctionKind::Cummax
        | FunctionKind::Interpolate | FunctionKind::Unique | FunctionKind::Round
        | FunctionKind::Floor | FunctionKind::Ceil | FunctionKind::UpperBound
        | FunctionKind::LowerBound => Ok(same_type(inputs)),
        FunctionKind::NullCount | FunctionKind::ArgWhere | FunctionKind::SearchSorted
        | FunctionKind::Cumcount | FunctionKind::ApproxUnique => Ok(
            with_dtype(inputs, index_dtype()),
        ),
        FunctionKind::Hash => Ok(with_dtype(inputs, DataType::UInt64)),
        FunctionKind::Pow | FunctionKind::Trigonometry | FunctionKind::RollingSkew
        | FunctionKind::Entropy | FunctionKind::Log | FunctionKind::Log1p | FunctionKind::Exp => Ok(
            float_dtype(inputs),
        ),
        FunctionKind::Coalesce => super_type(inputs, join),
        FunctionKind::StringExpr(s) => Ok(infer_string(s, inputs)),
        FunctionKind::BinaryExpr(b) => match b {
            BinaryFunction::Contains | BinaryFunction::EndsWith | BinaryFunction::StartsWith => Ok(
                with_dtype(inputs, DataType::Boolean),
            ),
        },
        FunctionKind::TemporalExpr(t) => infer_temporal(t, inputs, join),
        FunctionKind::Sign => Ok(with_dtype(inputs, DataType::Int64)),
        FunctionKind::FillNull { super_type: declared } => Ok(with_dtype(inputs, declared.clone())),
        FunctionKind::ListExpr(l) => infer_list(l, inputs, join),
        FunctionKind::StructExpr(s) => match s {
            StructFunction::FieldByIndex(index) => field_by_index(inputs, *index),
            StructFunction::FieldByName(name) => field_by_name(inputs, name),
        },
        FunctionKind::Boolean(_) => Ok(with_dtype(inputs, DataType::Boolean)),
        FunctionKind::Categorical(_) => Ok(with_dtype(inputs, DataType::Categorical)),
        FunctionKind::Cumsum => Ok(with_dtype(inputs, cumsum(&inputs[0].dtype))),
        FunctionKind::Cumprod => Ok(with_dtype(inputs, cumprod(&inputs[0].dtype))),
        FunctionKind::Diff => Ok(with_dtype(inputs, diff(&inputs[0].dtype))),
        FunctionKind::ShrinkType => Ok(with_dtype(inputs, shrink(&inputs[0].dtype))),
        FunctionKind::Dot => Ok(with_dtype(inputs, dot(&inputs[0].dtype))),
    }
}

} // verus!
