use schema_infer::access::{field_by_index, field_by_name, resolve_index};
use schema_infer::capability::{Capability, CapabilitySet};
use schema_infer::combinators::{
    cast_tz, float_dtype, fold_join, inner_super_type_list, inner_type_list, map_dtype, same_type,
    super_type, try_map_dtype, try_map_dtypes, with_dtype, with_joined,
};
use schema_infer::dtype::{DataType, Field, TimeUnit};
use schema_infer::error::InferError;
use schema_infer::infer::infer;
use schema_infer::kind::{
    BinaryFunction, BooleanFunction, CategoricalFunction, FunctionKind, ListFunction,
    StringFunction, StructFunction, TemporalFunction,
};
use schema_infer::rules::{cumprod, cumsum, diff, dot, index_dtype, list_sum, shrink};

fn field(name: &str, dtype: DataType) -> Field {
    Field::new(name, dtype)
}

fn list(inner: DataType) -> DataType {
    DataType::List(Box::new(inner))
}

fn rank(d: &DataType) -> Option<u8> {
    match d {
        DataType::Int8 => Some(1),
        DataType::Int16 => Some(2),
        DataType::Int32 => Some(3),
        DataType::Int64 => Some(4),
        DataType::Float32 => Some(5),
        DataType::Float64 => Some(6),
        _ => None,
    }
}

/// A join for the tests: equal types join to themselves, signed integers
/// and floats to the wider of the two, anything else fails.
fn widen(a: &DataType, b: &DataType) -> Result<DataType, InferError> {
    if a == b {
        return Ok(a.clone());
    }
    match (rank(a), rank(b)) {
        (Some(x), Some(y)) => Ok(if x >= y { a.clone() } else { b.clone() }),
        _ => Err(InferError::NoCommonSupertype(a.clone(), b.clone())),
    }
}

fn never(_: &DataType, _: &DataType) -> Result<DataType, InferError> {
    panic!("no join is made for this kind")
}

fn three_fields() -> DataType {
    DataType::Struct(vec![
        field("a", DataType::Int32),
        field("b", DataType::Utf8),
        field("c", DataType::Boolean),
    ])
}

#[test]
fn power_of_an_integer_is_a_wide_float() {
    let inputs = vec![field("a", DataType::Int32)];
    assert_eq!(infer(&FunctionKind::Pow, &inputs, never), Ok(field("a", DataType::Float64)));
}

#[test]
fn list_sum_of_narrow_unsigned_is_wide_signed() {
    let inputs = vec![field("x", list(DataType::UInt8))];
    let kind = FunctionKind::ListExpr(ListFunction::Sum);
    assert_eq!(infer(&kind, &inputs, never), Ok(field("x", DataType::Int64)));
}

#[test]
fn struct_field_by_name_takes_the_sub_field() {
    let dtype = DataType::Struct(vec![field("a", DataType::Int32), field("b", DataType::Utf8)]);
    let inputs = vec![field("s", dtype)];
    let kind = FunctionKind::StructExpr(StructFunction::FieldByName("b".to_string()));
    assert_eq!(infer(&kind, &inputs, never), Ok(field("b", DataType::Utf8)));
}

#[test]
fn cast_timezone_to_none_clears_the_zone() {
    let inputs =
        vec![field("t", DataType::Datetime(TimeUnit::Milliseconds, Some("UTC".to_string())))];
    let kind = FunctionKind::TemporalExpr(TemporalFunction::CastTimezone(None));
    assert_eq!(
        infer(&kind, &inputs, never),
        Ok(field("t", DataType::Datetime(TimeUnit::Milliseconds, None)))
    );
}

#[test]
fn coalesce_joins_to_the_wider_integer() {
    let inputs = vec![field("a", DataType::Int32), field("b", DataType::Int64)];
    assert_eq!(infer(&FunctionKind::Coalesce, &inputs, widen), Ok(field("a", DataType::Int64)));
}

#[test]
fn shrink_of_a_wide_float_is_a_narrow_float() {
    let inputs = vec![field("v", DataType::Float64)];
    assert_eq!(infer(&FunctionKind::ShrinkType, &inputs, never), Ok(field("v", DataType::Float32)));
}

#[test]
fn infer_gives_the_same_result_when_repeated() {
    let inputs = vec![field("a", DataType::Int8), field("b", DataType::Float32)];
    let kinds = vec![
        FunctionKind::Coalesce,
        FunctionKind::Diff,
        FunctionKind::ListExpr(ListFunction::Concat),
        FunctionKind::StructExpr(StructFunction::FieldByIndex(0)),
    ];
    for kind in &kinds {
        assert_eq!(infer(kind, &inputs, widen), infer(kind, &inputs, widen));
    }
}

#[test]
fn same_type_returns_the_primary_input() {
    let inputs = vec![field("p", three_fields()), field("q", DataType::Utf8)];
    assert_eq!(same_type(&inputs), field("p", three_fields()));
    assert_eq!(infer(&FunctionKind::Abs, &inputs, never), Ok(field("p", three_fields())));
}

#[test]
fn super_type_does_not_depend_on_the_order_of_types() {
    let one = vec![
        field("a", DataType::Int8),
        field("b", DataType::Float32),
        field("c", DataType::Int64),
    ];
    let two = vec![
        field("a", DataType::Int64),
        field("b", DataType::Int8),
        field("c", DataType::Float32),
    ];
    assert_eq!(super_type(&one, widen), Ok(field("a", DataType::Float32)));
    assert_eq!(super_type(&two, widen), Ok(field("a", DataType::Float32)));
}

#[test]
fn super_type_reports_the_first_pair_that_fails() {
    let inputs = vec![
        field("a", DataType::Int8),
        field("b", DataType::Int16),
        field("c", DataType::Utf8),
        field("d", DataType::Boolean),
    ];
    assert_eq!(
        super_type(&inputs, widen),
        Err(InferError::NoCommonSupertype(DataType::Int16, DataType::Utf8))
    );
}

#[test]
fn super_type_of_one_input_makes_no_join() {
    let inputs = vec![field("a", DataType::Utf8)];
    assert_eq!(super_type(&inputs, never), Ok(field("a", DataType::Utf8)));
    assert_eq!(fold_join(&inputs, false, never), Ok(DataType::Utf8));
}

#[test]
fn date_range_joins_its_endpoints() {
    let inputs = vec![field("lo", DataType::Int16), field("hi", DataType::Int32)];
    let kind = FunctionKind::TemporalExpr(TemporalFunction::DateRange);
    assert_eq!(infer(&kind, &inputs, widen), Ok(field("lo", DataType::Int32)));
}

#[test]
fn list_sum_unwraps_the_element_type() {
    assert_eq!(list_sum(&list(DataType::UInt8)), DataType::Int64);
    assert_eq!(list_sum(&list(DataType::Int8)), DataType::Int64);
    assert_eq!(list_sum(&list(DataType::Int16)), DataType::Int64);
    assert_eq!(list_sum(&list(DataType::UInt16)), DataType::Int64);
    assert_eq!(list_sum(&list(DataType::Float32)), DataType::Float32);
    assert_eq!(list_sum(&list(DataType::UInt32)), DataType::UInt32);
    assert_eq!(list_sum(&list(list(DataType::Int8))), list(DataType::Int8));
    assert_eq!(list_sum(&DataType::Int32), DataType::Unknown);
}

#[test]
fn shrink_gives_the_smallest_estimate() {
    assert_eq!(shrink(&DataType::Float64), DataType::Float32);
    assert_eq!(shrink(&DataType::Float32), DataType::Float32);
    assert_eq!(shrink(&DataType::UInt32), DataType::Int8);
    assert_eq!(shrink(&DataType::UInt8), DataType::Int8);
    assert_eq!(shrink(&DataType::Int32), DataType::UInt8);
    assert_eq!(shrink(&DataType::Int64), DataType::UInt8);
    assert_eq!(shrink(&DataType::Utf8), DataType::Utf8);
    assert_eq!(shrink(&DataType::Boolean), DataType::Boolean);
    assert_eq!(shrink(&list(DataType::Int32)), list(DataType::Int32));
}

#[test]
fn struct_field_by_index_counts_from_the_end() {
    let inputs = vec![field("s", three_fields())];
    assert_eq!(field_by_index(&inputs, -1), Ok(field("c", DataType::Boolean)));
    assert_eq!(field_by_index(&inputs, -3), Ok(field("a", DataType::Int32)));
    assert_eq!(field_by_index(&inputs, 0), Ok(field("a", DataType::Int32)));
    assert_eq!(field_by_index(&inputs, 2), Ok(field("c", DataType::Boolean)));
    let kind = FunctionKind::StructExpr(StructFunction::FieldByIndex(-2));
    assert_eq!(infer(&kind, &inputs, never), Ok(field("b", DataType::Utf8)));
}

#[test]
fn struct_field_by_index_outside_fails() {
    let inputs = vec![field("s", three_fields())];
    assert_eq!(
        field_by_index(&inputs, 5),
        Err(InferError::IndexOutOfBounds { index: 5, length: 3 })
    );
    assert_eq!(
        field_by_index(&inputs, 3),
        Err(InferError::IndexOutOfBounds { index: 3, length: 3 })
    );
    assert_eq!(
        field_by_index(&inputs, -4),
        Err(InferError::IndexOutOfBounds { index: -4, length: 3 })
    );
    assert_eq!(
        field_by_index(&inputs, i64::MIN),
        Err(InferError::IndexOutOfBounds { index: i64::MIN, length: 3 })
    );
    let plain = vec![field("s", DataType::Utf8)];
    assert_eq!(
        field_by_index(&plain, 0),
        Err(InferError::IndexOutOfBounds { index: 0, length: 0 })
    );
}

#[test]
fn resolve_index_wraps_negative_indices() {
    assert_eq!(resolve_index(0, 3), Some(0));
    assert_eq!(resolve_index(2, 3), Some(2));
    assert_eq!(resolve_index(3, 3), None);
    assert_eq!(resolve_index(-1, 3), Some(2));
    assert_eq!(resolve_index(-3, 3), Some(0));
    assert_eq!(resolve_index(-4, 3), None);
    assert_eq!(resolve_index(0, 0), None);
    assert_eq!(resolve_index(-1, 0), None);
    assert_eq!(resolve_index(i64::MAX, 3), None);
    assert_eq!(resolve_index(i64::MIN, 3), None);
}

#[test]
fn struct_field_by_name_absent_fails() {
    let inputs = vec![field("s", three_fields())];
    assert_eq!(
        field_by_name(&inputs, &"z".to_string()),
        Err(InferError::FieldNotFound("z".to_string()))
    );
    let plain = vec![field("s", DataType::Int32)];
    assert_eq!(
        field_by_name(&plain, &"a".to_string()),
        Err(InferError::FieldNotFound("a".to_string()))
    );
    let kind = FunctionKind::StructExpr(StructFunction::FieldByName("s".to_string()));
    assert_eq!(infer(&kind, &inputs, never), Err(InferError::FieldNotFound("s".to_string())));
}

#[test]
fn struct_field_by_name_takes_the_first_match() {
    let dtype = DataType::Struct(vec![
        field("k", DataType::Int8),
        field("v", DataType::Utf8),
        field("v", DataType::Boolean),
    ]);
    let inputs = vec![field("s", dtype)];
    assert_eq!(field_by_name(&inputs, &"v".to_string()), Ok(field("v", DataType::Utf8)));
}

#[test]
fn diff_of_a_datetime_is_a_duration_of_its_unit() {
    let zoned = DataType::Datetime(TimeUnit::Microseconds, Some("Europe/Vienna".to_string()));
    assert_eq!(diff(&zoned), DataType::Duration(TimeUnit::Microseconds));
    let bare = DataType::Datetime(TimeUnit::Microseconds, None);
    assert_eq!(diff(&bare), DataType::Duration(TimeUnit::Microseconds));
    let inputs = vec![field("t", DataType::Datetime(TimeUnit::Nanoseconds, None))];
    assert_eq!(
        infer(&FunctionKind::Diff, &inputs, never),
        Ok(field("t", DataType::Duration(TimeUnit::Nanoseconds)))
    );
}

#[test]
fn diff_widens_unsigned_to_signed() {
    assert_eq!(diff(&DataType::Date), DataType::Duration(TimeUnit::Milliseconds));
    assert_eq!(diff(&DataType::Time), DataType::Duration(TimeUnit::Nanoseconds));
    assert_eq!(diff(&DataType::UInt64), DataType::Int64);
    assert_eq!(diff(&DataType::UInt32), DataType::Int64);
    assert_eq!(diff(&DataType::UInt16), DataType::Int32);
    assert_eq!(diff(&DataType::UInt8), DataType::Int16);
    assert_eq!(diff(&DataType::Int8), DataType::Int8);
    assert_eq!(diff(&DataType::Float64), DataType::Float64);
    assert_eq!(diff(&DataType::Utf8), DataType::Utf8);
}

#[test]
fn cast_timezone_of_text_is_a_mismatch() {
    let inputs = vec![field("t", DataType::Utf8)];
    let expected = Err(InferError::TypeMismatch {
        expected: "Datetime".to_string(),
        actual: DataType::Utf8,
    });
    assert_eq!(cast_tz(&inputs, &Some("UTC".to_string())), expected);
    let kind = FunctionKind::TemporalExpr(TemporalFunction::CastTimezone(None));
    assert_eq!(infer(&kind, &inputs, never), expected);
    let kind = FunctionKind::TemporalExpr(TemporalFunction::TzLocalize("UTC".to_string()));
    assert_eq!(infer(&kind, &inputs, never), expected);
}

#[test]
fn cast_timezone_rewrites_the_zone_and_keeps_the_unit() {
    let inputs =
        vec![field("t", DataType::Datetime(TimeUnit::Nanoseconds, Some("UTC".to_string())))];
    assert_eq!(
        cast_tz(&inputs, &Some("Asia/Tokyo".to_string())),
        Ok(field("t", DataType::Datetime(TimeUnit::Nanoseconds, Some("Asia/Tokyo".to_string()))))
    );
    let kind = FunctionKind::TemporalExpr(TemporalFunction::TzLocalize("CET".to_string()));
    let bare = vec![field("t", DataType::Datetime(TimeUnit::Microseconds, None))];
    assert_eq!(
        infer(&kind, &bare, never),
        Ok(field("t", DataType::Datetime(TimeUnit::Microseconds, Some("CET".to_string()))))
    );
}

#[test]
fn datetime_from_parts_clears_the_zone() {
    let kind = FunctionKind::TemporalExpr(TemporalFunction::Datetime);
    let inputs =
        vec![field("t", DataType::Datetime(TimeUnit::Microseconds, Some("UTC".to_string())))];
    assert_eq!(
        infer(&kind, &inputs, never),
        Ok(field("t", DataType::Datetime(TimeUnit::Microseconds, None)))
    );
    let dates = vec![field("d", DataType::Date)];
    assert_eq!(
        infer(&kind, &dates, never),
        Err(InferError::TypeMismatch { expected: "Datetime".to_string(), actual: DataType::Date })
    );
}

#[test]
fn inner_type_list_of_a_scalar_is_unknown() {
    assert_eq!(
        inner_type_list(&vec![field("l", list(DataType::Utf8))]),
        field("l", DataType::Utf8)
    );
    assert_eq!(inner_type_list(&vec![field("l", DataType::Utf8)]), field("l", DataType::Unknown));
    let kind = FunctionKind::ListExpr(ListFunction::Get);
    let nested = vec![field("l", list(list(DataType::Int8)))];
    assert_eq!(infer(&kind, &nested, never), Ok(field("l", list(DataType::Int8))));
}

#[test]
fn list_concat_joins_elements_and_scalars() {
    let inputs = vec![
        field("l", list(DataType::Int8)),
        field("s", DataType::Int32),
        field("m", list(DataType::Int16)),
    ];
    assert_eq!(inner_super_type_list(&inputs, widen), Ok(field("l", list(DataType::Int32))));
    let kind = FunctionKind::ListExpr(ListFunction::Concat);
    assert_eq!(infer(&kind, &inputs, widen), Ok(field("l", list(DataType::Int32))));
    let single = vec![field("s", DataType::Utf8)];
    assert_eq!(infer(&kind, &single, never), Ok(field("s", list(DataType::Utf8))));
    let clash = vec![field("l", list(DataType::Int8)), field("t", list(DataType::Utf8))];
    assert_eq!(
        infer(&kind, &clash, widen),
        Err(InferError::NoCommonSupertype(DataType::Int8, DataType::Utf8))
    );
}

#[test]
fn with_joined_names_the_joined_type() {
    let inputs = vec![field("a", DataType::Int8)];
    assert_eq!(with_joined(&inputs, Ok(DataType::Int64), false), Ok(field("a", DataType::Int64)));
    assert_eq!(
        with_joined(&inputs, Ok(DataType::Int64), true),
        Ok(field("a", list(DataType::Int64)))
    );
    let failure = InferError::NoCommonSupertype(DataType::Int8, DataType::Utf8);
    assert_eq!(
        with_joined(&inputs, Err(failure), true),
        Err(InferError::NoCommonSupertype(DataType::Int8, DataType::Utf8))
    );
}

#[test]
fn float_dtype_keeps_narrow_floats() {
    assert_eq!(float_dtype(&vec![field("a", DataType::Float32)]), field("a", DataType::Float32));
    assert_eq!(float_dtype(&vec![field("a", DataType::Float64)]), field("a", DataType::Float64));
    assert_eq!(float_dtype(&vec![field("a", DataType::UInt8)]), field("a", DataType::Float64));
    assert_eq!(float_dtype(&vec![field("a", DataType::Utf8)]), field("a", DataType::Float64));
    for kind in [
        FunctionKind::Trigonometry,
        FunctionKind::RollingSkew,
        FunctionKind::Entropy,
        FunctionKind::Log,
        FunctionKind::Log1p,
        FunctionKind::Exp,
    ] {
        let inputs = vec![field("a", DataType::Float32)];
        assert_eq!(infer(&kind, &inputs, never), Ok(field("a", DataType::Float32)));
    }
}

#[test]
fn with_dtype_keeps_the_primary_name() {
    let inputs = vec![field("first", DataType::Int8), field("second", DataType::Utf8)];
    assert_eq!(with_dtype(&inputs, DataType::Date), field("first", DataType::Date));
}

#[test]
fn map_rules_apply_the_function_to_the_primary_type() {
    let inputs = vec![field("a", DataType::Int8), field("b", DataType::Utf8)];
    assert_eq!(map_dtype(&inputs, |d: &DataType| list(d.clone())), field("a", list(DataType::Int8)));
    assert_eq!(
        try_map_dtype(&inputs, |d: &DataType| Ok(list(d.clone()))),
        Ok(field("a", list(DataType::Int8)))
    );
    assert_eq!(
        try_map_dtype(&inputs, |_: &DataType| Err(InferError::FieldNotFound("x".to_string()))),
        Err(InferError::FieldNotFound("x".to_string()))
    );
    assert_eq!(
        try_map_dtypes(&inputs, |ds: &Vec<&DataType>| Ok(ds[ds.len() - 1].clone())),
        Ok(field("a", DataType::Utf8))
    );
    assert_eq!(
        try_map_dtypes(&inputs, |ds: &Vec<&DataType>| Err(InferError::IndexOutOfBounds {
            index: 7,
            length: ds.len()
        })),
        Err(InferError::IndexOutOfBounds { index: 7, length: 2 })
    );
}

#[test]
fn cumulative_rules_widen_for_the_total() {
    assert_eq!(cumsum(&DataType::Boolean), DataType::UInt32);
    assert_eq!(cumsum(&DataType::Int8), DataType::Int64);
    assert_eq!(cumsum(&DataType::Int32), DataType::Int32);
    assert_eq!(cumsum(&DataType::UInt32), DataType::UInt32);
    assert_eq!(cumsum(&DataType::UInt64), DataType::UInt64);
    assert_eq!(cumsum(&DataType::Float32), DataType::Float32);
    assert_eq!(cumsum(&DataType::Duration(TimeUnit::Milliseconds)), DataType::Duration(TimeUnit::Milliseconds));
    assert_eq!(cumprod(&DataType::Boolean), DataType::Int64);
    assert_eq!(cumprod(&DataType::Int32), DataType::Int64);
    assert_eq!(cumprod(&DataType::UInt64), DataType::UInt64);
    assert_eq!(cumprod(&DataType::Float64), DataType::Float64);
    let inputs = vec![field("a", DataType::Int16)];
    assert_eq!(infer(&FunctionKind::Cumsum, &inputs, never), Ok(field("a", DataType::Int64)));
    assert_eq!(infer(&FunctionKind::Cumprod, &inputs, never), Ok(field("a", DataType::Int64)));
    assert_eq!(infer(&FunctionKind::Cummin, &inputs, never), Ok(field("a", DataType::Int16)));
    assert_eq!(infer(&FunctionKind::Cummax, &inputs, never), Ok(field("a", DataType::Int16)));
}

#[test]
fn dot_widens_narrow_integers() {
    assert_eq!(dot(&DataType::Int8), DataType::Int64);
    assert_eq!(dot(&DataType::UInt16), DataType::Int64);
    assert_eq!(dot(&DataType::UInt32), DataType::UInt32);
    assert_eq!(dot(&DataType::Float32), DataType::Float32);
}

#[test]
fn fixed_outputs_do_not_depend_on_the_input() {
    let inputs = vec![field("a", DataType::Utf8)];
    assert_eq!(index_dtype(), DataType::UInt32);
    for kind in [
        FunctionKind::NullCount,
        FunctionKind::ArgWhere,
        FunctionKind::SearchSorted,
        FunctionKind::Cumcount,
        FunctionKind::ApproxUnique,
        FunctionKind::ListExpr(ListFunction::CountMatch),
    ] {
        assert_eq!(infer(&kind, &inputs, never), Ok(field("a", DataType::UInt32)));
    }
    assert_eq!(infer(&FunctionKind::Hash, &inputs, never), Ok(field("a", DataType::UInt64)));
    assert_eq!(infer(&FunctionKind::Sign, &inputs, never), Ok(field("a", DataType::Int64)));
    for kind in [
        FunctionKind::StringExpr(StringFunction::Contains),
        FunctionKind::StringExpr(StringFunction::StartsWith),
        FunctionKind::StringExpr(StringFunction::EndsWith),
        FunctionKind::BinaryExpr(BinaryFunction::Contains),
        FunctionKind::ListExpr(ListFunction::Contains),
        FunctionKind::Boolean(BooleanFunction::IsNull),
        FunctionKind::TemporalExpr(TemporalFunction::IsLeapYear),
    ] {
        assert_eq!(infer(&kind, &inputs, never), Ok(field("a", DataType::Boolean)));
    }
    let kind = FunctionKind::Categorical(CategoricalFunction::SetOrdering);
    assert_eq!(infer(&kind, &inputs, never), Ok(field("a", DataType::Categorical)));
}

#[test]
fn string_rules_give_text_or_the_declared_type() {
    let inputs = vec![field("s", DataType::Utf8)];
    for f in [StringFunction::Uppercase, StringFunction::Strip, StringFunction::Replace] {
        assert_eq!(
            infer(&FunctionKind::StringExpr(f), &inputs, never),
            Ok(field("s", DataType::Utf8))
        );
    }
    let declared = DataType::Datetime(TimeUnit::Microseconds, None);
    assert_eq!(
        infer(&FunctionKind::StringExpr(StringFunction::Strptime(declared)), &inputs, never),
        Ok(field("s", DataType::Datetime(TimeUnit::Microseconds, None)))
    );
    assert_eq!(
        infer(&FunctionKind::StringExpr(StringFunction::ExtractAll), &inputs, never),
        Ok(field("s", list(DataType::Utf8)))
    );
    assert_eq!(
        infer(&FunctionKind::StringExpr(StringFunction::FromRadix), &inputs, never),
        Ok(field("s", DataType::Int32))
    );
}

#[test]
fn temporal_parts_have_fixed_types() {
    let inputs = vec![field("t", DataType::Date)];
    let year = FunctionKind::TemporalExpr(TemporalFunction::Year);
    assert_eq!(infer(&year, &inputs, never), Ok(field("t", DataType::Int32)));
    let month = FunctionKind::TemporalExpr(TemporalFunction::Month);
    assert_eq!(infer(&month, &inputs, never), Ok(field("t", DataType::UInt32)));
    let stamp = FunctionKind::TemporalExpr(TemporalFunction::TimeStamp);
    assert_eq!(infer(&stamp, &inputs, never), Ok(field("t", DataType::Int64)));
    let combine = FunctionKind::TemporalExpr(TemporalFunction::Combine(TimeUnit::Nanoseconds));
    assert_eq!(
        infer(&combine, &inputs, never),
        Ok(field("t", DataType::Datetime(TimeUnit::Nanoseconds, None)))
    );
    let truncate = FunctionKind::TemporalExpr(TemporalFunction::Truncate);
    assert_eq!(infer(&truncate, &inputs, never), Ok(field("t", DataType::Date)));
}

#[test]
fn fill_null_gives_the_declared_supertype() {
    let inputs = vec![field("a", DataType::Int8)];
    let kind = FunctionKind::FillNull { super_type: DataType::Float64 };
    assert_eq!(infer(&kind, &inputs, never), Ok(field("a", DataType::Float64)));
}

#[test]
fn clone_copies_nested_types() {
    let nested = list(three_fields());
    assert_eq!(nested.clone(), list(three_fields()));
    let zoned = field("t", DataType::Datetime(TimeUnit::Milliseconds, Some("UTC".to_string())));
    assert_eq!(zoned.clone(), zoned);
    let mut renamed = field("a", DataType::Int8);
    renamed.coerce(DataType::Utf8);
    assert_eq!(renamed, field("a", DataType::Utf8));
    assert!(DataType::UInt16.is_numeric() && DataType::UInt16.is_unsigned());
    assert!(DataType::Float32.is_float() && !DataType::Float32.is_signed());
    assert!(!DataType::Utf8.is_numeric());
    assert_eq!(list(DataType::Date).inner_dtype(), Some(&DataType::Date));
    assert_eq!(DataType::Date.inner_dtype(), None);
}

#[test]
fn capability_set_admits_kinds_of_enabled_families() {
    let mut caps = CapabilitySet::new();
    assert!(!caps.has(Capability::Diff));
    assert!(caps.admits(&FunctionKind::Pow));
    assert!(caps.admits(&FunctionKind::Coalesce));
    assert!(caps.admits(&FunctionKind::ListExpr(ListFunction::Sum)));
    assert!(!caps.admits(&FunctionKind::Diff));
    assert!(!caps.admits(&FunctionKind::StringExpr(StringFunction::Uppercase)));
    caps.enable(Capability::Diff);
    caps.enable(Capability::Strings);
    assert!(caps.has(Capability::Diff));
    assert!(!caps.has(Capability::Regex));
    assert!(caps.admits(&FunctionKind::Diff));
    assert!(caps.admits(&FunctionKind::StringExpr(StringFunction::Uppercase)));
    assert!(!caps.admits(&FunctionKind::StringExpr(StringFunction::Contains)));
    caps.enable(Capability::Regex);
    assert!(caps.admits(&FunctionKind::StringExpr(StringFunction::Contains)));
    assert!(!caps.admits(&FunctionKind::StringExpr(StringFunction::Strptime(DataType::Date))));
}

#[test]
fn capability_set_needs_every_family_of_a_kind() {
    let mut caps = CapabilitySet::new();
    caps.enable(Capability::RollingWindow);
    assert!(!caps.admits(&FunctionKind::RollingSkew));
    caps.enable(Capability::Moment);
    assert!(caps.admits(&FunctionKind::RollingSkew));
    caps.enable(Capability::Temporal);
    let cast = FunctionKind::TemporalExpr(TemporalFunction::CastTimezone(None));
    assert!(caps.admits(&FunctionKind::TemporalExpr(TemporalFunction::Year)));
    assert!(!caps.admits(&cast));
    caps.enable(Capability::Timezones);
    assert!(caps.admits(&cast));
    assert!(!caps.admits(&FunctionKind::StructExpr(StructFunction::FieldByIndex(0))));
    assert!(!caps.admits(&FunctionKind::ListExpr(ListFunction::Take)));
    assert!(!caps.admits(&FunctionKind::Round));
}
