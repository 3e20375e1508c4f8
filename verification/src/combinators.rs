//! The reusable rules from which the per-kind inference is composed.
//!
//! Every rule reads the inputs of one function node; the first input is the
//! primary one and gives the output its name unless a rule says otherwise.
//! The pairwise supertype join is not defined here: the rules that need it
//! take it as a function and state their result over whatever it returned.

use vstd::prelude::*;
use crate::dtype::{DataType, DType, Field, Column, zone_model};
use crate::error::{InferError, Failure, datetime_word};
use crate::rules::{float_type, float_of, element_of};

verus! {

/// The model of a result that carries a column descriptor.
pub open spec fn field_result(r: Result<Field, InferError>) -> Result<Column, Failure> {
    match r {
        Ok(f) => Ok(f@),
        Err(e) => Err(e@),
    }
}

/// The model of a result that carries a type.
pub open spec fn dtype_result(r: Result<DataType, InferError>) -> Result<DType, Failure> {
    match r {
        Ok(d) => Ok(d@),
        Err(e) => Err(e@),
    }
}

/// The primary input's name with the given type.
pub open spec fn renamed_type(inputs: Seq<Field>, d: DType) -> Column {
    Column { name: inputs[0].name@, dtype: d }
}

/// A list's element type, and a type that is no list taken as it is.
pub open spec fn unwrapped(d: DataType) -> DataType {
    match d {
        DataType::List(inner) => *inner,
        other => other,
    }
}

/// The types that a join runs over: those of the inputs in order, each
/// unwrapped from its list where `unwrap` is set.
pub open spec fn operands(inputs: Seq<Field>, unwrap: bool) -> Seq<DataType> {
    Seq::new(
        inputs.len(),
        |i: int|
            if unwrap {
                unwrapped(inputs[i].dtype)
            } else {
                inputs[i].dtype
            },
    )
}

/// `trace` lists the states of a left-to-right fold of `ops` through `join`:
/// the first operand, then for each further operand what `join` returned
/// for the state before and that operand. A failure ends the fold and
/// stays.
pub open spec fn is_trace<F: Fn(&DataType, &DataType) -> Result<DataType, InferError>>(
    join: F,
    ops: Seq<DataType>,
    trace: Seq<Result<DataType, InferError>>,
) -> bool {
    &&& trace.len() == ops.len()
    &&& ops.len() > 0
    &&& trace[0] == Ok::<DataType, InferError>(ops[0])
    &&& forall|i: int|
        1 <= i < ops.len() ==> match trace[i - 1] {
            Ok(acc) => join.ensures((&acc, &ops[i]), #[trigger] trace[i]),
            Err(e) => trace[i] == Err::<DataType, InferError>(e),
        }
}

/// `r` agrees with the last state `s` of a fold: the same failure, or a
/// type with the same model.
pub open spec fn agrees(s: Result<DataType, InferError>, r: Result<DataType, InferError>) -> bool {
    match s {
        Ok(w) => r is Ok && r->Ok_0@ == w@,
        Err(e) => r == Err::<DataType, InferError>(e),
    }
}

/// `r` is a possible result of folding all of `ops`: the failure of the
/// first join that failed, else a type with the model of what the last
/// join returned.
pub open spec fn fold_outcome<F: Fn(&DataType, &DataType) -> Result<DataType, InferError>>(
    join: F,
    ops: Seq<DataType>,
    r: Result<DataType, InferError>,
) -> bool {
    exists|trace: Seq<Result<DataType, InferError>>|
        #![trigger is_trace(join, ops, trace)]
        is_trace(join, ops, trace) && agrees(trace.last(), r)
}

/// A fold that has failed on a prefix of the operands has failed on all of
/// them, with the same failure.
pub proof fn lemma_failure_ends_fold<F: Fn(&DataType, &DataType) -> Result<DataType, InferError>>(
    join: F,
    ops: Seq<DataType>,
    trace: Seq<Result<DataType, InferError>>,
    e: InferError,
)
    requires
        trace.len() <= ops.len(),
        is_trace(join, ops.take(trace.len() as int), trace),
        trace.last() == Err::<DataType, InferError>(e),
    ensures
        fold_outcome(join, ops, Err(e)),
{
    let done = trace.len() as int;
    let full = Seq::new(
        ops.len(),
        |k: int|
            if k < done {
                trace[k]
            } else {
                Err(e)
            },
    );
    assert forall|k: int| 1 <= k < ops.len() implies match full[k - 1] {
        Ok(acc) => join.ensures((&acc, &ops[k]), #[trigger] full[k]),
        Err(e2) => full[k] == Err::<DataType, InferError>(e2),
    } by {
        if k < done {
            assert(trace[k] == full[k]);
            assert(ops.take(done)[k] == ops[k]);
        }
    }
    assert(ops.take(done)[0] == ops[0]);
    assert(is_trace(join, ops, full));
    assert(agrees(full.last(), Err(e)));
}

/// A trace of a prefix of the operands, one state longer.
pub proof fn lemma_trace_grows<F: Fn(&DataType, &DataType) -> Result<DataType, InferError>>(
    join: F,
    ops: Seq<DataType>,
    trace: Seq<Result<DataType, InferError>>,
    acc: DataType,
    step: Result<DataType, InferError>,
)
    requires
        trace.len() < ops.len(),
        is_trace(join, ops.take(trace.len() as int), trace),
        trace.last() == Ok::<DataType, InferError>(acc),
        join.ensures((&acc, &ops[trace.len() as int]), step),
    ensures
        is_trace(join, ops.take(trace.len() as int + 1), trace.push(step)),
{
    let i = trace.len() as int;
    let longer = trace.push(step);
    assert forall|k: int| 1 <= k < i + 1 implies match longer[k - 1] {
        Ok(prev) => join.ensures((&prev, &ops.take(i + 1)[k]), #[trigger] longer[k]),
        Err(e) => longer[k] == Err::<DataType, InferError>(e),
    } by {
        if k < i {
            assert(trace[k] == longer[k]);
            assert(ops.take(i)[k] == ops.take(i + 1)[k]);
        }
    }
    assert(ops.take(i)[0] == ops.take(i + 1)[0]);
}

/// One operand of a join, by reference.
fn operand(d: &DataType, unwrap: bool) -> (r: &DataType)
    ensures
        *r == if unwrap {
            unwrapped(*d)
        } else {
            *d
        },
{
    if unwrap {
        match d.inner_dtype() {
            Some(inner) => inner,
            None => d,
        }
    } else {
        d
    }
}

/// Folds the types of all inputs through `join`, left to right, starting
/// from the first, and stops at the first join that fails.
pub fn fold_join<F: Fn(&DataType, &DataType) -> Result<DataType, InferError>>(
    inputs: &Vec<Field>,
    unwrap: bool,
    join: F,
) -> (r: Result<DataType, InferError>)
    requires
        inputs.len() > 0,
        forall|a: &DataType, b: &DataType| join.requires((a, b)),
    ensures
        fold_outcome(join, operands(inputs@, unwrap), r),
{
    let ghost ops = operands(inputs@, unwrap);
    let n = inputs.len();
    let first = operand(&inputs[0].dtype, unwrap);
    let ghost mut trace: Seq<Result<DataType, InferError>> = seq![Ok(*first)];
    assert(is_trace(join, ops.take(1), trace));
    if n == 1 {
        assert(ops.take(1) =~= ops);
        return Ok(first.clone());
    }
    let step = join(first, operand(&inputs[1].dtype, unwrap));
    proof {
        lemma_trace_grows(join, ops, trace, *first, step);
        trace = trace.push(step);
    }
    let mut acc = match step {
        Ok(d) => d,
        Err(e) => {
            proof {
                lemma_failure_ends_fold(join, ops, trace, e);
            }
            return Err(e);
        },
    };
    let mut i: usize = 2;
    while i < n
        invariant
            2 <= i <= n,
            n == inputs.len(),
            ops == operands(inputs@, unwrap),
            forall|a: &DataType, b: &DataType| join.requires((a, b)),
            trace.len() == i,
            is_trace(join, ops.take(i as int), trace),
            trace.last() == Ok::<DataType, InferError>(acc),
        decreases n - i,
    {
        let step = join(&acc, operand(&inputs[i].dtype, unwrap));
        proof {
            lemma_trace_grows(join, ops, trace, acc, step);
            trace = trace.push(step);
        }
        match step {
            Ok(d) => {
                acc = d;
            },
            Err(e) => {
                proof {
                    lemma_failure_ends_fold(join, ops, trace, e);
                }
                return Err(e);
            },
        }
        i += 1;
    }
    assert(ops.take(n as int) =~= ops);
    Ok(acc)
}

/// The rule `with_dtype`: the primary input's name with the given type.
pub fn with_dtype(inputs: &Vec<Field>, dtype: DataType) -> (r: Field)
    requires
        inputs.len() > 0,
    ensures
        r.name == inputs[0].name,
        r.dtype == dtype,
        r@ == renamed_type(inputs@, dtype@),
{
    Field { name: inputs[0].name.clone(), dtype }
}

/// The rule `map_dtype`: the primary input's name with what `f` makes of
/// its type.
pub fn map_dtype<F: Fn(&DataType) -> DataType>(inputs: &Vec<Field>, f: F) -> (r: Field)
    requires
        inputs.len() > 0,
        f.requires((&inputs[0].dtype,)),
    ensures
        r.name == inputs[0].name,
        f.ensures((&inputs[0].dtype,), r.dtype),
{
    let dtype = f(&inputs[0].dtype);
    with_dtype(inputs, dtype)
}

/// The rule `try_map_dtype`: as `map_dtype`, with a failure of `f` handed on
/// as it is.
pub fn try_map_dtype<F: Fn(&DataType) -> Result<DataType, InferError>>(
    inputs: &Vec<Field>,
    f: F,
) -> (r: Result<Field, InferError>)
    requires
        inputs.len() > 0,
        f.requires((&inputs[0].dtype,)),
    ensures
        match r {
            Ok(field) => field.name == inputs[0].name && f.ensures(
                (&inputs[0].dtype,),
                Ok(field.dtype),
            ),
            Err(e) => f.ensures((&inputs[0].dtype,), Err(e)),
        },
{
    match f(&inputs[0].dtype) {
        Ok(dtype) => Ok(with_dtype(inputs, dtype)),
        Err(e) => Err(e),
    }
}

/// The types of all inputs, in order.
pub open spec fn types_of(inputs: Seq<Field>) -> Seq<DataType> {
    Seq::new(inputs.len(), |i: int| inputs[i].dtype)
}

/// The types that a vector of references points to, in order.
pub open spec fn pointees(refs: Seq<&DataType>) -> Seq<DataType> {
    Seq::new(refs.len(), |i: int| *refs[i])
}

/// The rule `try_map_dtypes`: `f` is given the types of all inputs; the
/// result is the primary input with its type replaced by what `f` returned,
/// or the failure of `f` as it is.
pub fn try_map_dtypes<F: Fn(&Vec<&DataType>) -> Result<DataType, InferError>>(
    inputs: &Vec<Field>,
    f: F,
) -> (r: Result<Field, InferError>)
    requires
        inputs.len() > 0,
        forall|refs: &Vec<&DataType>| pointees(refs@) == types_of(inputs@) ==> f.requires((refs,)),
    ensures
        exists|refs: &Vec<&DataType>|
            #![trigger pointees(refs@)]
            pointees(refs@) == types_of(inputs@) && match r {
                Ok(field) => field.name == inputs[0].name && f.ensures((refs,), Ok(field.dtype)),
                Err(e) => f.ensures((refs,), Err(e)),
            },
{
    let mut refs: Vec<&DataType> = Vec::new();
    let mut i: usize = 0;
    while i < inputs.len()
        invariant
            i <= inputs.len(),
            refs.len() == i,
            forall|k: int| 0 <= k < i ==> *refs@[k] == inputs@[k].dtype,
        decreases inputs.len() - i,
    {
        refs.push(&inputs[i].dtype);
        i += 1;
    }
    assert(pointees(refs@) =~= types_of(inputs@));
    match f(&refs) {
        Ok(dtype) => Ok(with_dtype(inputs, dtype)),
        Err(e) => Err(e),
    }
}

/// The rule `float_dtype`: a 32-bit float stays, any other type becomes a
/// 64-bit float.
pub fn float_dtype(inputs: &Vec<Field>) -> (r: Field)
    requires
        inputs.len() > 0,
    ensures
        r@ == renamed_type(inputs@, float_type(inputs[0].dtype@)),
{
    with_dtype(inputs, float_of(&inputs[0].dtype))
}

/// The rule `same_type`: the primary input, unchanged.
pub fn same_type(inputs: &Vec<Field>) -> (r: Field)
    requires
        inputs.len() > 0,
    ensures
        r@ == inputs[0]@,
{
    inputs[0].clone()
}

/// The rule `inner_type_list`: the element type of a list, `Unknown` for
/// anything that is no list.
pub fn inner_type_list(inputs: &Vec<Field>) -> (r: Field)
    requires
        inputs.len() > 0,
    ensures
        r@ == renamed_type(inputs@, inputs[0].dtype@.element()),
{
    with_dtype(inputs, element_of(&inputs[0].dtype))
}

/// What a rule returns for the outcome of a fold: the primary input's name
/// with the joined type, wrapped in a list where `wrap` is set; a failure
/// as it is.
pub fn with_joined(inputs: &Vec<Field>, joined: Result<DataType, InferError>, wrap: bool) -> (r:
    Result<Field, InferError>)
    requires
        inputs.len() > 0,
    ensures
        match joined {
            Ok(d) => r is Ok && r->Ok_0.name == inputs[0].name && r->Ok_0.dtype == (if wrap {
                DataType::List(Box::new(d))
            } else {
                d
            }),
            Err(e) => r == Err::<Field, InferError>(e),
        },
{
    match joined {
        Ok(d) => {
            if wrap {
                Ok(with_dtype(inputs, DataType::List(Box::new(d))))
            } else {
                Ok(with_dtype(inputs, d))
            }
        },
        Err(e) => Err(e),
    }
}

/// `r` is a possible result of the rule that folds the inputs' types: the
/// primary input's name with a possible outcome of the fold, in a list
/// where the operands were taken out of theirs.
pub open spec fn join_outcome<F: Fn(&DataType, &DataType) -> Result<DataType, InferError>>(
    join: F,
    inputs: Seq<Field>,
    unwrap: bool,
    r: Result<Field, InferError>,
) -> bool {
    match r {
        Ok(field) => {
            &&& field.name == inputs[0].name
            &&& if unwrap {
                field.dtype is List && fold_outcome(
                    join,
                    operands(inputs, true),
                    Ok(*field.dtype->List_0),
                )
            } else {
                fold_outcome(join, operands(inputs, false), Ok(field.dtype))
            }
        },
        Err(e) => fold_outcome(join, operands(inputs, unwrap), Err(e)),
    }
}

/// The rule `super_type`: the types of all inputs joined left to right,
/// starting from the primary one, under the primary input's name. The
/// first join that fails ends the fold, and its failure is the result.
pub fn super_type<F: Fn(&DataType, &DataType) -> Result<DataType, InferError>>(
    inputs: &Vec<Field>,
    join: F,
) -> (r: Result<Field, InferError>)
    requires
        inputs.len() > 0,
        forall|a: &DataType, b: &DataType| join.requires((a, b)),
    ensures
        join_outcome(join, inputs@, false, r),
{
    let joined = fold_join(inputs, false, join);
    with_joined(inputs, joined, false)
}

/// The rule `inner_super_type_list`: every input is a list or a scalar that
/// stands for a list of one element; the element types are joined left to
/// right and the result is a list of the joined type.
pub fn inner_super_type_list<F: Fn(&DataType, &DataType) -> Result<DataType, InferError>>(
    inputs: &Vec<Field>,
    join: F,
) -> (r: Result<Field, InferError>)
    requires
        inputs.len() > 0,
        forall|a: &DataType, b: &DataType| join.requires((a, b)),
    ensures
        join_outcome(join, inputs@, true, r),
{
    let joined = fold_join(inputs, true, join);
    with_joined(inputs, joined, true)
}

/// A point in time moved to the given zone, its unit kept; any other type
/// is a mismatch that names it.
pub open spec fn zoned(c: Column, zone: Option<Seq<char>>) -> Result<Column, Failure> {
    match c.dtype {
        DType::Datetime(tu, _) => Ok(Column { name: c.name, dtype: DType::Datetime(tu, zone) }),
        other => Err(Failure::TypeMismatch { expected: datetime_word(), actual: other }),
    }
}

/// The rule `cast_tz`: rewrites the time zone of a point in time, or clears
/// it where `tz` is `None`.
pub fn cast_tz(inputs: &Vec<Field>, tz: &Option<String>) -> (r: Result<Field, InferError>)
    requires
        inputs.len() > 0,
    ensures
        field_result(r) == zoned(inputs[0]@, zone_model(*tz)),
{
    match &inputs[0].dtype {
        DataType::Datetime(tu, _) => {
            let zone = match tz {
                Some(z) => Some(z.clone()),
                None => None,
            };
            Ok(with_dtype(inputs, DataType::Datetime(*tu, zone)))
        },
        other => Err(
            InferError::TypeMismatch { expected: "Datetime".to_owned(), actual: other.clone() },
        ),
    }
}

} // verus!
