//! What holds of inference for every input, stated over the models.
//!
//! The rules that join take the join as an executable function and promise
//! a possible outcome of it. Where that function computes a mathematical
//! one, the outcome is unique, and the laws below say which it is.

use vstd::prelude::*;
use crate::dtype::{DataType, DType, Field, Column, TimeUnit};
use crate::error::{InferError, Failure, datetime_word};
use crate::kind::{FunctionKind, ListFunction};
use crate::rules::diff_type;
use crate::combinators::{
    dtype_result, field_result, operands, is_trace, agrees, fold_outcome, join_outcome, zoned,
};
use crate::access::{field_named, sub_fields, is_first_named, has_unique_names};
use crate::infer::{uses_join, inferred, infer_outcome};

verus! {

/// A join on type models.
pub type Join = spec_fn(DType, DType) -> Result<DType, Failure>;

/// The executable `join` computes `j`: whatever it returns for two types
/// has the model that `j` gives for their models.
pub open spec fn computes<F: Fn(&DataType, &DataType) -> Result<DataType, InferError>>(
    join: F,
    j: Join,
) -> bool {
    forall|a: DataType, b: DataType, out: Result<DataType, InferError>| #[trigger]
        join.ensures((&a, &b), out) ==> dtype_result(out) == j(a@, b@)
}

/// The state of the left-to-right fold of `ds` through `j` after operand
/// `n`: the first failure, or the join of all operands up to `n`.
pub open spec fn folded(j: Join, ds: Seq<DType>, n: nat) -> Result<DType, Failure>
    decreases n,
{
    if n == 0 {
        Ok(ds[0])
    } else {
        match folded(j, ds, (n - 1) as nat) {
            Ok(acc) => j(acc, ds[n as int]),
            Err(e) => Err(e),
        }
    }
}

/// The models of the types that a join runs over.
pub open spec fn operand_models(inputs: Seq<Column>, unwrap: bool) -> Seq<DType> {
    Seq::new(
        inputs.len(),
        |i: int|
            if unwrap {
                inputs[i].dtype.unwrapped()
            } else {
                inputs[i].dtype
            },
    )
}

/// The models of a sequence of column descriptors, in order.
pub open spec fn columns(inputs: Seq<Field>) -> Seq<Column> {
    Seq::new(inputs.len(), |i: int| inputs[i]@)
}

/// The result of a rule that joins, under the join `j`.
pub open spec fn joined_column(j: Join, inputs: Seq<Column>, unwrap: bool) -> Result<
    Column,
    Failure,
> {
    match folded(j, operand_models(inputs, unwrap), (inputs.len() - 1) as nat) {
        Ok(d) => Ok(
            Column {
                name: inputs[0].name,
                dtype: if unwrap {
                    DType::List(Box::new(d))
                } else {
                    d
                },
            },
        ),
        Err(e) => Err(e),
    }
}

/// The result of inference for any kind, under the join `j`.
pub open spec fn infer_model(kind: FunctionKind, inputs: Seq<Column>, j: Join) -> Result<
    Column,
    Failure,
> {
    if kind == FunctionKind::ListExpr(ListFunction::Concat) {
        joined_column(j, inputs, true)
    } else if uses_join(kind) {
        joined_column(j, inputs, false)
    } else {
        inferred(kind, inputs[0])
    }
}

/// Every state of a trace has the model of the fold's state at its place.
pub proof fn lemma_trace_is_folded<F: Fn(&DataType, &DataType) -> Result<DataType, InferError>>(
    join: F,
    j: Join,
    ops: Seq<DataType>,
    trace: Seq<Result<DataType, InferError>>,
    models: Seq<DType>,
    k: nat,
)
    requires
        computes(join, j),
        is_trace(join, ops, trace),
        models.len() == ops.len(),
        forall|i: int| 0 <= i < ops.len() ==> models[i] == (#[trigger] ops[i])@,
        k < ops.len(),
    ensures
        dtype_result(trace[k as int]) == folded(j, models, k),
    decreases k,
{
    if k > 0 {
        lemma_trace_is_folded(join, j, ops, trace, models, (k - 1) as nat);
        match trace[k - 1] {
            Ok(acc) => {
                assert(join.ensures((&acc, &ops[k as int]), trace[k as int]));
            },
            Err(e) => {
                assert(trace[k as int] == Err::<DataType, InferError>(e));
            },
        }
    }
}

/// A join that computes `j` leaves a rule that joins one possible result:
/// the fold of the input types through `j`, under the primary input's name.
pub proof fn law_join_result<F: Fn(&DataType, &DataType) -> Result<DataType, InferError>>(
    join: F,
    j: Join,
    inputs: Seq<Field>,
    unwrap: bool,
    r: Result<Field, InferError>,
)
    requires
        inputs.len() > 0,
        computes(join, j),
        join_outcome(join, inputs, unwrap, r),
    ensures
        field_result(r) == joined_column(j, columns(inputs), unwrap),
{
    let ops = operands(inputs, unwrap);
    let models = operand_models(columns(inputs), unwrap);
    let last = (inputs.len() - 1) as nat;
    assert forall|i: int| 0 <= i < ops.len() implies models[i] == (#[trigger] ops[i])@ by {
        let d = inputs[i].dtype;
        if unwrap {
            match d {
                DataType::List(inner) => {
                    assert(d@ == DType::List(Box::new((*inner)@)));
                },
                _ => {},
            }
        }
    }
    let out: Result<DataType, InferError> = match r {
        Ok(field) => if unwrap {
            Ok(*field.dtype->List_0)
        } else {
            Ok(field.dtype)
        },
        Err(e) => Err(e),
    };
    assert(fold_outcome(join, ops, out));
    let trace = choose|trace: Seq<Result<DataType, InferError>>|
        #![trigger is_trace(join, ops, trace)]
        is_trace(join, ops, trace) && agrees(trace.last(), out);
    lemma_trace_is_folded(join, j, ops, trace, models, last);
    match r {
        Ok(field) => {
            if unwrap {
                assert(field.dtype@ == DType::List(Box::new((*field.dtype->List_0)@)));
            }
        },
        Err(e) => {},
    }
}

/// Inference is a function of its inputs' models: with a join that computes
/// `j`, every result that `infer` may return has the one model that the
/// kind, the input models and `j` determine.
pub proof fn law_infer_is_a_function<F: Fn(&DataType, &DataType) -> Result<DataType, InferError>>(
    kind: FunctionKind,
    inputs: Seq<Field>,
    join: F,
    j: Join,
    r: Result<Field, InferError>,
)
    requires
        inputs.len() > 0,
        computes(join, j),
        infer_outcome(kind, inputs, join, r),
    ensures
        field_result(r) == infer_model(kind, columns(inputs), j),
{
    if kind == FunctionKind::ListExpr(ListFunction::Concat) {
        law_join_result(join, j, inputs, true, r);
    } else if uses_join(kind) {
        law_join_result(join, j, inputs, false, r);
    }
}

/// Repeated inference gives identical results: two results of `infer` for
/// one kind, inputs of equal models and joins that compute the same `j`
/// have the same model.
pub proof fn law_infer_deterministic<
    F: Fn(&DataType, &DataType) -> Result<DataType, InferError>,
    G: Fn(&DataType, &DataType) -> Result<DataType, InferError>,
>(
    kind: FunctionKind,
    first_inputs: Seq<Field>,
    second_inputs: Seq<Field>,
    first_join: F,
    second_join: G,
    j: Join,
    first: Result<Field, InferError>,
    second: Result<Field, InferError>,
)
    requires
        first_inputs.len() > 0,
        columns(first_inputs) == columns(second_inputs),
        computes(first_join, j),
        computes(second_join, j),
        infer_outcome(kind, first_inputs, first_join, first),
        infer_outcome(kind, second_inputs, second_join, second),
    ensures
        field_result(first) == field_result(second),
{
    assert(columns(first_inputs).len() == columns(second_inputs).len());
    law_infer_is_a_function(kind, first_inputs, first_join, j, first);
    law_infer_is_a_function(kind, second_inputs, second_join, j, second);
}

/// The type of a result, where there is one.
pub open spec fn success(r: Result<DType, Failure>) -> Option<DType> {
    match r {
        Ok(d) => Some(d),
        Err(_) => None,
    }
}

/// The join of a state that may have failed with one more type.
pub open spec fn then_joined(j: Join, state: Option<DType>, d: DType) -> Option<DType> {
    match state {
        Some(acc) => success(j(acc, d)),
        None => None,
    }
}

/// Where two types join, they join to the same type in either order.
pub open spec fn commutative(j: Join) -> bool {
    forall|a: DType, b: DType| success(#[trigger] j(a, b)) == success(j(b, a))
}

/// Joining three types gives the same type however they are grouped.
pub open spec fn associative(j: Join) -> bool {
    forall|a: DType, b: DType, c: DType|
        then_joined(j, success(#[trigger] j(a, b)), c) == (match success(#[trigger] j(b, c)) {
            Some(bc) => success(j(a, bc)),
            None => None,
        })
}

/// `ds` with the operands at `i` and `i + 1` exchanged.
pub open spec fn exchanged(ds: Seq<DType>, i: int) -> Seq<DType> {
    ds.update(i, ds[i + 1]).update(i + 1, ds[i])
}

/// The fold's state after operand `n` is the join of the state before with
/// that operand.
pub proof fn lemma_folded_step(j: Join, ds: Seq<DType>, n: nat)
    requires
        n > 0,
    ensures
        success(folded(j, ds, n)) == then_joined(
            j,
            success(folded(j, ds, (n - 1) as nat)),
            ds[n as int],
        ),
{
}

/// Folds over sequences that agree up to operand `n` agree after it.
pub proof fn lemma_folded_prefix(j: Join, ds: Seq<DType>, es: Seq<DType>, n: nat)
    requires
        forall|k: int| 0 <= k <= n ==> ds[k] == es[k],
    ensures
        folded(j, ds, n) == folded(j, es, n),
    decreases n,
{
    if n > 0 {
        lemma_folded_prefix(j, ds, es, (n - 1) as nat);
    }
}

/// The joined type does not depend on the order of the inputs: under a join
/// that is commutative and associative where it succeeds, exchanging two
/// neighbouring operands leaves the type that the fold arrives at, and
/// whether it arrives at one, unchanged.
pub proof fn law_fold_order_insensitive(j: Join, ds: Seq<DType>, i: int, n: nat)
    requires
        commutative(j),
        associative(j),
        0 <= i,
        i + 1 <= n < ds.len(),
    ensures
        success(folded(j, exchanged(ds, i), n)) == success(folded(j, ds, n)),
    decreases n,
{
    let es = exchanged(ds, i);
    let x = ds[i];
    let y = ds[i + 1];
    if n > i + 1 {
        law_fold_order_insensitive(j, ds, i, (n - 1) as nat);
        lemma_folded_step(j, ds, n);
        lemma_folded_step(j, es, n);
    } else if i == 0 {
        assert(folded(j, ds, 0) == Ok::<DType, Failure>(x));
        assert(folded(j, es, 0) == Ok::<DType, Failure>(y));
        assert(folded(j, ds, 1) == j(x, y));
        assert(folded(j, es, 1) == j(y, x));
    } else {
        let before = (i - 1) as nat;
        lemma_folded_prefix(j, ds, es, before);
        lemma_folded_step(j, ds, n);
        lemma_folded_step(j, es, n);
        lemma_folded_step(j, ds, i as nat);
        lemma_folded_step(j, es, i as nat);
        match folded(j, ds, before) {
            Ok(acc) => {
                assert(then_joined(j, success(j(acc, x)), y) == (match success(j(x, y)) {
                    Some(xy) => success(j(acc, xy)),
                    None => None,
                }));
                assert(then_joined(j, success(j(acc, y)), x) == (match success(j(y, x)) {
                    Some(yx) => success(j(acc, yx)),
                    None => None,
                }));
                assert(success(j(x, y)) == success(j(y, x)));
            },
            Err(_) => {},
        }
    }
}

/// The type that the fold of all of `ds` arrives at, if it arrives at one.
pub open spec fn joined_type(j: Join, ds: Seq<DType>) -> Option<DType> {
    success(folded(j, ds, (ds.len() - 1) as nat))
}

/// Moving one operand to the end leaves the joined type unchanged.
pub proof fn lemma_move_to_end(j: Join, ds: Seq<DType>, p: int)
    requires
        commutative(j),
        associative(j),
        0 <= p < ds.len(),
    ensures
        joined_type(j, ds.remove(p).push(ds[p])) == joined_type(j, ds),
    decreases ds.len() - p,
{
    let moved = ds.remove(p).push(ds[p]);
    if p == ds.len() - 1 {
        assert(moved =~= ds);
    } else {
        let es = exchanged(ds, p);
        law_fold_order_insensitive(j, ds, p, (ds.len() - 1) as nat);
        lemma_move_to_end(j, es, p + 1);
        assert(es.remove(p + 1).push(es[p + 1]) =~= moved);
    }
}

/// The joined type of two operands or more is the join of the joined type
/// of all but the last with the last.
pub proof fn lemma_joined_last(j: Join, ds: Seq<DType>)
    requires
        ds.len() >= 2,
    ensures
        joined_type(j, ds) == then_joined(j, joined_type(j, ds.drop_last()), ds.last()),
{
    let n = (ds.len() - 1) as nat;
    lemma_folded_step(j, ds, n);
    lemma_folded_prefix(j, ds, ds.drop_last(), (n - 1) as nat);
}

/// The joined type does not depend on the order of the operands: under a
/// join that is commutative and associative where it succeeds, two
/// sequences that hold the same types the same number of times fold to
/// the same type, or both to none.
pub proof fn law_fold_permutation(j: Join, ds: Seq<DType>, es: Seq<DType>)
    requires
        commutative(j),
        associative(j),
        ds.len() > 0,
        ds.to_multiset() == es.to_multiset(),
    ensures
        joined_type(j, ds) == joined_type(j, es),
    decreases ds.len(),
{
    ds.to_multiset_ensures();
    es.to_multiset_ensures();
    assert(ds.len() == es.len());
    let last = es.len() - 1;
    let x = es[last];
    assert(es.contains(x));
    assert(es.to_multiset().count(x) > 0);
    assert(ds.to_multiset().count(x) > 0);
    assert(ds.contains(x));
    let p = choose|p: int| 0 <= p < ds.len() && ds[p] == x;
    lemma_move_to_end(j, ds, p);
    let moved = ds.remove(p).push(x);
    if ds.len() == 1 {
        assert(ds =~= es);
    } else {
        let rest_ds = ds.remove(p);
        let rest_es = es.drop_last();
        assert(rest_es =~= es.remove(last));
        assert(rest_ds.to_multiset() == ds.to_multiset().remove(x));
        assert(es.remove(last).to_multiset() == es.to_multiset().remove(x));
        law_fold_permutation(j, rest_ds, rest_es);
        lemma_joined_last(j, moved);
        lemma_joined_last(j, es);
        assert(moved.drop_last() =~= rest_ds);
    }
}

/// The rules that join are insensitive to the order of their inputs: with
/// a join that computes a commutative and associative `j`, such a rule
/// succeeds on the inputs exactly if it succeeds on inputs that hold the
/// same operand types in another order, and gives the same type.
pub proof fn law_join_order_insensitive<
    F: Fn(&DataType, &DataType) -> Result<DataType, InferError>,
>(
    join: F,
    j: Join,
    inputs: Seq<Field>,
    reordered: Seq<Field>,
    unwrap: bool,
    first: Result<Field, InferError>,
    second: Result<Field, InferError>,
)
    requires
        computes(join, j),
        commutative(j),
        associative(j),
        inputs.len() > 0,
        operand_models(columns(inputs), unwrap).to_multiset() == operand_models(
            columns(reordered),
            unwrap,
        ).to_multiset(),
        join_outcome(join, inputs, unwrap, first),
        join_outcome(join, reordered, unwrap, second),
    ensures
        first is Ok <==> second is Ok,
        first is Ok ==> first->Ok_0.dtype@ == second->Ok_0.dtype@,
{
    let ds = operand_models(columns(inputs), unwrap);
    let es = operand_models(columns(reordered), unwrap);
    ds.to_multiset_ensures();
    es.to_multiset_ensures();
    assert(reordered.len() == inputs.len());
    law_join_result(join, j, inputs, unwrap, first);
    law_join_result(join, j, reordered, unwrap, second);
    law_fold_permutation(j, ds, es);
}

/// A fold reports the first join that fails, in the order of the inputs:
/// once the state before operand `k` fails to join with it, that failure is
/// the fold's state after every later operand.
pub proof fn law_first_failure_is_reported(
    j: Join,
    ds: Seq<DType>,
    k: nat,
    n: nat,
    acc: DType,
    e: Failure,
)
    requires
        0 < k <= n,
        folded(j, ds, (k - 1) as nat) == Ok::<DType, Failure>(acc),
        j(acc, ds[k as int]) == Err::<DType, Failure>(e),
    ensures
        folded(j, ds, n) == Err::<DType, Failure>(e),
    decreases n,
{
    if n > k {
        law_first_failure_is_reported(j, ds, k, (n - 1) as nat, acc, e);
    }
}

/// A struct access by a name that none of the sub-fields has, and any
/// access by name into a type that is no struct, fails and names the name.
pub proof fn law_absent_name_is_not_found(d: DType, name: Seq<char>)
    requires
        forall|k: int| 0 <= k < sub_fields(d).len() ==> (#[trigger] sub_fields(d)[k]).name != name,
    ensures
        field_named(d, name) == Err::<Column, Failure>(Failure::FieldNotFound(name)),
{
    assert forall|k: int| !is_first_named(sub_fields(d), name, k) by {
        if 0 <= k < sub_fields(d).len() {
            assert(sub_fields(d)[k].name != name);
        }
    }
}

/// A struct access by name finds the first sub-field of that name.
pub proof fn law_first_name_is_found(d: DType, name: Seq<char>, k: int)
    requires
        is_first_named(sub_fields(d), name, k),
    ensures
        field_named(d, name) == Ok::<Column, Failure>(sub_fields(d)[k]),
{
    let found = choose|c: int| is_first_named(sub_fields(d), name, c);
    if found < k {
        assert(sub_fields(d)[found].name != name);
    } else if k < found {
        assert(sub_fields(d)[k].name != name);
    }
}

/// In a struct whose sub-field names are unique, an access by name finds
/// the one sub-field that has the name.
pub proof fn law_unique_name_is_found(d: DType, name: Seq<char>, k: int)
    requires
        has_unique_names(sub_fields(d)),
        0 <= k < sub_fields(d).len(),
        sub_fields(d)[k].name == name,
    ensures
        field_named(d, name) == Ok::<Column, Failure>(sub_fields(d)[k]),
{
    assert forall|j: int| 0 <= j < k implies (#[trigger] sub_fields(d)[j]).name != name by {
        assert(sub_fields(d)[j].name != sub_fields(d)[k].name);
    }
    law_first_name_is_found(d, name, k);
}

/// The difference of points in time is a duration of their unit, whatever
/// their zone.
pub proof fn law_diff_of_datetime(tu: TimeUnit, zone: Option<Seq<char>>)
    ensures
        diff_type(DType::Datetime(tu, zone)) == DType::Duration(tu),
{
}

/// A change of zone on anything but a point in time fails, and the failure
/// names the type found and the kind expected.
pub proof fn law_zone_needs_datetime(c: Column, zone: Option<Seq<char>>)
    requires
        !(c.dtype is Datetime),
    ensures
        zoned(c, zone) == Err::<Column, Failure>(
            Failure::TypeMismatch { expected: datetime_word(), actual: c.dtype },
        ),
{
}

} // verus!
