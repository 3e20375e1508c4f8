//! Access to the sub-fields of a struct column, by position and by name.

use vstd::prelude::*;
use crate::dtype::{DataType, DType, Field, Column};
use crate::error::{InferError, Failure};
use crate::combinators::field_result;

verus! {

/// The sub-fields of a struct, in order; none for any other type.
pub open spec fn sub_fields(d: DType) -> Seq<Column> {
    match d {
        DType::Struct(fields) => fields,
        _ => Seq::empty(),
    }
}

/// The position that an index stands for among `length` items: a negative
/// index counts from the end. `None` where the position falls outside.
pub open spec fn resolved(index: int, length: nat) -> Option<nat> {
    let effective = if index < 0 {
        length + index
    } else {
        index
    };
    if 0 <= effective < length {
        Some(effective as nat)
    } else {
        None
    }
}

/// The sub-field at an index, or the failure that names index and length.
pub open spec fn field_at(d: DType, index: int) -> Result<Column, Failure> {
    match resolved(index, sub_fields(d).len()) {
        Some(k) => Ok(sub_fields(d)[k as int]),
        None => Err(Failure::IndexOutOfBounds { index, length: sub_fields(d).len() }),
    }
}

/// No two of `fields` have the same name, as in a struct that was built
/// with distinct sub-field names.
pub open spec fn has_unique_names(fields: Seq<Column>) -> bool {
    forall|i: int, j: int|
        0 <= i < j < fields.len() ==> (#[trigger] fields[i]).name != (#[trigger] fields[j]).name
}

/// `k` is the position of the first of `fields` that has the name.
pub open spec fn is_first_named(fields: Seq<Column>, name: Seq<char>, k: int) -> bool {
    &&& 0 <= k < fields.len()
    &&& fields[k].name == name
    &&& forall|j: int| 0 <= j < k ==> (#[trigger] fields[j]).name != name
}

/// The first sub-field of the given name, or the failure that names it.
pub open spec fn field_named(d: DType, name: Seq<char>) -> Result<Column, Failure> {
    if exists|k: int| is_first_named(sub_fields(d), name, k) {
        Ok(sub_fields(d)[choose|k: int| is_first_named(sub_fields(d), name, k)])
    } else {
        Err(Failure::FieldNotFound(name))
    }
}

/// Resolves an index against a length, counting from the end where it is
/// negative.
pub fn resolve_index(index: i64, length: usize) -> (r: Option<usize>)
    ensures
        match r {
            Some(k) => resolved(index as int, length as nat) == Some(k as nat),
            None => resolved(index as int, length as nat) is None,
        },
{
    if index >= 0 {
        let forward: u64 = index as u64;
        if forward < length as u64 {
            Some(forward as usize)
        } else {
            None
        }
    } else {
        let back: u64 = (-(index + 1)) as u64 + 1;
        if back <= length as u64 {
            Some(length - back as usize)
        } else {
            None
        }
    }
}

/// The sub-fields of a struct type, by reference; `None` for any other type.
fn struct_fields(d: &DataType) -> (r: Option<&Vec<Field>>)
    ensures
        match r {
            Some(fields) => *d == DataType::Struct(*fields),
            None => !(d is Struct),
        },
{
    match d {
        DataType::Struct(fields) => Some(fields),
        _ => None,
    }
}

/// The sub-field of the primary input's struct at `index`, under its own
/// name. An index below zero counts from the end.
pub fn field_by_index(inputs: &Vec<Field>, index: i64) -> (r: Result<Field, InferError>)
    requires
        inputs.len() > 0,
    ensures
        field_result(r) == field_at(inputs[0].dtype@, index as int),
{
    match struct_fields(&inputs[0].dtype) {
        Some(fields) => {
            match resolve_index(index, fields.len()) {
                Some(k) => Ok(fields[k].clone()),
                None => Err(InferError::IndexOutOfBounds { index, length: fields.len() }),
            }
        },
        None => Err(InferError::IndexOutOfBounds { index, length: 0 }),
    }
}

/// The first sub-field of the primary input's struct that has the name,
/// under that name. A primary input that is no struct has no such field.
pub fn field_by_name(inputs: &Vec<Field>, name: &String) -> (r: Result<Field, InferError>)
    requires
        inputs.len() > 0,
    ensures
        field_result(r) == field_named(inputs[0].dtype@, name@),
{
    let ghost subs = sub_fields(inputs[0].dtype@);
    match struct_fields(&inputs[0].dtype) {
        Some(fields) => {
            let mut i: usize = 0;
            while i < fields.len()
                invariant
                    i <= fields.len(),
                    inputs.len() > 0,
                    subs == sub_fields(inputs[0].dtype@),
                    subs.len() == fields.len(),
                    forall|k: int| 0 <= k < fields.len() ==> #[trigger] subs[k] == fields@[k]@,
                    forall|j: int| 0 <= j < i ==> (#[trigger] subs[j]).name != name@,
                decreases fields.len() - i,
            {
                if fields[i].name.eq(name) {
                    proof {
                        assert(is_first_named(subs, name@, i as int));
                        let c = choose|k: int| is_first_named(subs, name@, k);
                        assert(c == i) by {
                            if c < i {
                                assert(subs[c].name != name@);
                            } else if i < c {
                                assert(subs[i as int].name != name@);
                            }
                        }
                    }
                    assert(subs[i as int] == fields@[i as int]@);
                    return Ok(fields[i].clone());
                }
                i += 1;
            }
            Err(InferError::FieldNotFound(name.clone()))
        },
        None => Err(InferError::FieldNotFound(name.clone())),
    }
}

} // verus!
