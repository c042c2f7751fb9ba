use chrono::NaiveDateTime;
use vstd::prelude::*;

use crate::value::{copy_value, SqlValue};

verus! {

/// A parameter as it is handed to the driver: its runtime type follows the
/// variant of the value it came from.
#[derive(Clone, Debug, PartialEq)]
pub enum BoundParam {
    Text(Option<String>),
    Int(Option<i32>),
    Float32(Option<u32>),
    Float64(Option<u64>),
    Bool(Option<bool>),
    Timestamp(Option<NaiveDateTime>),
}

/// Whether `b` is the parameter that `v` binds to. Each variant binds to the
/// parameter of the same type with the same inner value; the null variant
/// binds to the empty text literal, not to SQL null.
pub open spec fn binds_to(v: SqlValue, b: BoundParam) -> bool {
    match v {
        SqlValue::String(s) => b == BoundParam::Text(s),
        SqlValue::Int(i) => b == BoundParam::Int(i),
        SqlValue::Float32(f) => b == BoundParam::Float32(f),
        SqlValue::Float64(f) => b == BoundParam::Float64(f),
        SqlValue::Bool(x) => b == BoundParam::Bool(x),
        SqlValue::Timestamp(t) => b == BoundParam::Timestamp(t),
        SqlValue::Null => match b {
            BoundParam::Text(Some(s)) => s@ == Seq::<char>::empty(),
            _ => false,
        },
    }
}

/// The parameter that `v` binds to.
pub fn bind_param(v: &SqlValue) -> (r: BoundParam)
    ensures
        binds_to(*v, r),
{
    match copy_value(v) {
        SqlValue::String(s) => BoundParam::Text(s),
        SqlValue::Int(i) => BoundParam::Int(i),
        SqlValue::Float32(f) => BoundParam::Float32(f),
        SqlValue::Float64(f) => BoundParam::Float64(f),
        SqlValue::Bool(x) => BoundParam::Bool(x),
        SqlValue::Timestamp(t) => BoundParam::Timestamp(t),
        SqlValue::Null => BoundParam::Text(Some(String::new())),
    }
}

/// The parameters for `params`, in order: the i-th binds to the i-th
/// placeholder of the statement.
pub fn bind_params(params: &Vec<SqlValue>) -> (r: Vec<BoundParam>)
    ensures
        r.len() == params.len(),
        forall|i: int| 0 <= i < params.len() ==> binds_to(#[trigger] params[i], r[i]),
{
    let mut r: Vec<BoundParam> = Vec::new();
    let mut i: usize = 0;
    while i < params.len()
        invariant
            i <= params.len(),
            r.len() == i,
            forall|j: int| 0 <= j < i ==> binds_to(#[trigger] params[j], r[j]),
        decreases params.len() - i,
    {
        r.push(bind_param(&params[i]));
        i += 1;
    }
    r
}

} // verus!
