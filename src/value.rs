use chrono::NaiveDateTime;
use vstd::prelude::*;

verus! {

/// chrono's `NaiveDateTime`, carried unopened from a decoded cell or a
/// parameter to the caller or to the binder.
#[verifier::external_type_specification]
#[verifier::external_body]
pub struct ExNaiveDateTime(NaiveDateTime);

/// A scalar that can be bound as a parameter or read back from a cell.
/// Floating-point values are held as their IEEE-754 bit patterns.
#[derive(Clone, Debug, PartialEq)]
pub enum SqlValue {
    String(Option<String>),
    Int(Option<i32>),
    Float32(Option<u32>),
    Float64(Option<u64>),
    Bool(Option<bool>),
    Timestamp(Option<NaiveDateTime>),
    Null,
}

/// The semantic kind that a column's wire type selects.
#[derive(Clone, Copy, Debug, PartialEq, Eq, Structural)]
pub enum ColumnKind {
    Text,
    Int,
    Float32,
    Float64,
    Bool,
    Timestamp,
    Unsupported,
}

pub const OID_BOOL: u32 = 16;
pub const OID_NAME: u32 = 19;
pub const OID_INT4: u32 = 23;
pub const OID_TEXT: u32 = 25;
pub const OID_FLOAT4: u32 = 700;
pub const OID_FLOAT8: u32 = 701;
pub const OID_VARCHAR: u32 = 1043;
pub const OID_TIMESTAMP: u32 = 1114;

/// The kind of a column whose wire type identifier is `oid`.
pub open spec fn kind_of(oid: u32) -> ColumnKind {
    if oid == OID_VARCHAR || oid == OID_TEXT || oid == OID_NAME {
        ColumnKind::Text
    } else if oid == OID_INT4 {
        ColumnKind::Int
    } else if oid == OID_BOOL {
        ColumnKind::Bool
    } else if oid == OID_FLOAT4 {
        ColumnKind::Float32
    } else if oid == OID_FLOAT8 {
        ColumnKind::Float64
    } else if oid == OID_TIMESTAMP {
        ColumnKind::Timestamp
    } else {
        ColumnKind::Unsupported
    }
}

/// Whether `v` is the variant that a column of kind `kind` decodes to.
pub open spec fn fits_kind(kind: ColumnKind, v: SqlValue) -> bool {
    match kind {
        ColumnKind::Text => v is String,
        ColumnKind::Int => v is Int,
        ColumnKind::Float32 => v is Float32,
        ColumnKind::Float64 => v is Float64,
        ColumnKind::Bool => v is Bool,
        ColumnKind::Timestamp => v is Timestamp,
        ColumnKind::Unsupported => false,
    }
}

/// The value that a cell of a column of kind `kind` holds in a result:
/// the decoded value where it is of the column's variant, else the null
/// variant.
pub open spec fn admitted(kind: ColumnKind, v: SqlValue) -> SqlValue {
    if fits_kind(kind, v) {
        v
    } else {
        SqlValue::Null
    }
}

/// Maps a wire type identifier to the kind of value its cells decode to.
pub fn column_kind(oid: u32) -> (r: ColumnKind)
    ensures
        r == kind_of(oid),
{
    if oid == OID_VARCHAR || oid == OID_TEXT || oid == OID_NAME {
        ColumnKind::Text
    } else if oid == OID_INT4 {
        ColumnKind::Int
    } else if oid == OID_BOOL {
        ColumnKind::Bool
    } else if oid == OID_FLOAT4 {
        ColumnKind::Float32
    } else if oid == OID_FLOAT8 {
        ColumnKind::Float64
    } else if oid == OID_TIMESTAMP {
        ColumnKind::Timestamp
    } else {
        ColumnKind::Unsupported
    }
}

/// Whether a decoded value is of the variant that `kind` calls for.
pub fn value_fits_kind(kind: ColumnKind, v: &SqlValue) -> (r: bool)
    ensures
        r == fits_kind(kind, *v),
{
    match kind {
        ColumnKind::Text => matches!(v, SqlValue::String(_)),
        ColumnKind::Int => matches!(v, SqlValue::Int(_)),
        ColumnKind::Float32 => matches!(v, SqlValue::Float32(_)),
        ColumnKind::Float64 => matches!(v, SqlValue::Float64(_)),
        ColumnKind::Bool => matches!(v, SqlValue::Bool(_)),
        ColumnKind::Timestamp => matches!(v, SqlValue::Timestamp(_)),
        ColumnKind::Unsupported => false,
    }
}

/// The value a cell contributes to a result row: the decoded value where it
/// is of the column's variant, the null variant otherwise (in particular for
/// every column whose type has no mapping).
pub fn admit_cell(kind: ColumnKind, v: SqlValue) -> (r: SqlValue)
    ensures
        r == admitted(kind, v),
{
    if value_fits_kind(kind, &v) {
        v
    } else {
        SqlValue::Null
    }
}

/// A copy of `v`.
pub fn copy_value(v: &SqlValue) -> (r: SqlValue)
    ensures
        r == *v,
{
    match v {
        SqlValue::String(s) => SqlValue::String(
            match s {
                Some(t) => Some(t.clone()),
                None => None,
            },
        ),
        SqlValue::Int(i) => SqlValue::Int(*i),
        SqlValue::Float32(f) => SqlValue::Float32(*f),
        SqlValue::Float64(f) => SqlValue::Float64(*f),
        SqlValue::Bool(b) => SqlValue::Bool(*b),
        SqlValue::Timestamp(t) => SqlValue::Timestamp(
            match t {
                Some(x) => Some(*x),
                None => None,
            },
        ),
        SqlValue::Null => SqlValue::Null,
    }
}

} // verus!
