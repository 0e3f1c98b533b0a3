//! The value model: what flows between JSON payloads, bound SQL parameters,
//! and storage rows. A real number is carried as its IEEE 754 bit pattern
//! (`u64`), so the library itself never computes on floating point; the
//! surrounding I/O layer converts to and from the machine float type.

use vstd::prelude::*;

verus! {

/// A scalar JSON value, as it appears in request payloads and in marshalled
/// rows. `Real` holds the bit pattern of a 64-bit IEEE 754 float.
#[derive(Clone, Debug, PartialEq, Eq)]
pub enum JsonVal {
    Null,
    Bool(bool),
    Int(i64),
    Real(u64),
    Str(String),
}

/// A value bound to one SQL parameter, tagged by kind so that the storage
/// engine receives it natively rather than coerced to text. `Real` holds an
/// IEEE 754 bit pattern.
#[derive(Clone, Debug, PartialEq, Eq)]
pub enum SqlValue {
    Null,
    Bool(bool),
    Int(i64),
    Real(u64),
    Text(String),
}

/// One cell of a storage result row, mirroring the storage engine's value
/// kinds. Text arrives as raw bytes, not yet decoded; `Real` holds an IEEE
/// 754 bit pattern.
#[derive(Clone, Debug, PartialEq, Eq)]
pub enum CellValue {
    Null,
    Int(i64),
    Real(u64),
    Text(Vec<u8>),
    Blob(Vec<u8>),
}

/// A JSON object with string keys in a fixed order: the decoded form of a
/// request body, and the marshalled form of a storage row.
#[derive(Clone, Debug, PartialEq, Eq)]
pub struct Record {
    pub fields: Vec<(String, JsonVal)>,
}

/// The SQL parameter that a payload value is bound as: each JSON kind maps
/// to the native kind of the same shape.
pub open spec fn bound_value(j: JsonVal) -> SqlValue {
    match j {
        JsonVal::Null => SqlValue::Null,
        JsonVal::Bool(b) => SqlValue::Bool(b),
        JsonVal::Int(n) => SqlValue::Int(n),
        JsonVal::Real(bits) => SqlValue::Real(bits),
        JsonVal::Str(s) => SqlValue::Text(s),
    }
}

/// Converts one payload value into the parameter that is bound for it.
pub fn to_sql_value(j: &JsonVal) -> (r: SqlValue)
    ensures
        r == bound_value(*j),
{
    match j {
        JsonVal::Null => SqlValue::Null,
        JsonVal::Bool(b) => SqlValue::Bool(*b),
        JsonVal::Int(n) => SqlValue::Int(*n),
        JsonVal::Real(bits) => SqlValue::Real(*bits),
        JsonVal::Str(s) => SqlValue::Text(s.clone()),
    }
}

} // verus!
