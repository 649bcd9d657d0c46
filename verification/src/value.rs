use vstd::prelude::*;
use vstd::slice::slice_index_get;

use crate::error::SqlError;

verus! {

/// An engine value as the bridge sees it: the dynamically typed argument of
/// a scalar-function call. The bridge reads nothing of a value except its raw
/// bytes, and a `Real` has no binary representation the bridge accepts, so
/// its numeric payload is not modelled.
#[derive(Debug, Clone)]
pub enum SqlValue {
    /// The SQL `NULL` value.
    Null,
    /// A signed integer value.
    Integer(i64),
    /// A floating-point value.
    Real,
    /// A text value, held as its raw byte encoding.
    Text(Vec<u8>),
    /// A binary blob.
    Blob(Vec<u8>),
}

/// A value is coercible to a binary payload when it is a blob or a text
/// value (text counts as its raw byte encoding).
pub open spec fn coercible(v: SqlValue) -> bool {
    v is Blob || v is Text
}

/// The binary payload of a coercible value.
pub open spec fn bytes_of(v: SqlValue) -> Seq<u8> {
    match v {
        SqlValue::Blob(b) => b@,
        SqlValue::Text(t) => t@,
        _ => Seq::empty(),
    }
}

/// The argument at `position` exists and is coercible to bytes.
pub open spec fn arg_ok(args: Seq<SqlValue>, position: int) -> bool {
    0 <= position < args.len() && coercible(args[position])
}

/// The binary payload of the argument at `position`.
pub open spec fn arg_bytes(args: Seq<SqlValue>, position: int) -> Seq<u8> {
    bytes_of(args[position])
}

/// Extracts the binary payload of the argument at `position`: the byte slice
/// view of a blob or text argument, and `ArgumentError` naming the position
/// when the argument is absent or of a type with no binary representation.
pub fn marshal_arg<'a>(args: &'a [SqlValue], position: usize) -> (r: Result<&'a [u8], SqlError>)
    ensures
        match r {
            Ok(b) => arg_ok(args@, position as int) && b@ == arg_bytes(args@, position as int),
            Err(e) => !arg_ok(args@, position as int) && e == (SqlError::ArgumentError {
                position,
            }),
        },
{
    if position >= args.len() {
        return Err(SqlError::ArgumentError { position });
    }
    match slice_index_get(args, position) {
        SqlValue::Blob(b) => Ok(b.as_slice()),
        SqlValue::Text(t) => Ok(t.as_slice()),
        _ => Err(SqlError::ArgumentError { position }),
    }
}

} // verus!
