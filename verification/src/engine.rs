use vstd::prelude::*;

use crate::bridge;
use crate::error::SqlError;
use crate::value::SqlValue;

verus! {

#[verifier::external_type_specification]
#[verifier::external_body]
pub struct ExConnection(rusqlite::Connection);

#[verifier::external_type_specification]
#[verifier::external_body]
pub struct ExRusqliteError(rusqlite::Error);

#[verifier::external_type_specification]
#[verifier::external_body]
pub struct ExContext<'a>(rusqlite::functions::Context<'a>);

/// Relies on rusqlite::functions::Context::get_raw and Context::len: the
/// argument at the given position, read off the engine's dynamically typed
/// value, variant by variant. An absent argument (a position at or past the
/// argument count, which get_raw would panic on) comes back as `Null`, which
/// the marshaller rejects like every other non-coercible value.
#[verifier::external_body]
fn context_arg(ctx: &rusqlite::functions::Context, position: usize) -> (r: SqlValue) {
    if position >= ctx.len() {
        return SqlValue::Null;
    }
    match ctx.get_raw(position) {
        rusqlite::types::ValueRef::Null => SqlValue::Null,
        rusqlite::types::ValueRef::Integer(i) => SqlValue::Integer(i),
        rusqlite::types::ValueRef::Real(_) => SqlValue::Real,
        rusqlite::types::ValueRef::Text(t) => SqlValue::Text(t.to_vec()),
        rusqlite::types::ValueRef::Blob(b) => SqlValue::Blob(b.to_vec()),
    }
}

/// Relies on rusqlite::Error::UserFunctionError: carries a user-function
/// failure, with its human-readable message, to the engine's error channel,
/// distinct from the engine's internal errors.
#[verifier::external_body]
fn engine_error(e: SqlError) -> (r: rusqlite::Error) {
    let message = match e {
        SqlError::ArgumentError { position } => {
            format!("argument {} is not a blob or text", position)
        },
        SqlError::DecodeError { message } => message,
    };
    rusqlite::Error::UserFunctionError(message.into())
}

/// Relies on rusqlite::Connection::create_scalar_function: binds the SQL
/// function `deflate`, arity one, flagged UTF-8 and deterministic, to a
/// dispatch into the verified bridge; returns an error when the binding
/// cannot be attached to the connection.
#[verifier::external_body]
fn register_deflate(db: &rusqlite::Connection) -> (r: Result<(), rusqlite::Error>) {
    db.create_scalar_function(
        "deflate",
        1,
        rusqlite::functions::FunctionFlags::SQLITE_UTF8
            | rusqlite::functions::FunctionFlags::SQLITE_DETERMINISTIC,
        |ctx| bridge::deflate(&[context_arg(ctx, 0)]).map_err(engine_error),
    )
}

/// Relies on rusqlite::Connection::create_scalar_function: binds the SQL
/// function `inflate`, arity one, flagged UTF-8 and deterministic, to a
/// dispatch into the verified bridge; returns an error when the binding
/// cannot be attached to the connection.
#[verifier::external_body]
fn register_inflate(db: &rusqlite::Connection) -> (r: Result<(), rusqlite::Error>) {
    db.create_scalar_function(
        "inflate",
        1,
        rusqlite::functions::FunctionFlags::SQLITE_UTF8
            | rusqlite::functions::FunctionFlags::SQLITE_DETERMINISTIC,
        |ctx| bridge::inflate(&[context_arg(ctx, 0)]).map_err(engine_error),
    )
}

/// Relies on rusqlite::Connection::create_scalar_function: binds the SQL
/// function `brotli_compress`, arity one, flagged UTF-8 and deterministic,
/// to a dispatch into the verified bridge; returns an error when the binding
/// cannot be attached to the connection.
#[verifier::external_body]
fn register_brotli_compress(db: &rusqlite::Connection) -> (r: Result<(), rusqlite::Error>) {
    db.create_scalar_function(
        "brotli_compress",
        1,
        rusqlite::functions::FunctionFlags::SQLITE_UTF8
            | rusqlite::functions::FunctionFlags::SQLITE_DETERMINISTIC,
        |ctx| bridge::brotli_compress(&[context_arg(ctx, 0)]).map_err(engine_error),
    )
}

/// Relies on rusqlite::Connection::create_scalar_function: binds the SQL
/// function `brotli_decompress`, arity one, flagged UTF-8 and deterministic,
/// to a dispatch into the verified bridge; returns an error when the binding
/// cannot be attached to the connection.
#[verifier::external_body]
fn register_brotli_decompress(db: &rusqlite::Connection) -> (r: Result<(), rusqlite::Error>) {
    db.create_scalar_function(
        "brotli_decompress",
        1,
        rusqlite::functions::FunctionFlags::SQLITE_UTF8
            | rusqlite::functions::FunctionFlags::SQLITE_DETERMINISTIC,
        |ctx| bridge::brotli_decompress(&[context_arg(ctx, 0)]).map_err(engine_error),
    )
}

/// Binds `deflate` and `inflate` on the given connection, both deterministic
/// scalar functions of one argument. A second call on the same connection
/// replaces the earlier bindings — the engine keeps one binding per name and
/// arity — so re-initialization neither leaks nor duplicates them.
pub fn add_deflate_functions(db: &rusqlite::Connection) -> (r: Result<(), rusqlite::Error>) {
    match register_deflate(db) {
        Ok(_) => register_inflate(db),
        Err(e) => Err(e),
    }
}

/// Binds `brotli_compress` and `brotli_decompress` on the given connection,
/// both deterministic scalar functions of one argument. A second call on the
/// same connection replaces the earlier bindings — the engine keeps one
/// binding per name and arity — so re-initialization neither leaks nor
/// duplicates them.
pub fn add_brotli_functions(db: &rusqlite::Connection) -> (r: Result<(), rusqlite::Error>) {
    match register_brotli_compress(db) {
        Ok(_) => register_brotli_decompress(db),
        Err(e) => Err(e),
    }
}

} // verus!
