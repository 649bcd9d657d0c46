use vstd::prelude::*;
use vstd::pervasive::unreached;

use crate::codec::{
    brotli_compressed, brotli_decode, brotli_decompressed, brotli_encode, deflate_decode,
    deflate_encode, deflated, inflated,
};
use crate::error::SqlError;
use crate::value::{arg_bytes, arg_ok, marshal_arg, SqlValue};

verus! {

/// Dispatch target of the SQL function `deflate`: compresses the binary
/// payload of the single argument with the DEFLATE codec.
///
/// Succeeds exactly when the argument at position zero exists and is
/// coercible to bytes, and then returns the DEFLATE encoding of those bytes;
/// compression itself never fails.
pub fn deflate(args: &[SqlValue]) -> (r: Result<Vec<u8>, SqlError>)
    ensures
        match r {
            Ok(out) => arg_ok(args@, 0) && out@ == deflated(arg_bytes(args@, 0)) && inflated(
                out@,
            ) == Some(arg_bytes(args@, 0)),
            Err(e) => !arg_ok(args@, 0) && e == (SqlError::ArgumentError { position: 0 }),
        },
{
    let input = match marshal_arg(args, 0) {
        Ok(b) => b,
        Err(e) => return Err(e),
    };
    Ok(deflate_encode(input))
}

/// Dispatch target of the SQL function `inflate`: decompresses the binary
/// payload of the single argument with the DEFLATE codec.
///
/// Fails with `ArgumentError` exactly when the argument at position zero is
/// absent or not coercible to bytes — the codec is never consulted then —
/// and with `DecodeError` exactly when the payload is not a valid DEFLATE
/// stream; otherwise it returns the decoded bytes.
pub fn inflate(args: &[SqlValue]) -> (r: Result<Vec<u8>, SqlError>)
    ensures
        match r {
            Ok(out) => arg_ok(args@, 0) && inflated(arg_bytes(args@, 0)) == Some(out@),
            Err(e) => match e {
                SqlError::ArgumentError { position } => position == 0 && !arg_ok(args@, 0),
                SqlError::DecodeError { .. } => arg_ok(args@, 0) && inflated(
                    arg_bytes(args@, 0),
                ) is None,
            },
        },
{
    let input = match marshal_arg(args, 0) {
        Ok(b) => b,
        Err(e) => return Err(e),
    };
    match deflate_decode(input) {
        Ok(out) => Ok(out),
        Err(message) => Err(SqlError::DecodeError { message }),
    }
}

/// Dispatch target of the SQL function `brotli_compress`: compresses the
/// binary payload of the single argument with the Brotli codec.
///
/// Succeeds exactly when the argument at position zero exists and is
/// coercible to bytes, and then returns the Brotli encoding of those bytes;
/// compression itself never fails.
pub fn brotli_compress(args: &[SqlValue]) -> (r: Result<Vec<u8>, SqlError>)
    ensures
        match r {
            Ok(out) => arg_ok(args@, 0) && out@ == brotli_compressed(arg_bytes(args@, 0))
                && brotli_decompressed(out@) == Some(arg_bytes(args@, 0)),
            Err(e) => !arg_ok(args@, 0) && e == (SqlError::ArgumentError { position: 0 }),
        },
{
    let input = match marshal_arg(args, 0) {
        Ok(b) => b,
        Err(e) => return Err(e),
    };
    Ok(brotli_encode(input))
}

/// Dispatch target of the SQL function `brotli_decompress`: decompresses the
/// binary payload of the single argument with the Brotli codec.
///
/// Fails with `ArgumentError` exactly when the argument at position zero is
/// absent or not coercible to bytes — the codec is never consulted then —
/// and with `DecodeError` exactly when the payload is not a valid Brotli
/// stream; otherwise it returns the decoded bytes.
pub fn brotli_decompress(args: &[SqlValue]) -> (r: Result<Vec<u8>, SqlError>)
    ensures
        match r {
            Ok(out) => arg_ok(args@, 0) && brotli_decompressed(arg_bytes(args@, 0)) == Some(out@),
            Err(e) => match e {
                SqlError::ArgumentError { position } => position == 0 && !arg_ok(args@, 0),
                SqlError::DecodeError { .. } => arg_ok(args@, 0) && brotli_decompressed(
                    arg_bytes(args@, 0),
                ) is None,
            },
        },
{
    let input = match marshal_arg(args, 0) {
        Ok(b) => b,
        Err(e) => return Err(e),
    };
    match brotli_decode(input) {
        Ok(out) => Ok(out),
        Err(message) => Err(SqlError::DecodeError { message }),
    }
}

/// Round trip for the DEFLATE codec: decompressing what `deflate` produced
/// returns the original bytes exactly, for every input, the empty one
/// included.
pub fn deflate_round_trip(input: Vec<u8>) -> (r: Vec<u8>)
    ensures
        r@ == input@,
{
    let compress_args: Vec<SqlValue> = vec![SqlValue::Blob(input)];
    let compressed = match deflate(compress_args.as_slice()) {
        Ok(c) => c,
        Err(_) => unreached(),
    };
    let decompress_args: Vec<SqlValue> = vec![SqlValue::Blob(compressed)];
    match inflate(decompress_args.as_slice()) {
        Ok(out) => out,
        Err(_) => unreached(),
    }
}

/// Round trip for the Brotli codec: decompressing what `brotli_compress`
/// produced returns the original bytes exactly, for every input, the empty
/// one included.
pub fn brotli_round_trip(input: Vec<u8>) -> (r: Vec<u8>)
    ensures
        r@ == input@,
{
    let compress_args: Vec<SqlValue> = vec![SqlValue::Blob(input)];
    let compressed = match brotli_compress(compress_args.as_slice()) {
        Ok(c) => c,
        Err(_) => unreached(),
    };
    let decompress_args: Vec<SqlValue> = vec![SqlValue::Blob(compressed)];
    match brotli_decompress(decompress_args.as_slice()) {
        Ok(out) => out,
        Err(_) => unreached(),
    }
}

/// Determinism for the DEFLATE codec: two `deflate` calls on byte-identical
/// inputs return byte-identical output, pinned to a function of the input
/// bytes alone.
pub fn deflate_deterministic(first: Vec<u8>, second: Vec<u8>) -> (r: (Vec<u8>, Vec<u8>))
    requires
        first@ == second@,
    ensures
        r.0@ == r.1@,
        r.0@ == deflated(first@),
{
    let first_args: Vec<SqlValue> = vec![SqlValue::Blob(first)];
    let first_out = match deflate(first_args.as_slice()) {
        Ok(c) => c,
        Err(_) => unreached(),
    };
    let second_args: Vec<SqlValue> = vec![SqlValue::Blob(second)];
    let second_out = match deflate(second_args.as_slice()) {
        Ok(c) => c,
        Err(_) => unreached(),
    };
    (first_out, second_out)
}

/// Determinism for the Brotli codec: two `brotli_compress` calls on
/// byte-identical inputs return byte-identical output, pinned to a function
/// of the input bytes alone.
pub fn brotli_deterministic(first: Vec<u8>, second: Vec<u8>) -> (r: (Vec<u8>, Vec<u8>))
    requires
        first@ == second@,
    ensures
        r.0@ == r.1@,
        r.0@ == brotli_compressed(first@),
{
    let first_args: Vec<SqlValue> = vec![SqlValue::Blob(first)];
    let first_out = match brotli_compress(first_args.as_slice()) {
        Ok(c) => c,
        Err(_) => unreached(),
    };
    let second_args: Vec<SqlValue> = vec![SqlValue::Blob(second)];
    let second_out = match brotli_compress(second_args.as_slice()) {
        Ok(c) => c,
        Err(_) => unreached(),
    };
    (first_out, second_out)
}

} // verus!
