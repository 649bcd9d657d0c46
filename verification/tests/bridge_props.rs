use sqlite_codecs::bridge::{
    brotli_compress, brotli_decompress, brotli_deterministic, brotli_round_trip, deflate,
    deflate_deterministic, deflate_round_trip, inflate,
};
use sqlite_codecs::error::SqlError;
use sqlite_codecs::value::SqlValue;

fn blob_args(bytes: &[u8]) -> Vec<SqlValue> {
    vec![SqlValue::Blob(bytes.to_vec())]
}

#[test]
fn deflate_round_trips_through_dispatch() {
    let input = b"the quick brown fox jumps over the lazy dog, twice over: \
                  the quick brown fox jumps over the lazy dog";
    let compressed = deflate(&blob_args(input)).unwrap();
    let decompressed = inflate(&blob_args(&compressed)).unwrap();
    assert_eq!(decompressed, input.to_vec());
}

#[test]
fn brotli_round_trips_through_dispatch() {
    let input = b"the quick brown fox jumps over the lazy dog, twice over: \
                  the quick brown fox jumps over the lazy dog";
    let compressed = brotli_compress(&blob_args(input)).unwrap();
    let decompressed = brotli_decompress(&blob_args(&compressed)).unwrap();
    assert_eq!(decompressed, input.to_vec());
}

#[test]
fn round_trip_functions_accept_empty_input() {
    assert_eq!(deflate_round_trip(Vec::new()), Vec::new());
    assert_eq!(brotli_round_trip(Vec::new()), Vec::new());
}

#[test]
fn round_trip_functions_return_their_input() {
    let input = b"aaaaaaaaa".to_vec();
    assert_eq!(deflate_round_trip(input.clone()), input);
    assert_eq!(brotli_round_trip(input.clone()), input);
}

#[test]
fn text_input_compresses_like_its_bytes() {
    let text_args = vec![SqlValue::Text(b"aaaaaaaaa".to_vec())];
    let compressed = deflate(&text_args).unwrap();
    let decompressed = inflate(&blob_args(&compressed)).unwrap();
    assert_eq!(decompressed, b"aaaaaaaaa".to_vec());
}

#[test]
fn compression_output_is_not_the_input() {
    let input = b"aaaaaaaaaaaaaaaaaaaaaaaaaaaaaaaaaaaaaaaaaaaaaaaaa";
    let deflated = deflate(&blob_args(input)).unwrap();
    let brotlied = brotli_compress(&blob_args(input)).unwrap();
    assert_ne!(deflated, input.to_vec());
    assert_ne!(brotlied, input.to_vec());
}

#[test]
fn compression_is_deterministic() {
    let input = b"determinism check input";
    let first = deflate(&blob_args(input)).unwrap();
    let second = deflate(&blob_args(input)).unwrap();
    assert_eq!(first, second);
    let first = brotli_compress(&blob_args(input)).unwrap();
    let second = brotli_compress(&blob_args(input)).unwrap();
    assert_eq!(first, second);

    let (a, b) = deflate_deterministic(input.to_vec(), input.to_vec());
    assert_eq!(a, b);
    let (a, b) = brotli_deterministic(input.to_vec(), input.to_vec());
    assert_eq!(a, b);
}

#[test]
fn zero_arguments_fail_with_argument_error() {
    let args: Vec<SqlValue> = Vec::new();
    assert!(matches!(
        deflate(&args),
        Err(SqlError::ArgumentError { position: 0 })
    ));
    assert!(matches!(
        inflate(&args),
        Err(SqlError::ArgumentError { position: 0 })
    ));
    assert!(matches!(
        brotli_compress(&args),
        Err(SqlError::ArgumentError { position: 0 })
    ));
    assert!(matches!(
        brotli_decompress(&args),
        Err(SqlError::ArgumentError { position: 0 })
    ));
}

#[test]
fn non_coercible_arguments_fail_with_argument_error() {
    for value in [SqlValue::Null, SqlValue::Integer(42), SqlValue::Real] {
        let args = vec![value];
        assert!(matches!(
            deflate(&args),
            Err(SqlError::ArgumentError { position: 0 })
        ));
        assert!(matches!(
            inflate(&args),
            Err(SqlError::ArgumentError { position: 0 })
        ));
        assert!(matches!(
            brotli_compress(&args),
            Err(SqlError::ArgumentError { position: 0 })
        ));
        assert!(matches!(
            brotli_decompress(&args),
            Err(SqlError::ArgumentError { position: 0 })
        ));
    }
}

#[test]
fn truncated_streams_fail_with_decode_error() {
    let input = b"a long enough input to make truncation meaningful aaaaaaaa";
    let mut compressed = deflate(&blob_args(input)).unwrap();
    compressed.truncate(compressed.len() / 2);
    assert!(matches!(
        inflate(&blob_args(&compressed)),
        Err(SqlError::DecodeError { .. })
    ));

    let mut compressed = brotli_compress(&blob_args(input)).unwrap();
    compressed.truncate(compressed.len() - 1);
    assert!(matches!(
        brotli_decompress(&blob_args(&compressed)),
        Err(SqlError::DecodeError { .. })
    ));
}

#[test]
fn corrupt_streams_fail_with_decode_error() {
    // First DEFLATE byte 0x07 claims the reserved block type (BFINAL=1,
    // BTYPE=11), which no decoder accepts.
    let input = b"aaaaaaaaa";
    let mut compressed = deflate(&blob_args(input)).unwrap();
    compressed[0] = 0x07;
    assert!(matches!(
        inflate(&blob_args(&compressed)),
        Err(SqlError::DecodeError { .. })
    ));

    assert!(matches!(
        inflate(&blob_args(&[])),
        Err(SqlError::DecodeError { .. })
    ));
    assert!(matches!(
        brotli_decompress(&blob_args(&[])),
        Err(SqlError::DecodeError { .. })
    ));
}

#[test]
fn codecs_do_not_interoperate() {
    let input = b"cross-codec check: a body of text that compresses either way, \
                  long enough that neither stream is trivial";
    let brotlied = brotli_compress(&blob_args(input)).unwrap();
    assert!(matches!(
        inflate(&blob_args(&brotlied)),
        Err(SqlError::DecodeError { .. })
    ));

    let deflated = deflate(&blob_args(input)).unwrap();
    assert!(matches!(
        brotli_decompress(&blob_args(&deflated)),
        Err(SqlError::DecodeError { .. })
    ));
}
