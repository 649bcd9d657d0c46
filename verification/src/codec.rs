use vstd::prelude::*;

verus! {

/// Compression level handed to the DEFLATE encoder: a mid-range level that
/// balances speed against output size.
pub const DEFLATE_LEVEL: u8 = 6;

/// Quality handed to the Brotli encoder: a lower "fast" quality chosen for
/// acceptable latency.
pub const BROTLI_QUALITY: i32 = 4;

/// Size of the Brotli writers' internal working buffer. It governs chunking
/// inside the codec and has no bearing on the bytes produced.
pub const BROTLI_BUFFER_SIZE: usize = 4096;

/// The DEFLATE stream that encodes the given bytes at `DEFLATE_LEVEL`.
pub uninterp spec fn deflated(input: Seq<u8>) -> Seq<u8>;

/// The bytes a DEFLATE stream decodes to, or `None` when the input is not a
/// valid DEFLATE stream.
pub uninterp spec fn inflated(input: Seq<u8>) -> Option<Seq<u8>>;

/// The Brotli stream that encodes the given bytes at `BROTLI_QUALITY`.
pub uninterp spec fn brotli_compressed(input: Seq<u8>) -> Seq<u8>;

/// The bytes a Brotli stream decodes to, or `None` when the input is not a
/// valid Brotli stream.
pub uninterp spec fn brotli_decompressed(input: Seq<u8>) -> Option<Seq<u8>>;

/// Relies on miniz_oxide::deflate::compress_to_vec: the result is the DEFLATE
/// encoding of the input at the fixed level, a function of the input bytes
/// alone, and DEFLATE is lossless, so decoding the result gives back exactly
/// the input. Compression accepts every input, the empty one included.
#[verifier::external_body]
pub(crate) fn deflate_encode(input: &[u8]) -> (r: Vec<u8>)
    ensures
        r@ == deflated(input@),
        inflated(r@) == Some(input@),
{
    miniz_oxide::deflate::compress_to_vec(input, DEFLATE_LEVEL)
}

/// Relies on miniz_oxide::inflate::decompress_to_vec: it returns the decoded
/// bytes of a valid DEFLATE stream, and an error status (malformed data,
/// truncated stream) otherwise, deciding by the input bytes alone and never
/// reading past the given slice.
#[verifier::external_body]
pub(crate) fn deflate_decode(input: &[u8]) -> (r: Result<Vec<u8>, String>)
    ensures
        match r {
            Ok(out) => inflated(input@) == Some(out@),
            Err(_) => inflated(input@) is None,
        },
{
    match miniz_oxide::inflate::decompress_to_vec(input) {
        Ok(out) => Ok(out),
        Err(e) => Err(format!("DEFLATE decompression failed: {:?}", e.status)),
    }
}

/// Relies on brotli::CompressorWriter over a Vec sink at the fixed quality:
/// writing into a Vec cannot fail, into_inner finishes the stream, the result
/// is a function of the input bytes alone, and Brotli is lossless, so decoding
/// the result gives back exactly the input. Compression accepts every input,
/// the empty one included; the call aborts rather than return a wrong value
/// if the encoder itself ever failed.
#[verifier::external_body]
pub(crate) fn brotli_encode(input: &[u8]) -> (r: Vec<u8>)
    ensures
        r@ == brotli_compressed(input@),
        brotli_decompressed(r@) == Some(input@),
{
    let params = brotli::enc::BrotliEncoderParams { quality: BROTLI_QUALITY, ..Default::default() };
    let mut writer = brotli::CompressorWriter::with_params(Vec::new(), BROTLI_BUFFER_SIZE, &params);
    std::io::Write::write_all(&mut writer, input).expect("a Vec sink accepts every write");
    writer.into_inner()
}

/// Relies on brotli::DecompressorWriter over a Vec sink: writing the input
/// and closing the writer yields the decoded bytes when the input is one
/// complete valid Brotli stream, and an error (from the failing write or from
/// into_inner) otherwise, deciding by the input bytes alone.
#[verifier::external_body]
pub(crate) fn brotli_decode(input: &[u8]) -> (r: Result<Vec<u8>, String>)
    ensures
        match r {
            Ok(out) => brotli_decompressed(input@) == Some(out@),
            Err(_) => brotli_decompressed(input@) is None,
        },
{
    let mut writer = brotli::DecompressorWriter::new(Vec::new(), BROTLI_BUFFER_SIZE);
    if std::io::Write::write_all(&mut writer, input).is_err() {
        return Err(String::from("brotli decompression failed"));
    }
    match writer.into_inner() {
        Ok(out) => Ok(out),
        Err(_) => Err(String::from("brotli decompression failed")),
    }
}

} // verus!
