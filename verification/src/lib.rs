//! Stream-compression codecs as scalar functions for an embedded relational
//! database engine: a DEFLATE-family codec and a Brotli codec, each exposed
//! as a compressing and a decompressing SQL function over binary values.

pub mod bridge;
pub mod codec;
pub mod engine;
pub mod error;
pub mod value;
