use vstd::prelude::*;

verus! {

/// The two failure kinds visible at the bridge boundary.
///
/// Every failing call surfaces as exactly one of these; compression itself
/// never fails, so a compressing call can only report `ArgumentError`.
#[derive(Debug)]
pub enum SqlError {
    /// The argument at `position` is absent or cannot be coerced to bytes.
    ArgumentError { position: usize },
    /// The input is not a valid compressed stream for the codec that was
    /// asked to decode it; `message` carries the decoder's diagnostic.
    DecodeError { message: String },
}

} // verus!
