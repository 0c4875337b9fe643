//! The ways in which decoding a transaction payload can fail.

use vstd::prelude::*;

verus! {

/// Why a transaction payload could not be decoded or decompressed.
///
/// Every failure is handed back to the caller as one of these values; none
/// is papered over with an empty or default result.
#[derive(Debug, Clone, Copy, PartialEq, Eq, Hash, Structural)]
pub enum TransactionPayloadError {
    /// The end mark of the header was reached before both the payload size
    /// and the compression type had been given.
    MalformedHeader,
    /// The header declares a payload longer than the bytes that follow it.
    BufferOverrun,
    /// The compression type field holds a value that names no known
    /// algorithm.
    UnknownAlgorithm,
    /// The input ended before the end mark of the header was seen.
    TruncatedInput,
    /// The decompressor rejected the payload, or it produced a number of
    /// bytes other than the declared uncompressed size.
    DecompressionFailure,
}

} // verus!
