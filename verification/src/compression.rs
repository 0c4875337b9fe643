//! The compression engine: turns a payload into the bytes it stands for.
//!
//! A payload is either stored as it is or a Zstandard stream. The header
//! declares how long the decompressed payload is; a stream that does not
//! decode to exactly that many bytes is refused.

use vstd::prelude::*;
use vstd::slice::slice_to_vec;

use crate::consts::TransactionPayloadCompressionType;
use crate::error::TransactionPayloadError;

verus! {

/// What `zstd::stream::copy_decode` makes of the stream `source` when its
/// destination has room for `capacity` bytes: the bytes that it wrote where
/// it returns `Ok`, and `None` where it returns an error. It returns an
/// error where the stream is not well formed and where it decodes to more
/// than `capacity` bytes.
pub uninterp spec fn zstd_decoded(source: Seq<u8>, capacity: nat) -> Option<Seq<u8>>;

/// Decodes the Zstandard stream `source` into `dest`, from its front, and
/// never past its end. Gives the number of bytes of `dest` that were left
/// unwritten, or `None` where the decoder failed.
///
/// Calls `zstd::stream::copy_decode` with `source` as the reader and the
/// bytes of `dest` as the writer. The contract is taken on trust. It claims
/// that the length of `dest` does not change, that on success the written
/// front of `dest` is what `zstd_decoded` names for this stream and this
/// room, and that on failure `zstd_decoded` names `None`.
#[verifier::external_body]
fn zstd_copy_decode(source: &[u8], dest: &mut Vec<u8>) -> (r: Option<usize>)
    ensures
        final(dest)@.len() == old(dest)@.len(),
        match r {
            Some(left) => left <= old(dest)@.len() && zstd_decoded(source@, old(dest)@.len())
                == Some(final(dest)@.take(old(dest)@.len() - left)),
            None => zstd_decoded(source@, old(dest)@.len()) is None,
        },
{
    let mut room: &mut [u8] = dest.as_mut_slice();
    match zstd::stream::copy_decode(source, &mut room) {
        Ok(()) => Some(room.len()),
        Err(_) => None,
    }
}

/// What a decoder's outcome is worth against the declared size: the decoded
/// bytes where there are exactly `declared` of them, a failure otherwise.
pub open spec fn spec_check_decoded(declared: nat, decoded: Option<Seq<u8>>) -> Result<
    Seq<u8>,
    TransactionPayloadError,
> {
    match decoded {
        Some(bytes) => if bytes.len() == declared {
            Ok(bytes)
        } else {
            Err(TransactionPayloadError::DecompressionFailure)
        },
        None => Err(TransactionPayloadError::DecompressionFailure),
    }
}

/// The bytes that a payload stands for, or the reason why it stands for
/// none.
///
/// A payload that is not compressed stands for itself. A Zstandard payload
/// stands for what its stream decodes to, provided that this is exactly
/// `uncompressed_size` bytes; a declared size that no buffer can have is
/// refused outright.
pub open spec fn spec_decompress(
    algorithm: TransactionPayloadCompressionType,
    uncompressed_size: u64,
    payload: Seq<u8>,
) -> Result<Seq<u8>, TransactionPayloadError> {
    match algorithm {
        TransactionPayloadCompressionType::NONE => Ok(payload),
        TransactionPayloadCompressionType::ZSTD => if uncompressed_size > isize::MAX {
            Err(TransactionPayloadError::DecompressionFailure)
        } else {
            spec_check_decoded(
                uncompressed_size as nat,
                zstd_decoded(payload, uncompressed_size as nat),
            )
        },
    }
}

/// Decompression never hands out a short or overlong result: a payload that
/// is not compressed comes back as it is, and a compressed one comes back
/// with exactly the declared number of bytes or not at all.
pub proof fn lemma_decompressed_size(
    algorithm: TransactionPayloadCompressionType,
    uncompressed_size: u64,
    payload: Seq<u8>,
)
    ensures
        algorithm == TransactionPayloadCompressionType::NONE ==> spec_decompress(
            algorithm,
            uncompressed_size,
            payload,
        ) == Ok::<Seq<u8>, TransactionPayloadError>(payload),
        algorithm != TransactionPayloadCompressionType::NONE ==> match spec_decompress(
            algorithm,
            uncompressed_size,
            payload,
        ) {
            Ok(bytes) => bytes.len() == uncompressed_size,
            Err(e) => e == TransactionPayloadError::DecompressionFailure,
        },
{
}

/// Judges the outcome of a decoder that wrote into `buf`, a buffer of the
/// declared size. `unwritten` is the number of bytes of `buf` that the
/// decoder left unwritten, or `None` where it failed.
///
/// The buffer is handed back only where the decoder succeeded and filled
/// all of it. A failure is never turned into an empty result.
pub fn check_decoded(buf: Vec<u8>, unwritten: Option<usize>) -> (r: Result<
    Vec<u8>,
    TransactionPayloadError,
>)
    ensures
        unwritten == Some(0usize) ==> r == Ok::<Vec<u8>, TransactionPayloadError>(buf),
        unwritten != Some(0usize) ==> r == Err::<Vec<u8>, TransactionPayloadError>(
            TransactionPayloadError::DecompressionFailure,
        ),
{
    match unwritten {
        Some(left) => if left == 0 {
            Ok(buf)
        } else {
            Err(TransactionPayloadError::DecompressionFailure)
        },
        None => Err(TransactionPayloadError::DecompressionFailure),
    }
}

/// Decompresses `payload` as `algorithm` says, into a buffer of exactly
/// `uncompressed_size` bytes.
pub fn decompress(
    algorithm: TransactionPayloadCompressionType,
    uncompressed_size: u64,
    payload: &[u8],
) -> (r: Result<Vec<u8>, TransactionPayloadError>)
    ensures
        match spec_decompress(algorithm, uncompressed_size, payload@) {
            Ok(bytes) => r is Ok && r->Ok_0@ == bytes,
            Err(e) => r == Err::<Vec<u8>, TransactionPayloadError>(e),
        },
{
    match algorithm {
        TransactionPayloadCompressionType::NONE => Ok(slice_to_vec(payload)),
        TransactionPayloadCompressionType::ZSTD => {
            if uncompressed_size > isize::MAX as u64 {
                return Err(TransactionPayloadError::DecompressionFailure);
            }
            let mut buf = vec![0u8; uncompressed_size as usize];
            let unwritten = zstd_copy_decode(payload, &mut buf);
            check_decoded(buf, unwritten)
        },
    }
}

} // verus!
