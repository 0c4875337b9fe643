//! A cursor over the bytes that are still to be read.

use vstd::prelude::*;
use vstd::slice::slice_subrange;

use crate::error::TransactionPayloadError;
use crate::lenenc::{lenenc_read, read_le};

verus! {

/// A cursor over borrowed bytes. Reading moves its front forward; what it
/// hands out borrows from the underlying buffer, not from the cursor.
#[derive(Debug, Clone, Copy)]
pub struct ParseBuf<'a>(pub &'a [u8]);

impl<'a> View for ParseBuf<'a> {
    type V = Seq<u8>;

    /// The bytes that are still to be read.
    open spec fn view(&self) -> Seq<u8> {
        self.0@
    }
}

impl<'a> ParseBuf<'a> {
    /// The number of bytes that are still to be read.
    pub fn len(&self) -> (r: usize)
        ensures
            r == self@.len(),
    {
        self.0.len()
    }

    /// Whether every byte has been read.
    pub fn is_empty(&self) -> (r: bool)
        ensures
            r == (self@.len() == 0),
    {
        self.0.len() == 0
    }

    /// Moves the front forward by `n` bytes.
    pub fn skip(&mut self, n: usize)
        requires
            n <= old(self)@.len(),
        ensures
            final(self)@ == old(self)@.skip(n as int),
    {
        let bytes: &'a [u8] = self.0;
        self.0 = slice_subrange(bytes, n, bytes.len());
    }

    /// Hands out the next `n` bytes and moves the front past them.
    pub fn eat(&mut self, n: usize) -> (r: &'a [u8])
        requires
            n <= old(self)@.len(),
        ensures
            r@ == old(self)@.take(n as int),
            final(self)@ == old(self)@.skip(n as int),
    {
        let bytes: &'a [u8] = self.0;
        let head = slice_subrange(bytes, 0, n);
        self.0 = slice_subrange(bytes, n, bytes.len());
        head
    }

    /// Reads one length-encoded integer. Where the bytes end before the
    /// integer does, the cursor stays where it was.
    pub fn read_lenenc_int(&mut self) -> (r: Result<u64, TransactionPayloadError>)
        ensures
            match lenenc_read(old(self)@) {
                Some((v, n)) => r == Ok::<u64, TransactionPayloadError>(v) && final(self)@ == old(
                    self,
                )@.skip(n as int),
                None => r == Err::<u64, TransactionPayloadError>(
                    TransactionPayloadError::TruncatedInput,
                ) && final(self)@ == old(self)@,
            },
    {
        let bytes: &'a [u8] = self.0;
        if bytes.len() == 0 {
            return Err(TransactionPayloadError::TruncatedInput);
        }
        let first: u8 = bytes[0];
        let width: usize = if first == 0xfc {
            2
        } else if first == 0xfd {
            3
        } else if first == 0xfe {
            8
        } else {
            0
        };
        if width == 0 {
            self.skip(1);
            return Ok(first as u64);
        }
        if bytes.len() - 1 < width {
            return Err(TransactionPayloadError::TruncatedInput);
        }
        let value = read_le(bytes, 1, width);
        self.skip(1 + width);
        Ok(value)
    }
}

} // verus!
