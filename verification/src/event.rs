//! The transaction payload event: the fields of its header, its payload,
//! and the accounting derived from them.

use std::borrow::Cow;
use vstd::prelude::*;
use vstd::slice::slice_to_vec;

use crate::accounting::{encoded_length, spec_encoded_length};
use crate::compression::{decompress, spec_decompress};
use crate::consts::{TransactionPayloadCompressionType, TransactionPayloadFields};
use crate::error::TransactionPayloadError;
use crate::header::{
    end_mark_bytes,
    field_bytes,
    lemma_read_entry_bounds,
    put_field,
    read_entry,
    shifted,
    spec_read_header,
    HeaderEntry,
    HeaderFields,
};
use crate::lenenc::put_lenenc_int;
use crate::parse_buf::ParseBuf;

verus! {

/// What a transaction payload event holds, as plain values.
pub struct TransactionPayloadEventView {
    /// The declared length of the payload in bytes.
    pub payload_size: u64,
    /// The compression algorithm of the payload.
    pub algorithm: TransactionPayloadCompressionType,
    /// The declared length of the payload once decompressed.
    pub uncompressed_size: u64,
    /// The payload as it stands on the wire.
    pub payload: Seq<u8>,
    /// The number of bytes that the header took when the event was read;
    /// zero for an event that was not read from bytes.
    pub header_size: nat,
}

impl TransactionPayloadEventView {
    /// The bytes of the header that `serialize` writes: compression type,
    /// then the uncompressed size if the payload is compressed, then the
    /// payload size, then the end mark.
    pub open spec fn header_bytes(self) -> Seq<u8> {
        field_bytes(
            TransactionPayloadFields::OTW_PAYLOAD_COMPRESSION_TYPE_FIELD,
            self.algorithm.code(),
        ) + (if self.algorithm != TransactionPayloadCompressionType::NONE {
            field_bytes(
                TransactionPayloadFields::OTW_PAYLOAD_UNCOMPRESSED_SIZE_FIELD,
                self.uncompressed_size,
            )
        } else {
            Seq::<u8>::empty()
        }) + field_bytes(TransactionPayloadFields::OTW_PAYLOAD_SIZE_FIELD, self.payload_size)
            + end_mark_bytes()
    }

    /// The bytes that `serialize` writes: the header, then the payload as
    /// it is.
    pub open spec fn serialized(self) -> Seq<u8> {
        self.header_bytes() + self.payload
    }

    /// What `deserialize` makes of the bytes `s`: the event and the bytes
    /// left after its payload, or the reason why `s` holds no event.
    ///
    /// The header is read up to its end mark. It must have given both the
    /// payload size and the compression type, and at least as many bytes as
    /// the payload size says must follow it.
    pub open spec fn deserialized(s: Seq<u8>) -> Result<
        (TransactionPayloadEventView, Seq<u8>),
        TransactionPayloadError,
    > {
        match spec_read_header(s, HeaderFields::spec_empty()) {
            Err(e) => Err(e),
            Ok((fields, h)) => if !fields.spec_is_complete() {
                Err(TransactionPayloadError::MalformedHeader)
            } else if fields.payload_size > s.len() - h {
                Err(TransactionPayloadError::BufferOverrun)
            } else {
                Ok(
                    (
                        TransactionPayloadEventView {
                            payload_size: fields.payload_size,
                            algorithm: fields.algorithm,
                            uncompressed_size: fields.uncompressed_size,
                            payload: s.subrange(h as int, h + fields.payload_size),
                            header_size: (s.len() - fields.payload_size) as nat,
                        },
                        s.skip(h + fields.payload_size),
                    ),
                )
            },
        }
    }

    /// The length that the event claims in an event body: header and
    /// payload together, but never more than an event body can hold.
    pub open spec fn encoded_len(self) -> nat {
        spec_encoded_length(self.header_size, self.payload.len())
    }

    /// The bytes that the payload stands for, or the reason why it stands
    /// for none.
    pub open spec fn decompressed(self) -> Result<Seq<u8>, TransactionPayloadError> {
        spec_decompress(self.algorithm, self.uncompressed_size, self.payload)
    }
}

/// A transaction payload event: header fields and a payload that is either
/// borrowed from the buffer it was read from or owned.
#[derive(Debug, PartialEq, Eq, Hash)]
pub struct TransactionPayloadEvent<'a> {
    payload_size: u64,
    algorithm: TransactionPayloadCompressionType,
    uncompressed_size: u64,
    payload: Cow<'a, [u8]>,
    header_size: usize,
}

impl<'a> View for TransactionPayloadEvent<'a> {
    type V = TransactionPayloadEventView;

    closed spec fn view(&self) -> TransactionPayloadEventView {
        TransactionPayloadEventView {
            payload_size: self.payload_size,
            algorithm: self.algorithm,
            uncompressed_size: self.uncompressed_size,
            payload: self.payload@,
            header_size: self.header_size as nat,
        }
    }
}

impl<'a> Clone for TransactionPayloadEvent<'a> {
    /// A copy that holds the same values. A borrowed payload stays
    /// borrowed.
    fn clone(&self) -> (r: Self)
        ensures
            r@ == self@,
    {
        let payload: Cow<'a, [u8]> = match &self.payload {
            Cow::Borrowed(bytes) => Cow::Borrowed(*bytes),
            Cow::Owned(bytes) => Cow::Owned(bytes.clone()),
        };
        TransactionPayloadEvent {
            payload_size: self.payload_size,
            algorithm: self.algorithm,
            uncompressed_size: self.uncompressed_size,
            payload,
            header_size: self.header_size,
        }
    }
}

impl<'a> TransactionPayloadEvent<'a> {
    /// Makes an event from its fields. It was not read from bytes, so its
    /// header size is zero.
    pub fn new(
        payload_size: u64,
        algorithm: TransactionPayloadCompressionType,
        uncompressed_size: u64,
        payload: Cow<'a, [u8]>,
    ) -> (r: Self)
        ensures
            r@ == (TransactionPayloadEventView {
                payload_size,
                algorithm,
                uncompressed_size,
                payload: payload@,
                header_size: 0,
            }),
    {
        Self { payload_size, algorithm, uncompressed_size, payload, header_size: 0 }
    }

    /// Sets the `payload_size` field value.
    pub fn with_payload_size(self, payload_size: u64) -> (r: Self)
        ensures
            r@ == (TransactionPayloadEventView { payload_size, ..self@ }),
    {
        Self { payload_size, ..self }
    }

    /// Sets the `algorithm` field value.
    pub fn with_algorithm(self, algorithm: TransactionPayloadCompressionType) -> (r: Self)
        ensures
            r@ == (TransactionPayloadEventView { algorithm, ..self@ }),
    {
        Self { algorithm, ..self }
    }

    /// Sets the `uncompressed_size` field value.
    pub fn with_uncompressed_size(self, uncompressed_size: u64) -> (r: Self)
        ensures
            r@ == (TransactionPayloadEventView { uncompressed_size, ..self@ }),
    {
        Self { uncompressed_size, ..self }
    }

    /// Sets the `payload` field value.
    pub fn with_payload(self, payload: Cow<'a, [u8]>) -> (r: Self)
        ensures
            r@ == (TransactionPayloadEventView { payload: payload@, ..self@ }),
    {
        Self { payload, ..self }
    }

    /// Returns the payload_size.
    pub fn payload_size(&self) -> (r: u64)
        ensures
            r == self@.payload_size,
    {
        self.payload_size
    }

    /// Returns raw payload of the binlog event.
    pub fn payload_raw(&'a self) -> (r: &'a [u8])
        ensures
            r@ == self@.payload,
    {
        match &self.payload {
            Cow::Borrowed(bytes) => bytes,
            Cow::Owned(bytes) => bytes.as_slice(),
        }
    }

    /// Returns the algorithm.
    pub fn algorithm(&self) -> (r: TransactionPayloadCompressionType)
        ensures
            r == self@.algorithm,
    {
        self.algorithm
    }

    /// Returns the uncompressed_size.
    pub fn uncompressed_size(&self) -> (r: u64)
        ensures
            r == self@.uncompressed_size,
    {
        self.uncompressed_size
    }

    /// Returns the number of bytes that the header took when the event was
    /// read.
    pub fn header_size(&self) -> (r: usize)
        ensures
            r == self@.header_size,
    {
        self.header_size
    }

    /// Detaches the event from the buffer it was read from: a borrowed
    /// payload is copied, an owned one is kept.
    pub fn into_owned(self) -> (r: TransactionPayloadEvent<'static>)
        ensures
            r@ == self@,
    {
        let payload: Cow<'static, [u8]> = match self.payload {
            Cow::Borrowed(bytes) => Cow::Owned(slice_to_vec(bytes)),
            Cow::Owned(bytes) => Cow::Owned(bytes),
        };
        TransactionPayloadEvent {
            payload_size: self.payload_size,
            algorithm: self.algorithm,
            uncompressed_size: self.uncompressed_size,
            payload,
            header_size: self.header_size,
        }
    }

    /// Reads an event from the front of `buf`.
    ///
    /// On success the payload borrows from the bytes under `buf`, and `buf`
    /// stands right after the payload. On failure `buf` stands where it
    /// stood.
    pub fn deserialize(buf: &mut ParseBuf<'a>) -> (r: Result<Self, TransactionPayloadError>)
        ensures
            match TransactionPayloadEventView::deserialized(old(buf)@) {
                Ok((event, rest)) => r is Ok && r->Ok_0@ == event && final(buf)@ == rest,
                Err(e) => r == Err::<Self, TransactionPayloadError>(e) && final(buf)@ == old(
                    buf,
                )@,
            },
            r matches Ok(event) ==> {
                &&& event@.payload.len() == event@.payload_size
                &&& event@.header_size == old(buf)@.len() - event@.payload_size
                &&& old(buf)@ == old(buf)@.take(event@.header_size - final(buf)@.len())
                    + event@.payload + final(buf)@
            },
    {
        let ghost s = buf@;
        let mut cursor = ParseBuf(buf.0);
        let entry_len = cursor.len();
        let mut fields = HeaderFields::empty();
        loop
            invariant_except_break
                cursor@.len() <= s.len(),
                cursor@ == s.skip(s.len() - cursor@.len()),
                spec_read_header(s, HeaderFields::spec_empty()) == shifted(
                    spec_read_header(cursor@, fields),
                    (s.len() - cursor@.len()) as nat,
                ),
            invariant
                buf@ == s,
                entry_len == s.len(),
            ensures
                cursor@.len() <= s.len(),
                cursor@ == s.skip(s.len() - cursor@.len()),
                spec_read_header(s, HeaderFields::spec_empty()) == Ok::<
                    (HeaderFields, nat),
                    TransactionPayloadError,
                >((fields, (s.len() - cursor@.len()) as nat)),
            decreases cursor@.len(),
        {
            let ghost here = cursor@;
            proof {
                lemma_read_entry_bounds(here);
            }
            let entry = read_entry(&mut cursor)?;
            if let HeaderEntry::End = entry {
                break ;
            }
            fields = fields.apply(entry)?;
        }
        let ghost h = (s.len() - cursor@.len()) as nat;
        if !fields.is_complete() {
            return Err(TransactionPayloadError::MalformedHeader);
        }
        if fields.payload_size > cursor.len() as u64 {
            return Err(TransactionPayloadError::BufferOverrun);
        }
        let payload_len = fields.payload_size as usize;
        let header_size = entry_len - payload_len;
        let payload = cursor.eat(payload_len);
        assert(payload@ =~= s.subrange(h as int, h + payload_len));
        buf.0 = cursor.0;
        Ok(
            TransactionPayloadEvent {
                payload_size: fields.payload_size,
                algorithm: fields.algorithm,
                uncompressed_size: fields.uncompressed_size,
                payload: Cow::Borrowed(payload),
                header_size,
            },
        )
    }

    /// Appends the wire form of the event to `buf`: the compression type,
    /// the uncompressed size if the payload is compressed, the payload
    /// size, the end mark, and then the payload as it is.
    pub fn serialize(&self, buf: &mut Vec<u8>)
        ensures
            final(buf)@ == old(buf)@ + self@.serialized(),
    {
        put_field(
            buf,
            TransactionPayloadFields::OTW_PAYLOAD_COMPRESSION_TYPE_FIELD,
            u64::from(self.algorithm),
        );
        if self.algorithm != TransactionPayloadCompressionType::NONE {
            put_field(
                buf,
                TransactionPayloadFields::OTW_PAYLOAD_UNCOMPRESSED_SIZE_FIELD,
                self.uncompressed_size,
            );
        }
        put_field(buf, TransactionPayloadFields::OTW_PAYLOAD_SIZE_FIELD, self.payload_size);
        put_lenenc_int(buf, TransactionPayloadFields::OTW_PAYLOAD_HEADER_END_MARK.tag());
        buf.extend_from_slice(self.payload_raw());
    }

    /// The length that the event claims in an event body: header and
    /// payload together, never wrapping, and never more than an event body
    /// can hold.
    pub fn len(&self) -> (r: usize)
        ensures
            r == self@.encoded_len(),
    {
        encoded_length(self.header_size, self.payload_raw().len())
    }

    /// Returns the payload decompressed, or the reason why it cannot be.
    pub fn decompress_payload(self) -> (r: Result<Vec<u8>, TransactionPayloadError>)
        ensures
            match self@.decompressed() {
                Ok(bytes) => r is Ok && r->Ok_0@ == bytes,
                Err(e) => r == Err::<Vec<u8>, TransactionPayloadError>(e),
            },
    {
        decompress(self.algorithm, self.uncompressed_size, self.payload_raw())
    }
}

} // verus!
