//! The header of tagged fields that precedes a payload.
//!
//! The header is a sequence of entries. Each entry starts with a tag. The
//! end mark is a tag alone. A known field is a tag, the length of its value
//! and the value, all three length-encoded integers. An entry with any other
//! tag is a tag, a length and that many bytes, which the reader passes over,
//! so that fields added later do not break it.

use vstd::prelude::*;

use crate::consts::{TransactionPayloadCompressionType, TransactionPayloadFields};
use crate::error::TransactionPayloadError;
use crate::lenenc::{
    lenenc_int,
    lenenc_int_len,
    lenenc_read,
    put_lenenc_int,
    spec_lenenc_int_len,
};
use crate::parse_buf::ParseBuf;

verus! {

/// One entry of a header, as the reader sees it.
#[derive(Debug, Clone, Copy, PartialEq, Eq, Structural)]
pub enum HeaderEntry {
    /// The end mark: the payload follows.
    End,
    /// The declared length of the payload.
    PayloadSize(u64),
    /// The wire identifier of the compression algorithm.
    CompressionType(u64),
    /// The declared length of the payload once decompressed.
    UncompressedSize(u64),
    /// A field with a tag that this version does not know; its bytes were
    /// passed over.
    Unknown,
}

/// What the entries read so far have said.
#[derive(Debug, Clone, Copy, PartialEq, Eq, Structural)]
pub struct HeaderFields {
    /// The declared length of the payload; zero until a field gives it.
    pub payload_size: u64,
    /// The compression algorithm; none until a field gives it.
    pub algorithm: TransactionPayloadCompressionType,
    /// The declared decompressed length; zero until a field gives it.
    pub uncompressed_size: u64,
    /// Whether a payload size field was read.
    pub have_payload_size: bool,
    /// Whether a compression type field was read.
    pub have_compression_type: bool,
}

/// The entry that a known field and its value make.
pub open spec fn spec_entry_of(field: TransactionPayloadFields, value: u64) -> HeaderEntry {
    match field {
        TransactionPayloadFields::OTW_PAYLOAD_HEADER_END_MARK => HeaderEntry::End,
        TransactionPayloadFields::OTW_PAYLOAD_SIZE_FIELD => HeaderEntry::PayloadSize(value),
        TransactionPayloadFields::OTW_PAYLOAD_COMPRESSION_TYPE_FIELD => {
            HeaderEntry::CompressionType(value)
        },
        TransactionPayloadFields::OTW_PAYLOAD_UNCOMPRESSED_SIZE_FIELD => {
            HeaderEntry::UncompressedSize(value)
        },
    }
}

/// The entry that a known field and its value make.
#[verifier::when_used_as_spec(spec_entry_of)]
pub fn entry_of(field: TransactionPayloadFields, value: u64) -> (r: HeaderEntry)
    ensures
        r == spec_entry_of(field, value),
{
    match field {
        TransactionPayloadFields::OTW_PAYLOAD_HEADER_END_MARK => HeaderEntry::End,
        TransactionPayloadFields::OTW_PAYLOAD_SIZE_FIELD => HeaderEntry::PayloadSize(value),
        TransactionPayloadFields::OTW_PAYLOAD_COMPRESSION_TYPE_FIELD => {
            HeaderEntry::CompressionType(value)
        },
        TransactionPayloadFields::OTW_PAYLOAD_UNCOMPRESSED_SIZE_FIELD => {
            HeaderEntry::UncompressedSize(value)
        },
    }
}

/// The entry at the front of `s` and the number of bytes it occupies, or
/// `None` where `s` ends before the entry does.
pub open spec fn spec_read_entry(s: Seq<u8>) -> Option<(HeaderEntry, nat)> {
    match lenenc_read(s) {
        None => None,
        Some((tag, n)) => match TransactionPayloadFields::spec_from_tag(tag) {
            Some(TransactionPayloadFields::OTW_PAYLOAD_HEADER_END_MARK) => Some(
                (HeaderEntry::End, n),
            ),
            Some(field) => match lenenc_read(s.skip(n as int)) {
                None => None,
                Some((_, m)) => match lenenc_read(s.skip((n + m) as int)) {
                    None => None,
                    Some((value, k)) => Some((entry_of(field, value), n + m + k)),
                },
            },
            None => match lenenc_read(s.skip(n as int)) {
                None => None,
                Some((len, m)) => if n + m + len > s.len() {
                    None
                } else {
                    Some((HeaderEntry::Unknown, (n + m + len) as nat))
                },
            },
        },
    }
}

impl HeaderFields {
    /// The state before any entry is read.
    pub open spec fn spec_empty() -> HeaderFields {
        HeaderFields {
            payload_size: 0,
            algorithm: TransactionPayloadCompressionType::NONE,
            uncompressed_size: 0,
            have_payload_size: false,
            have_compression_type: false,
        }
    }

    /// The state after one more entry. The one entry that can be refused is
    /// a compression type that names no known algorithm.
    pub open spec fn spec_apply(self, entry: HeaderEntry) -> Result<
        HeaderFields,
        TransactionPayloadError,
    > {
        match entry {
            HeaderEntry::End => Ok(self),
            HeaderEntry::Unknown => Ok(self),
            HeaderEntry::PayloadSize(v) => Ok(
                HeaderFields { payload_size: v, have_payload_size: true, ..self },
            ),
            HeaderEntry::UncompressedSize(v) => Ok(HeaderFields { uncompressed_size: v, ..self }),
            HeaderEntry::CompressionType(v) => match TransactionPayloadCompressionType::from_code(
                v,
            ) {
                Some(algorithm) => Ok(
                    HeaderFields { algorithm, have_compression_type: true, ..self },
                ),
                None => Err(TransactionPayloadError::UnknownAlgorithm),
            },
        }
    }

    /// Whether both fields that a header must carry were read.
    pub open spec fn spec_is_complete(self) -> bool {
        self.have_payload_size && self.have_compression_type
    }

    /// The state before any entry is read.
    #[verifier::when_used_as_spec(spec_empty)]
    pub fn empty() -> (r: HeaderFields)
        ensures
            r == HeaderFields::spec_empty(),
    {
        HeaderFields {
            payload_size: 0,
            algorithm: TransactionPayloadCompressionType::NONE,
            uncompressed_size: 0,
            have_payload_size: false,
            have_compression_type: false,
        }
    }

    /// Takes one more entry into account.
    #[verifier::when_used_as_spec(spec_apply)]
    pub fn apply(self, entry: HeaderEntry) -> (r: Result<HeaderFields, TransactionPayloadError>)
        ensures
            r == self.spec_apply(entry),
    {
        match entry {
            HeaderEntry::End => Ok(self),
            HeaderEntry::Unknown => Ok(self),
            HeaderEntry::PayloadSize(v) => Ok(
                HeaderFields { payload_size: v, have_payload_size: true, ..self },
            ),
            HeaderEntry::UncompressedSize(v) => Ok(HeaderFields { uncompressed_size: v, ..self }),
            HeaderEntry::CompressionType(v) => match TransactionPayloadCompressionType::try_from(
                v,
            ) {
                Ok(algorithm) => Ok(
                    HeaderFields { algorithm, have_compression_type: true, ..self },
                ),
                Err(e) => Err(e),
            },
        }
    }

    /// Whether both fields that a header must carry were read.
    #[verifier::when_used_as_spec(spec_is_complete)]
    pub fn is_complete(self) -> (r: bool)
        ensures
            r == self.spec_is_complete(),
    {
        self.have_payload_size && self.have_compression_type
    }
}

/// A header result that counts `by` more bytes in front of the header.
pub open spec fn shifted(
    r: Result<(HeaderFields, nat), TransactionPayloadError>,
    by: nat,
) -> Result<(HeaderFields, nat), TransactionPayloadError> {
    match r {
        Ok((fields, h)) => Ok((fields, by + h)),
        Err(e) => Err(e),
    }
}

/// What reading a header from the front of `s` gives, starting from the
/// state `fields`: the state at the end mark and the number of bytes up to
/// and including it, or the reason why the header cannot be read.
pub open spec fn spec_read_header(s: Seq<u8>, fields: HeaderFields) -> Result<
    (HeaderFields, nat),
    TransactionPayloadError,
>
    decreases s.len(),
{
    match spec_read_entry(s) {
        None => Err(TransactionPayloadError::TruncatedInput),
        Some((HeaderEntry::End, n)) => Ok((fields, n)),
        Some((entry, n)) => match fields.spec_apply(entry) {
            Err(e) => Err(e),
            Ok(next) => shifted(spec_read_header(s.skip(n as int), next), n),
        },
    }
}

/// The bytes of a known field: its tag, the length of its value, its value.
pub open spec fn field_bytes(field: TransactionPayloadFields, value: u64) -> Seq<u8> {
    lenenc_int(field.spec_tag()) + lenenc_int(spec_lenenc_int_len(value)) + lenenc_int(value)
}

/// The bytes of a field with a tag that this version does not know: the
/// tag, the number of bytes that follow, and those bytes.
pub open spec fn unknown_field_bytes(tag: u64, skipped: Seq<u8>) -> Seq<u8> {
    lenenc_int(tag) + lenenc_int(skipped.len() as u64) + skipped
}

/// The bytes of the end mark.
pub open spec fn end_mark_bytes() -> Seq<u8> {
    lenenc_int(TransactionPayloadFields::OTW_PAYLOAD_HEADER_END_MARK.spec_tag())
}

/// An entry is never empty and never longer than the bytes it is read from.
pub proof fn lemma_read_entry_bounds(s: Seq<u8>)
    ensures
        match spec_read_entry(s) {
            Some((_, n)) => 0 < n <= s.len(),
            None => true,
        },
{
}

/// Appends a known field to `buf`: its tag, the length of its value, its
/// value.
pub fn put_field(buf: &mut Vec<u8>, field: TransactionPayloadFields, value: u64)
    ensures
        final(buf)@ == old(buf)@ + field_bytes(field, value),
{
    put_lenenc_int(buf, field.tag());
    put_lenenc_int(buf, lenenc_int_len(value));
    put_lenenc_int(buf, value);
}

/// Reads one entry and moves the cursor past it. Where the bytes end before
/// the entry does, the cursor stays where it was.
pub fn read_entry(buf: &mut ParseBuf<'_>) -> (r: Result<HeaderEntry, TransactionPayloadError>)
    ensures
        match spec_read_entry(old(buf)@) {
            Some((entry, n)) => r == Ok::<HeaderEntry, TransactionPayloadError>(entry)
                && final(buf)@ == old(buf)@.skip(n as int),
            None => r == Err::<HeaderEntry, TransactionPayloadError>(
                TransactionPayloadError::TruncatedInput,
            ) && final(buf)@ == old(buf)@,
        },
{
    let ghost s = buf@;
    let mut cursor = ParseBuf(buf.0);
    let tag = cursor.read_lenenc_int()?;
    let ghost n = lenenc_read(s).unwrap().1;
    let entry = match TransactionPayloadFields::from_tag(tag) {
        Some(TransactionPayloadFields::OTW_PAYLOAD_HEADER_END_MARK) => HeaderEntry::End,
        Some(field) => {
            let _length = cursor.read_lenenc_int()?;
            let ghost m = lenenc_read(s.skip(n as int)).unwrap().1;
            assert(s.skip(n as int).skip(m as int) =~= s.skip((n + m) as int));
            let value = cursor.read_lenenc_int()?;
            entry_of(field, value)
        },
        None => {
            let length = cursor.read_lenenc_int()?;
            if length > cursor.len() as u64 {
                return Err(TransactionPayloadError::TruncatedInput);
            }
            cursor.skip(length as usize);
            HeaderEntry::Unknown
        },
    };
    buf.0 = cursor.0;
    Ok(entry)
}

} // verus!
