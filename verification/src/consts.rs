//! The fixed identifiers of the wire format: field tags, compression
//! algorithm codes, and the bound on an event body.

use vstd::prelude::*;
use vstd::std_specs::convert::FromSpecImpl;
use vstd::std_specs::convert::TryFromSpecImpl;

use crate::error::TransactionPayloadError;

verus! {

/// Length in bytes of the fixed header that the outer envelope puts in front
/// of every event body.
pub const EVENT_HEADER_LEN: usize = 19;

/// Largest size in bytes that the outer envelope allows for an event:
/// header and body together.
pub const MAX_EVENT_SIZE: usize = 0xFFFF_FFFF;

/// Largest length in bytes of an event body: what the envelope allows for
/// the whole event, less its fixed header.
pub const MAX_EVENT_BODY_LEN: usize = MAX_EVENT_SIZE - EVENT_HEADER_LEN;

/// The compression algorithm applied to a payload.
#[allow(non_camel_case_types)]
#[derive(Debug, Clone, Copy, PartialEq, Eq, Hash, Structural)]
pub enum TransactionPayloadCompressionType {
    /// The payload is stored as it is.
    NONE,
    /// The payload is a Zstandard stream.
    ZSTD,
}

impl TransactionPayloadCompressionType {
    /// The identifier that stands for this algorithm on the wire.
    pub open spec fn code(self) -> u64 {
        match self {
            TransactionPayloadCompressionType::NONE => 0,
            TransactionPayloadCompressionType::ZSTD => 1,
        }
    }

    /// The algorithm that a wire identifier stands for, if any.
    pub open spec fn from_code(v: u64) -> Option<Self> {
        if v == 0 {
            Some(TransactionPayloadCompressionType::NONE)
        } else if v == 1 {
            Some(TransactionPayloadCompressionType::ZSTD)
        } else {
            None
        }
    }
}

impl From<TransactionPayloadCompressionType> for u64 {
    /// The wire identifier of an algorithm.
    fn from(algorithm: TransactionPayloadCompressionType) -> (r: u64) {
        match algorithm {
            TransactionPayloadCompressionType::NONE => 0,
            TransactionPayloadCompressionType::ZSTD => 1,
        }
    }
}

impl FromSpecImpl<TransactionPayloadCompressionType> for u64 {
    open spec fn obeys_from_spec() -> bool {
        true
    }

    open spec fn from_spec(algorithm: TransactionPayloadCompressionType) -> u64 {
        algorithm.code()
    }
}

impl TryFrom<u64> for TransactionPayloadCompressionType {
    type Error = TransactionPayloadError;

    /// Maps a wire identifier to its algorithm; a value that names none is
    /// an error, never a default.
    fn try_from(v: u64) -> (r: Result<Self, TransactionPayloadError>) {
        if v == 0 {
            Ok(TransactionPayloadCompressionType::NONE)
        } else if v == 1 {
            Ok(TransactionPayloadCompressionType::ZSTD)
        } else {
            Err(TransactionPayloadError::UnknownAlgorithm)
        }
    }
}

impl TryFromSpecImpl<u64> for TransactionPayloadCompressionType {
    open spec fn obeys_try_from_spec() -> bool {
        true
    }

    open spec fn try_from_spec(v: u64) -> Result<Self, TransactionPayloadError> {
        match TransactionPayloadCompressionType::from_code(v) {
            Some(algorithm) => Ok(algorithm),
            None => Err(TransactionPayloadError::UnknownAlgorithm),
        }
    }
}

/// Decoding the wire identifier of an algorithm gives the algorithm back.
pub proof fn lemma_algorithm_code_roundtrip(algorithm: TransactionPayloadCompressionType)
    ensures
        TransactionPayloadCompressionType::from_code(algorithm.code()) == Some(algorithm),
{
}

/// The fields that a payload header can carry, by their tags.
#[allow(non_camel_case_types)]
#[derive(Debug, Clone, Copy, PartialEq, Eq, Hash, Structural)]
pub enum TransactionPayloadFields {
    /// Marks the end of the header; the payload starts right after it.
    OTW_PAYLOAD_HEADER_END_MARK,
    /// The length of the payload in bytes.
    OTW_PAYLOAD_SIZE_FIELD,
    /// The compression algorithm of the payload.
    OTW_PAYLOAD_COMPRESSION_TYPE_FIELD,
    /// The length of the payload once decompressed.
    OTW_PAYLOAD_UNCOMPRESSED_SIZE_FIELD,
}

impl TransactionPayloadFields {
    /// The tag that announces this field on the wire.
    pub open spec fn spec_tag(self) -> u64 {
        match self {
            TransactionPayloadFields::OTW_PAYLOAD_HEADER_END_MARK => 0,
            TransactionPayloadFields::OTW_PAYLOAD_SIZE_FIELD => 1,
            TransactionPayloadFields::OTW_PAYLOAD_COMPRESSION_TYPE_FIELD => 2,
            TransactionPayloadFields::OTW_PAYLOAD_UNCOMPRESSED_SIZE_FIELD => 3,
        }
    }

    /// The field that a tag announces; `None` for a tag that this version
    /// does not know.
    pub open spec fn spec_from_tag(v: u64) -> Option<Self> {
        if v == 0 {
            Some(TransactionPayloadFields::OTW_PAYLOAD_HEADER_END_MARK)
        } else if v == 1 {
            Some(TransactionPayloadFields::OTW_PAYLOAD_SIZE_FIELD)
        } else if v == 2 {
            Some(TransactionPayloadFields::OTW_PAYLOAD_COMPRESSION_TYPE_FIELD)
        } else if v == 3 {
            Some(TransactionPayloadFields::OTW_PAYLOAD_UNCOMPRESSED_SIZE_FIELD)
        } else {
            None
        }
    }

    /// The tag that announces this field on the wire.
    #[verifier::when_used_as_spec(spec_tag)]
    pub fn tag(self) -> (r: u64)
        ensures
            r == self.spec_tag(),
    {
        match self {
            TransactionPayloadFields::OTW_PAYLOAD_HEADER_END_MARK => 0,
            TransactionPayloadFields::OTW_PAYLOAD_SIZE_FIELD => 1,
            TransactionPayloadFields::OTW_PAYLOAD_COMPRESSION_TYPE_FIELD => 2,
            TransactionPayloadFields::OTW_PAYLOAD_UNCOMPRESSED_SIZE_FIELD => 3,
        }
    }

    /// Looks a tag up among the known fields. An unknown tag is no error:
    /// it gives `None`, and the reader skips the field.
    #[verifier::when_used_as_spec(spec_from_tag)]
    pub fn from_tag(v: u64) -> (r: Option<Self>)
        ensures
            r == Self::spec_from_tag(v),
    {
        if v == 0 {
            Some(TransactionPayloadFields::OTW_PAYLOAD_HEADER_END_MARK)
        } else if v == 1 {
            Some(TransactionPayloadFields::OTW_PAYLOAD_SIZE_FIELD)
        } else if v == 2 {
            Some(TransactionPayloadFields::OTW_PAYLOAD_COMPRESSION_TYPE_FIELD)
        } else if v == 3 {
            Some(TransactionPayloadFields::OTW_PAYLOAD_UNCOMPRESSED_SIZE_FIELD)
        } else {
            None
        }
    }
}

} // verus!
