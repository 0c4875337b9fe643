//! What holds of reading and writing together.
//!
//! The lemmas speak of the same spec functions as the contracts of
//! `TransactionPayloadEvent::serialize` and
//! `TransactionPayloadEvent::deserialize`, so each of them is a statement
//! about what those two functions do.

use vstd::prelude::*;

use crate::consts::{TransactionPayloadCompressionType, TransactionPayloadFields};
use crate::error::TransactionPayloadError;
use crate::event::TransactionPayloadEventView;
use crate::header::{
    end_mark_bytes,
    entry_of,
    field_bytes,
    shifted,
    spec_read_entry,
    spec_read_header,
    unknown_field_bytes,
    HeaderEntry,
    HeaderFields,
};
use crate::lenenc::{
    lemma_lenenc_int_len,
    lemma_lenenc_roundtrip,
    lenenc_int,
    spec_lenenc_int_len,
};

verus! {

/// A known field that was written is read back as the entry it stands for,
/// whatever follows it.
pub proof fn lemma_read_written_field(
    field: TransactionPayloadFields,
    value: u64,
    rest: Seq<u8>,
)
    requires
        field != TransactionPayloadFields::OTW_PAYLOAD_HEADER_END_MARK,
    ensures
        spec_read_entry(field_bytes(field, value) + rest) == Some(
            (entry_of(field, value), field_bytes(field, value).len()),
        ),
        (field_bytes(field, value) + rest).skip(field_bytes(field, value).len() as int) == rest,
{
    let tag = field.spec_tag();
    let len = spec_lenenc_int_len(value);
    let s = field_bytes(field, value) + rest;
    let after_tag = lenenc_int(len) + (lenenc_int(value) + rest);
    let after_len = lenenc_int(value) + rest;
    lemma_lenenc_roundtrip(tag, after_tag);
    lemma_lenenc_roundtrip(len, after_len);
    lemma_lenenc_roundtrip(value, rest);
    lemma_lenenc_int_len(tag);
    lemma_lenenc_int_len(len);
    lemma_lenenc_int_len(value);
    let n = spec_lenenc_int_len(tag) as nat;
    let m = spec_lenenc_int_len(len) as nat;
    let k = spec_lenenc_int_len(value) as nat;
    assert(s.skip((n + m) as int) =~= after_tag.skip(m as int));
    assert(s.skip((n + m + k) as int) =~= after_len.skip(k as int));
}

/// The end mark that was written is read back as the end of the header,
/// whatever follows it.
pub proof fn lemma_read_written_end_mark(rest: Seq<u8>)
    ensures
        spec_read_entry(end_mark_bytes() + rest) == Some((HeaderEntry::End, 1nat)),
        end_mark_bytes().len() == 1,
        (end_mark_bytes() + rest).skip(1) == rest,
{
    lemma_lenenc_roundtrip(0, rest);
    lemma_lenenc_int_len(0);
}

/// A field with an unknown tag is read as one entry that covers all of its
/// bytes, whatever follows it.
pub proof fn lemma_read_unknown_field(tag: u64, skipped: Seq<u8>, rest: Seq<u8>)
    requires
        TransactionPayloadFields::spec_from_tag(tag) is None,
        skipped.len() <= u64::MAX,
    ensures
        spec_read_entry(unknown_field_bytes(tag, skipped) + rest) == Some(
            (HeaderEntry::Unknown, unknown_field_bytes(tag, skipped).len()),
        ),
        (unknown_field_bytes(tag, skipped) + rest).skip(
            unknown_field_bytes(tag, skipped).len() as int,
        ) == rest,
{
    let len = skipped.len() as u64;
    let s = unknown_field_bytes(tag, skipped) + rest;
    let after_tag = lenenc_int(len) + (skipped + rest);
    assert(s =~= lenenc_int(tag) + after_tag);
    lemma_lenenc_roundtrip(tag, after_tag);
    lemma_lenenc_roundtrip(len, skipped + rest);
    lemma_lenenc_int_len(tag);
    lemma_lenenc_int_len(len);
    let n = spec_lenenc_int_len(tag) as nat;
    let m = spec_lenenc_int_len(len) as nat;
    assert(unknown_field_bytes(tag, skipped).len() == n + m + len);
}

/// The fields that reading the header of `event` gathers: those of the
/// event, but for an uncompressed size that was not written.
pub open spec fn fields_written(event: TransactionPayloadEventView) -> HeaderFields {
    HeaderFields {
        payload_size: event.payload_size,
        algorithm: event.algorithm,
        uncompressed_size: if event.algorithm == TransactionPayloadCompressionType::NONE {
            0
        } else {
            event.uncompressed_size
        },
        have_payload_size: true,
        have_compression_type: true,
    }
}

/// Reading the header that `serialize` writes gives the fields of the event
/// and takes exactly the bytes of the header, whatever follows it.
pub proof fn lemma_read_written_header(event: TransactionPayloadEventView, rest: Seq<u8>)
    ensures
        spec_read_header(event.header_bytes() + rest, HeaderFields::spec_empty()) == Ok::<
            (HeaderFields, nat),
            TransactionPayloadError,
        >((fields_written(event), event.header_bytes().len())),
{
    let compression = field_bytes(
        TransactionPayloadFields::OTW_PAYLOAD_COMPRESSION_TYPE_FIELD,
        event.algorithm.code(),
    );
    let uncompressed = if event.algorithm != TransactionPayloadCompressionType::NONE {
        field_bytes(
            TransactionPayloadFields::OTW_PAYLOAD_UNCOMPRESSED_SIZE_FIELD,
            event.uncompressed_size,
        )
    } else {
        Seq::<u8>::empty()
    };
    let size = field_bytes(TransactionPayloadFields::OTW_PAYLOAD_SIZE_FIELD, event.payload_size);
    let s0 = event.header_bytes() + rest;
    let s3 = end_mark_bytes() + rest;
    let s2 = size + s3;
    let s1 = uncompressed + s2;
    assert(s0 =~= compression + s1);
    let f0 = HeaderFields::spec_empty();
    let f1 = HeaderFields { algorithm: event.algorithm, have_compression_type: true, ..f0 };
    let f2 = HeaderFields { uncompressed_size: fields_written(event).uncompressed_size, ..f1 };
    let f3 = fields_written(event);

    lemma_read_written_end_mark(rest);
    lemma_read_written_field(
        TransactionPayloadFields::OTW_PAYLOAD_SIZE_FIELD,
        event.payload_size,
        s3,
    );
    assert(spec_read_header(s2, f2) == shifted(spec_read_header(s3, f3), size.len()));
    if event.algorithm != TransactionPayloadCompressionType::NONE {
        lemma_read_written_field(
            TransactionPayloadFields::OTW_PAYLOAD_UNCOMPRESSED_SIZE_FIELD,
            event.uncompressed_size,
            s2,
        );
    }
    lemma_read_written_field(
        TransactionPayloadFields::OTW_PAYLOAD_COMPRESSION_TYPE_FIELD,
        event.algorithm.code(),
        s1,
    );
    assert(spec_read_header(s0, f0) == shifted(spec_read_header(s1, f1), compression.len()));
}

/// Reading is the left inverse of writing. From the bytes that `serialize`
/// writes for an event whose payload has the declared size, followed by any
/// bytes `rest`, `deserialize` gives the event back and leaves `rest`.
///
/// Two fields are not carried over as they are. The uncompressed size is
/// not written for a payload that is not compressed, and reads back as
/// zero. The header size is not written at all: it reads back as the number
/// of bytes in front of the payload, counted as the length of the input
/// less the payload size.
pub proof fn lemma_deserialize_serialized(event: TransactionPayloadEventView, rest: Seq<u8>)
    requires
        event.payload.len() == event.payload_size,
    ensures
        TransactionPayloadEventView::deserialized(event.serialized() + rest) == Ok::<
            (TransactionPayloadEventView, Seq<u8>),
            TransactionPayloadError,
        >(
            (
                TransactionPayloadEventView {
                    uncompressed_size: fields_written(event).uncompressed_size,
                    header_size: event.header_bytes().len() + rest.len(),
                    ..event
                },
                rest,
            ),
        ),
{
    let s = event.serialized() + rest;
    let tail = event.payload + rest;
    let h = event.header_bytes().len();
    assert(s =~= event.header_bytes() + tail);
    lemma_read_written_header(event, tail);
    assert(s.subrange(h as int, h + event.payload_size) =~= event.payload);
    assert(s.skip(h + event.payload_size) =~= rest);
}

/// An event that is not compressed survives writing and reading: the bytes
/// that `serialize` writes for it hold no uncompressed size field, and
/// `deserialize` makes of them the same payload size, algorithm,
/// uncompressed size and payload, and consumes all of them. The header size
/// of the event read is the length of the header written, so an event that
/// already has that header size is read back equal in every field.
pub proof fn lemma_roundtrip_uncompressed(event: TransactionPayloadEventView)
    requires
        event.algorithm == TransactionPayloadCompressionType::NONE,
        event.uncompressed_size == 0,
        event.payload.len() == event.payload_size,
    ensures
        event.serialized() == field_bytes(
            TransactionPayloadFields::OTW_PAYLOAD_COMPRESSION_TYPE_FIELD,
            0,
        ) + field_bytes(TransactionPayloadFields::OTW_PAYLOAD_SIZE_FIELD, event.payload_size)
            + end_mark_bytes() + event.payload,
        TransactionPayloadEventView::deserialized(event.serialized()) == Ok::<
            (TransactionPayloadEventView, Seq<u8>),
            TransactionPayloadError,
        >(
            (
                TransactionPayloadEventView {
                    header_size: event.header_bytes().len(),
                    ..event
                },
                Seq::<u8>::empty(),
            ),
        ),
        event.header_size == event.header_bytes().len()
            ==> TransactionPayloadEventView::deserialized(event.serialized()) == Ok::<
            (TransactionPayloadEventView, Seq<u8>),
            TransactionPayloadError,
        >((event, Seq::<u8>::empty())),
{
    lemma_deserialize_serialized(event, Seq::<u8>::empty());
}

/// A compressed event survives writing and reading: `deserialize` makes of
/// the bytes that `serialize` writes for it the same algorithm, the same
/// uncompressed size and the same payload, byte for byte, and the same
/// payload size, and consumes all of them.
pub proof fn lemma_roundtrip_compressed(event: TransactionPayloadEventView)
    requires
        event.algorithm != TransactionPayloadCompressionType::NONE,
        event.payload.len() == event.payload_size,
    ensures
        TransactionPayloadEventView::deserialized(event.serialized()) == Ok::<
            (TransactionPayloadEventView, Seq<u8>),
            TransactionPayloadError,
        >(
            (
                TransactionPayloadEventView {
                    header_size: event.header_bytes().len(),
                    ..event
                },
                Seq::<u8>::empty(),
            ),
        ),
{
    lemma_deserialize_serialized(event, Seq::<u8>::empty());
}

/// A field with an unknown tag in front of a header changes nothing but the
/// count of header bytes: what follows it is read as it would be without
/// it, to the same event and the same rest, or to the same failure.
pub proof fn lemma_unknown_field_is_skipped(tag: u64, skipped: Seq<u8>, s: Seq<u8>)
    requires
        TransactionPayloadFields::spec_from_tag(tag) is None,
        skipped.len() <= u64::MAX,
    ensures
        TransactionPayloadEventView::deserialized(unknown_field_bytes(tag, skipped) + s)
            == match TransactionPayloadEventView::deserialized(s) {
            Ok((event, rest)) => Ok(
                (
                    TransactionPayloadEventView {
                        header_size: event.header_size + unknown_field_bytes(tag, skipped).len(),
                        ..event
                    },
                    rest,
                ),
            ),
            Err(e) => Err(e),
        },
{
    let field = unknown_field_bytes(tag, skipped);
    let n = field.len();
    let whole = field + s;
    let empty = HeaderFields::spec_empty();
    lemma_read_unknown_field(tag, skipped, s);
    match spec_read_header(s, empty) {
        Ok((fields, h)) => {
            if fields.spec_is_complete() && fields.payload_size <= s.len() - h {
                assert(whole.subrange((n + h) as int, n + h + fields.payload_size) =~= s.subrange(
                    h as int,
                    h + fields.payload_size,
                ));
                assert(whole.skip(n + h + fields.payload_size) =~= s.skip(
                    h + fields.payload_size,
                ));
            }
        },
        Err(_) => {},
    }
}

/// A header that reaches its end mark without a payload size is malformed,
/// and so is one that reaches it without a compression type, whatever
/// follows the end mark.
pub proof fn lemma_missing_field_is_malformed(
    algorithm: TransactionPayloadCompressionType,
    payload_size: u64,
    rest: Seq<u8>,
)
    ensures
        TransactionPayloadEventView::deserialized(
            field_bytes(
                TransactionPayloadFields::OTW_PAYLOAD_COMPRESSION_TYPE_FIELD,
                algorithm.code(),
            ) + end_mark_bytes() + rest,
        ) == Err::<(TransactionPayloadEventView, Seq<u8>), TransactionPayloadError>(
            TransactionPayloadError::MalformedHeader,
        ),
        TransactionPayloadEventView::deserialized(
            field_bytes(TransactionPayloadFields::OTW_PAYLOAD_SIZE_FIELD, payload_size)
                + end_mark_bytes() + rest,
        ) == Err::<(TransactionPayloadEventView, Seq<u8>), TransactionPayloadError>(
            TransactionPayloadError::MalformedHeader,
        ),
        TransactionPayloadEventView::deserialized(end_mark_bytes() + rest) == Err::<
            (TransactionPayloadEventView, Seq<u8>),
            TransactionPayloadError,
        >(TransactionPayloadError::MalformedHeader),
{
    let empty = HeaderFields::spec_empty();
    let tail = end_mark_bytes() + rest;
    lemma_read_written_end_mark(rest);

    let compression = field_bytes(
        TransactionPayloadFields::OTW_PAYLOAD_COMPRESSION_TYPE_FIELD,
        algorithm.code(),
    );
    lemma_read_written_field(
        TransactionPayloadFields::OTW_PAYLOAD_COMPRESSION_TYPE_FIELD,
        algorithm.code(),
        tail,
    );
    assert(compression + end_mark_bytes() + rest =~= compression + tail);
    let with_algorithm = HeaderFields { algorithm, have_compression_type: true, ..empty };
    assert(spec_read_header(compression + tail, empty) == shifted(
        spec_read_header(tail, with_algorithm),
        compression.len(),
    ));

    let size = field_bytes(TransactionPayloadFields::OTW_PAYLOAD_SIZE_FIELD, payload_size);
    lemma_read_written_field(TransactionPayloadFields::OTW_PAYLOAD_SIZE_FIELD, payload_size, tail);
    assert(size + end_mark_bytes() + rest =~= size + tail);
    let with_size = HeaderFields { payload_size, have_payload_size: true, ..empty };
    assert(spec_read_header(size + tail, empty) == shifted(
        spec_read_header(tail, with_size),
        size.len(),
    ));
}

/// A header that declares more payload than there are bytes after it is
/// refused as a buffer overrun.
pub proof fn lemma_short_payload_overruns(event: TransactionPayloadEventView, rest: Seq<u8>)
    requires
        rest.len() < event.payload_size,
    ensures
        TransactionPayloadEventView::deserialized(event.header_bytes() + rest) == Err::<
            (TransactionPayloadEventView, Seq<u8>),
            TransactionPayloadError,
        >(TransactionPayloadError::BufferOverrun),
{
    lemma_read_written_header(event, rest);
}

/// The number of bytes that the header at the front of `s` occupies, up to
/// and including its end mark; zero where `s` holds no header.
pub open spec fn header_len(s: Seq<u8>) -> nat {
    match spec_read_header(s, HeaderFields::spec_empty()) {
        Ok((_, h)) => h,
        Err(_) => 0,
    }
}

/// The header size of an event that was read is the number of bytes that
/// its header occupies, plus whatever is left after its payload. For input
/// that is exactly a header and its payload, it is the length of the
/// header.
pub proof fn lemma_header_size(s: Seq<u8>)
    ensures
        match TransactionPayloadEventView::deserialized(s) {
            Ok((event, rest)) => {
                &&& event.payload.len() == event.payload_size
                &&& s.len() == header_len(s) + event.payload.len() + rest.len()
                &&& event.header_size == header_len(s) + rest.len()
                &&& s.len() == header_len(s) + event.payload_size ==> event.header_size
                    == header_len(s)
            },
            Err(_) => true,
        },
{
    lemma_header_len_bound(s, HeaderFields::spec_empty());
}

/// A header is never longer than the bytes it is read from.
pub proof fn lemma_header_len_bound(s: Seq<u8>, fields: HeaderFields)
    ensures
        match spec_read_header(s, fields) {
            Ok((_, h)) => 0 < h <= s.len(),
            Err(_) => true,
        },
    decreases s.len(),
{
    match spec_read_entry(s) {
        None => {},
        Some((HeaderEntry::End, _)) => {},
        Some((entry, n)) => {
            match fields.spec_apply(entry) {
                Err(_) => {},
                Ok(next) => {
                    lemma_header_len_bound(s.skip(n as int), next);
                },
            }
        },
    }
}

/// A compression type that names no known algorithm is refused as soon as
/// it is read, whatever follows it: `deserialize` never makes up an
/// algorithm for a value it does not know.
pub proof fn lemma_unknown_algorithm_is_refused(value: u64, rest: Seq<u8>)
    requires
        TransactionPayloadCompressionType::from_code(value) is None,
    ensures
        TransactionPayloadEventView::deserialized(
            field_bytes(TransactionPayloadFields::OTW_PAYLOAD_COMPRESSION_TYPE_FIELD, value)
                + rest,
        ) == Err::<(TransactionPayloadEventView, Seq<u8>), TransactionPayloadError>(
            TransactionPayloadError::UnknownAlgorithm,
        ),
{
    lemma_read_written_field(
        TransactionPayloadFields::OTW_PAYLOAD_COMPRESSION_TYPE_FIELD,
        value,
        rest,
    );
}

} // verus!
