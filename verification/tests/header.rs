use transaction_payload::consts::{
    TransactionPayloadCompressionType, TransactionPayloadFields, EVENT_HEADER_LEN,
    MAX_EVENT_BODY_LEN, MAX_EVENT_SIZE,
};
use transaction_payload::error::TransactionPayloadError;
use transaction_payload::header::{put_field, read_entry, HeaderEntry, HeaderFields};
use transaction_payload::parse_buf::ParseBuf;

#[test]
fn field_tags_are_fixed() {
    assert_eq!(TransactionPayloadFields::OTW_PAYLOAD_HEADER_END_MARK.tag(), 0);
    assert_eq!(TransactionPayloadFields::OTW_PAYLOAD_SIZE_FIELD.tag(), 1);
    assert_eq!(
        TransactionPayloadFields::OTW_PAYLOAD_COMPRESSION_TYPE_FIELD.tag(),
        2
    );
    assert_eq!(
        TransactionPayloadFields::OTW_PAYLOAD_UNCOMPRESSED_SIZE_FIELD.tag(),
        3
    );
}

#[test]
fn field_lookup_by_tag() {
    assert_eq!(
        TransactionPayloadFields::from_tag(0),
        Some(TransactionPayloadFields::OTW_PAYLOAD_HEADER_END_MARK)
    );
    assert_eq!(
        TransactionPayloadFields::from_tag(1),
        Some(TransactionPayloadFields::OTW_PAYLOAD_SIZE_FIELD)
    );
    assert_eq!(
        TransactionPayloadFields::from_tag(2),
        Some(TransactionPayloadFields::OTW_PAYLOAD_COMPRESSION_TYPE_FIELD)
    );
    assert_eq!(
        TransactionPayloadFields::from_tag(3),
        Some(TransactionPayloadFields::OTW_PAYLOAD_UNCOMPRESSED_SIZE_FIELD)
    );
    assert_eq!(TransactionPayloadFields::from_tag(4), None);
    assert_eq!(TransactionPayloadFields::from_tag(255), None);
    assert_eq!(TransactionPayloadFields::from_tag(u64::MAX), None);
}

#[test]
fn algorithm_codes_are_fixed() {
    assert_eq!(u64::from(TransactionPayloadCompressionType::NONE), 0);
    assert_eq!(u64::from(TransactionPayloadCompressionType::ZSTD), 1);
    assert_eq!(
        TransactionPayloadCompressionType::try_from(0u64),
        Ok(TransactionPayloadCompressionType::NONE)
    );
    assert_eq!(
        TransactionPayloadCompressionType::try_from(1u64),
        Ok(TransactionPayloadCompressionType::ZSTD)
    );
}

#[test]
fn algorithm_code_that_names_nothing_is_an_error() {
    for v in [2u64, 3, 255, 256, u64::MAX] {
        assert_eq!(
            TransactionPayloadCompressionType::try_from(v),
            Err(TransactionPayloadError::UnknownAlgorithm)
        );
    }
}

#[test]
fn event_body_bound() {
    assert_eq!(EVENT_HEADER_LEN, 19);
    assert_eq!(MAX_EVENT_SIZE, 4_294_967_295);
    assert_eq!(MAX_EVENT_BODY_LEN, 4_294_967_276);
}

#[test]
fn put_field_writes_tag_length_value() {
    let mut buf = Vec::new();
    put_field(&mut buf, TransactionPayloadFields::OTW_PAYLOAD_SIZE_FIELD, 5);
    assert_eq!(buf, vec![1, 1, 5]);

    let mut buf = Vec::new();
    put_field(
        &mut buf,
        TransactionPayloadFields::OTW_PAYLOAD_UNCOMPRESSED_SIZE_FIELD,
        0x1234,
    );
    assert_eq!(buf, vec![3, 3, 0xfc, 0x34, 0x12]);

    let mut buf = vec![9];
    put_field(
        &mut buf,
        TransactionPayloadFields::OTW_PAYLOAD_SIZE_FIELD,
        0x100_0000,
    );
    assert_eq!(buf, vec![9, 1, 9, 0xfe, 0, 0, 0, 1, 0, 0, 0, 0]);
}

#[test]
fn read_entry_known_fields() {
    let bytes = [1u8, 1, 5, 2, 1, 1, 3, 3, 0xfc, 0x34, 0x12, 0, 0xee];
    let mut buf = ParseBuf(&bytes[..]);
    assert_eq!(read_entry(&mut buf), Ok(HeaderEntry::PayloadSize(5)));
    assert_eq!(read_entry(&mut buf), Ok(HeaderEntry::CompressionType(1)));
    assert_eq!(
        read_entry(&mut buf),
        Ok(HeaderEntry::UncompressedSize(0x1234))
    );
    assert_eq!(read_entry(&mut buf), Ok(HeaderEntry::End));
    assert_eq!(buf.0, &[0xee][..]);
}

#[test]
fn read_entry_passes_over_unknown_field() {
    let bytes = [0x2au8, 3, 0xaa, 0xbb, 0xcc, 0];
    let mut buf = ParseBuf(&bytes[..]);
    assert_eq!(read_entry(&mut buf), Ok(HeaderEntry::Unknown));
    assert_eq!(buf.0, &[0][..]);
    assert_eq!(read_entry(&mut buf), Ok(HeaderEntry::End));
    assert!(buf.is_empty());
}

#[test]
fn read_entry_unknown_field_of_no_bytes() {
    let bytes = [0x2au8, 0, 0];
    let mut buf = ParseBuf(&bytes[..]);
    assert_eq!(read_entry(&mut buf), Ok(HeaderEntry::Unknown));
    assert_eq!(buf.0, &[0][..]);
}

#[test]
fn read_entry_truncated_leaves_cursor() {
    let cases: [&[u8]; 7] = [
        &[],
        &[1],
        &[1, 1],
        &[2, 1, 0xfc, 0x01],
        &[0x2a],
        &[0x2a, 3, 0xaa, 0xbb],
        &[0x2a, 0xfe, 0xff, 0xff, 0xff, 0xff, 0xff, 0xff, 0xff, 0xff, 1, 2, 3],
    ];
    for bytes in cases {
        let mut buf = ParseBuf(bytes);
        assert_eq!(
            read_entry(&mut buf),
            Err(TransactionPayloadError::TruncatedInput)
        );
        assert_eq!(buf.0, bytes);
    }
}

#[test]
fn read_entry_ignores_the_declared_value_length() {
    let bytes = [1u8, 7, 5, 0];
    let mut buf = ParseBuf(&bytes[..]);
    assert_eq!(read_entry(&mut buf), Ok(HeaderEntry::PayloadSize(5)));
    assert_eq!(buf.0, &[0][..]);
}

#[test]
fn header_fields_start_empty() {
    let fields = HeaderFields::empty();
    assert_eq!(fields.payload_size, 0);
    assert_eq!(fields.algorithm, TransactionPayloadCompressionType::NONE);
    assert_eq!(fields.uncompressed_size, 0);
    assert!(!fields.have_payload_size);
    assert!(!fields.have_compression_type);
    assert!(!fields.is_complete());
}

#[test]
fn header_fields_apply_entries() {
    let fields = HeaderFields::empty();
    let fields = fields.apply(HeaderEntry::PayloadSize(9)).unwrap();
    assert_eq!(fields.payload_size, 9);
    assert!(fields.have_payload_size);
    assert!(!fields.is_complete());

    let fields = fields.apply(HeaderEntry::UncompressedSize(40)).unwrap();
    assert_eq!(fields.uncompressed_size, 40);
    assert!(!fields.is_complete());

    let fields = fields.apply(HeaderEntry::CompressionType(1)).unwrap();
    assert_eq!(fields.algorithm, TransactionPayloadCompressionType::ZSTD);
    assert!(fields.have_compression_type);
    assert!(fields.is_complete());

    assert_eq!(fields.apply(HeaderEntry::Unknown), Ok(fields));
    assert_eq!(fields.apply(HeaderEntry::End), Ok(fields));
    assert_eq!(
        fields.apply(HeaderEntry::CompressionType(2)),
        Err(TransactionPayloadError::UnknownAlgorithm)
    );
}

#[test]
fn header_fields_only_compression_type_is_incomplete() {
    let fields = HeaderFields::empty()
        .apply(HeaderEntry::CompressionType(0))
        .unwrap();
    assert!(fields.have_compression_type);
    assert!(!fields.is_complete());
}
