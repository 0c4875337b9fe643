use std::borrow::Cow;

use transaction_payload::compression::{check_decoded, decompress};
use transaction_payload::consts::TransactionPayloadCompressionType;
use transaction_payload::error::TransactionPayloadError;
use transaction_payload::event::TransactionPayloadEvent;
use transaction_payload::parse_buf::ParseBuf;

const NONE: TransactionPayloadCompressionType = TransactionPayloadCompressionType::NONE;
const ZSTD: TransactionPayloadCompressionType = TransactionPayloadCompressionType::ZSTD;

fn plaintext() -> Vec<u8> {
    let mut plain = Vec::new();
    for i in 0..200u32 {
        plain.extend_from_slice(b"transaction payload ");
        plain.push((i % 251) as u8);
    }
    plain
}

fn compressed(plain: &[u8]) -> Vec<u8> {
    zstd::stream::encode_all(plain, 3).unwrap()
}

#[test]
fn check_decoded_hands_back_a_full_buffer() {
    assert_eq!(check_decoded(vec![1, 2, 3], Some(0)), Ok(vec![1, 2, 3]));
    assert_eq!(check_decoded(Vec::new(), Some(0)), Ok(Vec::new()));
}

#[test]
fn check_decoded_refuses_a_short_decode() {
    assert_eq!(
        check_decoded(vec![1, 2, 0], Some(1)),
        Err(TransactionPayloadError::DecompressionFailure)
    );
    assert_eq!(
        check_decoded(vec![0, 0, 0], Some(3)),
        Err(TransactionPayloadError::DecompressionFailure)
    );
}

#[test]
fn check_decoded_refuses_a_failed_decode() {
    assert_eq!(
        check_decoded(vec![1, 2, 3], None),
        Err(TransactionPayloadError::DecompressionFailure)
    );
    assert_eq!(
        check_decoded(Vec::new(), None),
        Err(TransactionPayloadError::DecompressionFailure)
    );
}

#[test]
fn uncompressed_payload_stands_for_itself() {
    assert_eq!(decompress(NONE, 0, b"hello"), Ok(b"hello".to_vec()));
    assert_eq!(decompress(NONE, 999, b"hello"), Ok(b"hello".to_vec()));
    assert_eq!(decompress(NONE, 0, b""), Ok(Vec::new()));

    let event = TransactionPayloadEvent::new(5, NONE, 0, Cow::Borrowed(&b"hello"[..]));
    assert_eq!(event.decompress_payload(), Ok(b"hello".to_vec()));
}

#[test]
fn zstd_payload_decompresses_to_plaintext() {
    let plain = plaintext();
    let packed = compressed(&plain);
    assert_ne!(packed, plain);
    let event = TransactionPayloadEvent::new(
        packed.len() as u64,
        ZSTD,
        plain.len() as u64,
        Cow::Borrowed(&packed[..]),
    );
    assert_eq!(event.decompress_payload(), Ok(plain));
}

#[test]
fn zstd_short_plaintext() {
    let packed = compressed(b"a");
    assert_eq!(decompress(ZSTD, 1, &packed), Ok(vec![b'a']));
}

#[test]
fn zstd_empty_plaintext() {
    let packed = compressed(b"");
    assert_eq!(decompress(ZSTD, 0, &packed), Ok(Vec::new()));
}

#[test]
fn zstd_roundtrip_through_the_wire() {
    let plain = plaintext();
    let packed = compressed(&plain);
    let event = TransactionPayloadEvent::new(
        packed.len() as u64,
        ZSTD,
        plain.len() as u64,
        Cow::Owned(packed),
    );
    let mut bytes = Vec::new();
    event.serialize(&mut bytes);
    let mut buf = ParseBuf(&bytes[..]);
    let parsed = TransactionPayloadEvent::deserialize(&mut buf).unwrap();
    assert_eq!(parsed.algorithm(), ZSTD);
    assert_eq!(parsed.uncompressed_size(), plain.len() as u64);
    assert_eq!(parsed.payload_raw(), event.payload_raw());
    assert_eq!(parsed.into_owned().decompress_payload(), Ok(plain));
}

#[test]
fn corrupted_zstd_payload_fails() {
    let plain = plaintext();
    let mut packed = compressed(&plain);
    packed[0] ^= 0xff;
    let event = TransactionPayloadEvent::new(
        packed.len() as u64,
        ZSTD,
        plain.len() as u64,
        Cow::Borrowed(&packed[..]),
    );
    assert_eq!(
        event.decompress_payload(),
        Err(TransactionPayloadError::DecompressionFailure)
    );
}

#[test]
fn cut_off_zstd_payload_fails() {
    let plain = plaintext();
    let packed = compressed(&plain);
    let cut = &packed[..packed.len() - 1];
    assert_eq!(
        decompress(ZSTD, plain.len() as u64, cut),
        Err(TransactionPayloadError::DecompressionFailure)
    );
}

#[test]
fn bytes_that_are_no_zstd_stream_fail() {
    assert_eq!(
        decompress(ZSTD, 5, b"hello"),
        Err(TransactionPayloadError::DecompressionFailure)
    );
    assert_eq!(
        decompress(ZSTD, 0, b""),
        Err(TransactionPayloadError::DecompressionFailure)
    );
}

#[test]
fn declared_size_too_small_fails() {
    let plain = plaintext();
    let packed = compressed(&plain);
    assert_eq!(
        decompress(ZSTD, plain.len() as u64 - 1, &packed),
        Err(TransactionPayloadError::DecompressionFailure)
    );
    assert_eq!(
        decompress(ZSTD, 0, &packed),
        Err(TransactionPayloadError::DecompressionFailure)
    );
}

#[test]
fn declared_size_too_large_fails() {
    let plain = plaintext();
    let packed = compressed(&plain);
    assert_eq!(
        decompress(ZSTD, plain.len() as u64 + 1, &packed),
        Err(TransactionPayloadError::DecompressionFailure)
    );
}

#[test]
fn declared_size_beyond_any_buffer_fails() {
    let packed = compressed(b"abc");
    assert_eq!(
        decompress(ZSTD, u64::MAX, &packed),
        Err(TransactionPayloadError::DecompressionFailure)
    );
    assert_eq!(
        decompress(ZSTD, isize::MAX as u64 + 1, &packed),
        Err(TransactionPayloadError::DecompressionFailure)
    );
}

#[test]
fn failure_is_not_an_empty_result() {
    let event = TransactionPayloadEvent::new(3, ZSTD, 0, Cow::Borrowed(&[1u8, 2, 3][..]));
    let result = event.decompress_payload();
    assert_ne!(result, Ok(Vec::new()));
    assert_eq!(result, Err(TransactionPayloadError::DecompressionFailure));
}
