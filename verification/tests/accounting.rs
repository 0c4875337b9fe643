use transaction_payload::accounting::encoded_length;
use transaction_payload::consts::MAX_EVENT_BODY_LEN;

#[test]
fn encoded_length_is_the_sum() {
    assert_eq!(encoded_length(0, 0), 0);
    assert_eq!(encoded_length(3, 4), 7);
    assert_eq!(encoded_length(7, 0), 7);
    assert_eq!(encoded_length(0, 12), 12);
    assert_eq!(encoded_length(1000, 2345), 3345);
}

#[test]
fn encoded_length_is_clamped_to_event_body() {
    assert_eq!(encoded_length(MAX_EVENT_BODY_LEN, 0), MAX_EVENT_BODY_LEN);
    assert_eq!(encoded_length(MAX_EVENT_BODY_LEN - 1, 1), MAX_EVENT_BODY_LEN);
    assert_eq!(encoded_length(MAX_EVENT_BODY_LEN, 1), MAX_EVENT_BODY_LEN);
    assert_eq!(
        encoded_length(MAX_EVENT_BODY_LEN - 1, 0),
        MAX_EVENT_BODY_LEN - 1
    );
    assert_eq!(encoded_length(4_294_967_295, 0), 4_294_967_276);
}

#[test]
fn encoded_length_does_not_wrap() {
    assert_eq!(encoded_length(usize::MAX, 1), MAX_EVENT_BODY_LEN);
    assert_eq!(encoded_length(usize::MAX, usize::MAX), MAX_EVENT_BODY_LEN);
    assert_eq!(encoded_length(1, usize::MAX), MAX_EVENT_BODY_LEN);
    assert_eq!(encoded_length(usize::MAX - 1, 2), MAX_EVENT_BODY_LEN);
}
