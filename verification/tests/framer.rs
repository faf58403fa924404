use ptls::io_wrapper::{decode_record, encode_record, parse_header, IoWrapperError};
use ptls::sub_protocol::ContentType;
use ptls::MAX_PAYLOAD_LENGTH;

#[test]
fn receive_invalid_content_type() {
    let (result, consumed) = decode_record(&[0, 0, 255, 0, 1, 123]);
    assert!(matches!(result, Err(IoWrapperError::UnknownContentType(255))));
    assert_eq!(consumed, 6);
}

#[test]
fn receive_no_payload() {
    let (result, _) = decode_record(&[0, 0, 1, 0, 0]);
    assert!(matches!(result, Err(IoWrapperError::NoPayload)));
}

#[test]
fn receive_message_too_long() {
    let (result, _) = decode_record(&[0, 0, 1, 255, 255]);
    assert!(matches!(
        result,
        Err(IoWrapperError::MessageTooLong(length)) if length as u16 == u16::MAX
    ));
}

#[test]
fn receive_version_not_supported() {
    let (result, _) = decode_record(&[0, 1, 1, 0, 1, 123]);
    assert!(matches!(
        result,
        Err(IoWrapperError::InappropriateVersion(version)) if version == 1
    ));
}

#[test]
fn receive_single_byte_record() {
    let (result, consumed) = decode_record(&[0, 0, 1, 0, 1, 0x7B]);
    let (content_type, payload) = result.unwrap();
    assert_eq!(content_type, ContentType::ApplicationData);
    assert_eq!(payload, vec![0x7B]);
    assert_eq!(consumed, 6);
}

#[test]
fn no_payload() {
    assert!(matches!(
        encode_record(ContentType::Handshake, &[]),
        Err(IoWrapperError::NoPayload),
    ));
}

#[test]
fn message_too_long() {
    assert!(matches!(
        encode_record(ContentType::Handshake, &vec![0; u16::MAX as usize]),
        Err(IoWrapperError::MessageTooLong(_)),
    ));
}

#[test]
fn io_wrapper() {
    let payload = b"abcdefghijklmnopqrstuvwxyz1234567890987654321".repeat(64);

    let frame = encode_record(ContentType::ApplicationData, &payload).unwrap();
    assert_eq!(frame.len(), 5 + payload.len());

    let (result, consumed) = decode_record(&frame);
    let (received_content_type, received_payload) = result.unwrap();

    assert_eq!(received_content_type, ContentType::ApplicationData);
    assert_eq!(received_payload, payload);
    assert_eq!(consumed, frame.len());
}

#[test]
fn round_trip_with_trailing_bytes() {
    let mut stream = encode_record(ContentType::Alert, &[9, 8, 7]).unwrap();
    stream.extend_from_slice(&[0, 0, 0]);

    let (result, consumed) = decode_record(&stream);
    let (content_type, payload) = result.unwrap();
    assert_eq!(content_type, ContentType::Alert);
    assert_eq!(payload, vec![9, 8, 7]);
    assert_eq!(consumed, 8);
}

#[test]
fn encode_largest_record() {
    let payload = vec![0xAB; MAX_PAYLOAD_LENGTH as usize];
    let frame = encode_record(ContentType::ApplicationData, &payload).unwrap();
    assert_eq!(frame.len(), 5 + MAX_PAYLOAD_LENGTH as usize);

    let (result, consumed) = decode_record(&frame);
    let (_, received) = result.unwrap();
    assert_eq!(received, payload);
    assert_eq!(consumed, frame.len());
}

#[test]
fn parse_header_checks_version_before_length() {
    // Version and length are both unacceptable: the version decides.
    let result = parse_header(&[0, 1, 1, 0, 0]);
    assert!(matches!(result, Err(IoWrapperError::InappropriateVersion(1))));
}

#[test]
fn parse_header_accepts_valid_header() {
    let (content_type, length) = parse_header(&[0, 0, 2, 1, 4]).unwrap();
    assert_eq!(content_type, 2);
    assert_eq!(length, 260);
}

#[test]
fn max_payload_length_value() {
    assert_eq!(MAX_PAYLOAD_LENGTH, 65531);
}
