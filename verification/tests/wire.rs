use bincode::Options;
use lanshare::octets::{from_octets, to_octets};
use lanshare::wire::{
    deserialise_stream, frame_span, read_stream_len, serialise_stream, FrameError,
    BINCODE_BYTE_LIMIT, LEN_PREFIX_BYTES,
};

fn codec() -> impl bincode::Options {
    bincode::DefaultOptions::new().with_limit(BINCODE_BYTE_LIMIT as u64)
}

#[test]
fn test_read_stream_len() {
    let data = 42u32.to_be_bytes().to_vec();
    let len = read_stream_len(&data).unwrap();
    assert_eq!(len, 42);
}

#[test]
fn test_serialise_deserialise_round_trip() {
    let test_data = ("test".to_string(), 123i32);

    let payload = codec().serialize(&test_data).unwrap();
    let serialized_data = serialise_stream(&payload).unwrap();

    let received = deserialise_stream(&serialized_data).unwrap();
    let deserialized: (String, i32) = codec().deserialize(&received).unwrap();

    assert_eq!(test_data, deserialized);
}

#[test]
fn test_deserialise_insufficient_len_bytes() {
    let result = deserialise_stream(&[1, 2]);
    assert!(matches!(result, Err(FrameError::Insufficient)));
}

#[test]
fn test_deserialise_invalid_data() {
    let mut data = 4u32.to_be_bytes().to_vec();
    data.extend_from_slice(&[1, 2, 3, 4]);

    let payload = deserialise_stream(&data).unwrap();
    assert_eq!(payload, vec![1, 2, 3, 4]);
    let result: Result<(String, i32), bincode::Error> = codec().deserialize(&payload);
    assert!(result.is_err());
}

#[test]
fn test_serialise_large_data() {
    let large_string = "x".repeat(BINCODE_BYTE_LIMIT + 1);
    let test_data = (large_string.clone(), 123i32);

    assert!(codec().serialize(&test_data).is_err());
    let result = serialise_stream(large_string.as_bytes());
    assert!(matches!(result, Err(FrameError::TooLarge)));
}

#[test]
fn frame_has_big_endian_prefix() {
    assert_eq!(serialise_stream(b"hi").unwrap(), vec![0, 0, 0, 2, b'h', b'i']);
    assert_eq!(serialise_stream(&[]).unwrap(), vec![0, 0, 0, 0]);
    let payload = vec![7u8; 258];
    let frame = serialise_stream(&payload).unwrap();
    assert_eq!(&frame[..4], &[0, 0, 1, 2]);
    assert_eq!(&frame[4..], &payload[..]);
}

#[test]
fn frame_at_the_limit_round_trips() {
    let payload = vec![0xabu8; BINCODE_BYTE_LIMIT];
    let frame = serialise_stream(&payload).unwrap();
    assert_eq!(frame.len(), BINCODE_BYTE_LIMIT + LEN_PREFIX_BYTES);
    assert_eq!(&frame[..4], &[0, 0, 0x40, 0]);
    assert_eq!(deserialise_stream(&frame).unwrap(), payload);
}

#[test]
fn frame_over_the_limit_is_too_large() {
    let payload = vec![0u8; BINCODE_BYTE_LIMIT + 1];
    assert_eq!(serialise_stream(&payload), Err(FrameError::TooLarge));
    let mut hostile = vec![0, 0, 0x40, 1];
    hostile.extend_from_slice(&[0u8; 32]);
    assert_eq!(deserialise_stream(&hostile), Err(FrameError::TooLarge));
    assert_eq!(read_stream_len(&[0xff, 0xff, 0xff, 0xff]), Err(FrameError::TooLarge));
    assert_eq!(read_stream_len(&[0, 0, 0x40, 0]), Ok(16384));
}

#[test]
fn truncated_frames_are_insufficient() {
    assert_eq!(deserialise_stream(&[]), Err(FrameError::Insufficient));
    assert_eq!(deserialise_stream(&[0, 0, 0]), Err(FrameError::Insufficient));
    assert_eq!(deserialise_stream(&[0, 0, 0, 3, 1, 2]), Err(FrameError::Insufficient));
    assert_eq!(read_stream_len(&[0, 0, 0]), Err(FrameError::Insufficient));
    assert_eq!(frame_span(&[0, 0, 0, 3, 1, 2]), None);
}

#[test]
fn bytes_after_a_frame_are_left_alone() {
    let buf = [0, 0, 0, 2, 9, 8, 7, 6, 5];
    assert_eq!(deserialise_stream(&buf).unwrap(), vec![9, 8]);
    assert_eq!(frame_span(&buf), Some(6));
    assert_eq!(read_stream_len(&buf), Ok(2));
}

#[test]
fn octets_are_big_endian() {
    assert_eq!(from_octets([25, 1, 2, 3]), 419496451);
    assert_eq!(from_octets([25, 1, 2, 3]), 0x1901_0203);
    assert_eq!(from_octets([255, 255, 255, 255]), u32::MAX);
    assert_eq!(from_octets([0, 0, 0, 0]), 0);
    assert_eq!(to_octets(0xFF00_0000), [255, 0, 0, 0]);
    assert_eq!(to_octets(0x1901_0203), [25, 1, 2, 3]);
    assert_eq!(to_octets(from_octets([172, 16, 0, 2])), [172, 16, 0, 2]);
    assert_eq!(from_octets([172, 16, 0, 2]), u32::from_be_bytes([172, 16, 0, 2]));
}
