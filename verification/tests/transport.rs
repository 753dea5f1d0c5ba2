use tws_core::errors::Error;
use tws_core::transport::decode_frame;
use tws_core::transport::encode_frame;
use tws_core::transport::Frame;
use tws_core::transport::DEFAULT_MAX_FRAME_LENGTH;

#[test]
fn a_frame_is_a_length_and_the_payload() {
    let frame = encode_frame(&b"71\x002\x00".to_vec(), DEFAULT_MAX_FRAME_LENGTH).unwrap();
    assert_eq!(frame, vec![0, 0, 0, 5, b'7', b'1', 0, b'2', 0]);
}

#[test]
fn the_length_is_written_most_significant_first() {
    let payload = vec![7u8; 0x01_02_03];
    let frame = encode_frame(&payload, DEFAULT_MAX_FRAME_LENGTH).unwrap();
    assert_eq!(&frame[..4], &[0, 1, 2, 3]);
    assert_eq!(frame.len(), 4 + payload.len());
}

#[test]
fn decode_gives_back_what_encode_wrote() {
    let payload = b"9\x001\x0042\x00".to_vec();
    let mut bytes = encode_frame(&payload, 100).unwrap();
    bytes.extend_from_slice(b"the next frame");
    assert_eq!(decode_frame(&bytes, 100), Ok(Frame::Complete(payload, 11)));
}

#[test]
fn a_frame_that_has_not_come_in_full_is_incomplete() {
    let bytes = encode_frame(&b"hello".to_vec(), 100).unwrap();
    for cut in 0..bytes.len() {
        assert_eq!(decode_frame(&bytes[..cut].to_vec(), 100), Ok(Frame::Incomplete));
    }
    assert_eq!(decode_frame(&bytes, 100), Ok(Frame::Complete(b"hello".to_vec(), 9)));
}

#[test]
fn an_empty_payload_is_a_frame() {
    let bytes = encode_frame(&Vec::new(), 100).unwrap();
    assert_eq!(bytes, vec![0, 0, 0, 0]);
    assert_eq!(decode_frame(&bytes, 100), Ok(Frame::Complete(Vec::new(), 4)));
}

#[test]
fn a_frame_above_the_maximum_is_refused() {
    assert_eq!(encode_frame(&vec![0u8; 11], 10), Err(Error::FrameTooLarge(11, 10)));
    assert!(encode_frame(&vec![0u8; 10], 10).is_ok());
    assert_eq!(decode_frame(&vec![0, 0, 0, 11], 10), Err(Error::FrameTooLarge(11, 10)));
    assert_eq!(decode_frame(&vec![255, 255, 255, 255, 1], DEFAULT_MAX_FRAME_LENGTH),
        Err(Error::FrameTooLarge(4294967295, 16777216)));
    assert_eq!(decode_frame(&vec![1, 0, 0, 0], DEFAULT_MAX_FRAME_LENGTH), Ok(Frame::Incomplete));
    assert_eq!(decode_frame(&vec![1, 0, 0, 1], DEFAULT_MAX_FRAME_LENGTH),
        Err(Error::FrameTooLarge(16777217, 16777216)));
}
