use mqtt_lib::framing::{frame_packet, hand_back_excess, Frame, FrameError};
use mqtt_lib::pushback::PushbackBuffer;

#[test]
fn first_read_frames_header_and_body() {
    assert_eq!(frame_packet(&[], 100), Err(FrameError::Closed));
    assert_eq!(frame_packet(&[0x30], 100), Err(FrameError::BadHeader));
    assert_eq!(frame_packet(&[0x30, 0x80], 100), Err(FrameError::BadHeader));
    assert_eq!(
        frame_packet(&[0x30, 0xC8, 0x01, 0x00, 0x01], 100),
        Err(FrameError::TooLarge { size: 200, max: 100 })
    );
    assert_eq!(
        frame_packet(&[0x30, 0x05, 0x00, 0x01, b't'], 100),
        Ok(Frame { first_byte: 0x30, remaining_length: 5, body_start: 2, buffered: 3, to_read: 2, excess: 0 })
    );
    assert_eq!(
        frame_packet(&[0xD0, 0x00, 0xC0, 0x00, 0x30], 100),
        Ok(Frame { first_byte: 0xD0, remaining_length: 0, body_start: 2, buffered: 0, to_read: 0, excess: 3 })
    );
}

#[test]
fn over_read_bytes_frame_the_next_packet() {
    let first_read = [0xD0, 0x00, 0xD0, 0x00];
    let first = frame_packet(&first_read, 100).unwrap();
    assert_eq!(first.first_byte, 0xD0);
    assert_eq!(first.excess, 2);
    let mut pushback = PushbackBuffer::new();
    hand_back_excess(&mut pushback, &first_read, &first);
    let mut next = [0u8; 5];
    let n = pushback.read_into(&mut next);
    assert_eq!(n, 2);
    let second = frame_packet(&next[..n], 100).unwrap();
    assert_eq!(second, Frame { first_byte: 0xD0, remaining_length: 0, body_start: 2, buffered: 0, to_read: 0, excess: 0 });
    assert!(pushback.is_empty());
}
