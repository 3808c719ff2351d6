use duplo_train_controller::protocol::MessageBuffer;

#[test]
fn empty_buffer() {
    let buffer = MessageBuffer::new();
    assert!(!buffer.has_pending());
}

#[test]
fn single_complete_message() {
    let mut buffer = MessageBuffer::new();
    let data = vec![0x06, 0x00, 0x01, 0x06, 0x05, 50];
    let messages = buffer.push(&data);
    assert_eq!(messages.len(), 1);
    assert_eq!(messages[0], data);
    assert!(!buffer.has_pending());
}

#[test]
fn fragmented_message_two_parts() {
    let mut buffer = MessageBuffer::new();
    let messages1 = buffer.push(&[0x06, 0x00, 0x01]);
    assert!(messages1.is_empty());
    assert!(buffer.has_pending());
    let messages2 = buffer.push(&[0x06, 0x05, 50]);
    assert_eq!(messages2.len(), 1);
    assert_eq!(messages2[0], vec![0x06, 0x00, 0x01, 0x06, 0x05, 50]);
    assert!(!buffer.has_pending());
}

#[test]
fn multiple_messages_in_one_packet() {
    let mut buffer = MessageBuffer::new();
    let mut data = vec![0x06, 0x00, 0x01, 0x06, 0x05, 50];
    data.extend_from_slice(&[0x05, 0x00, 0x82, 0x32, 0x02]);
    let messages = buffer.push(&data);
    assert_eq!(messages.len(), 2);
    assert_eq!(messages[0], vec![0x06, 0x00, 0x01, 0x06, 0x05, 50]);
    assert_eq!(messages[1], vec![0x05, 0x00, 0x82, 0x32, 0x02]);
    assert!(!buffer.has_pending());
}

#[test]
fn multiple_messages_with_trailing_fragment() {
    let mut buffer = MessageBuffer::new();
    let mut data = vec![0x06, 0x00, 0x01, 0x06, 0x05, 50];
    data.extend_from_slice(&[0x05, 0x00]);
    let messages = buffer.push(&data);
    assert_eq!(messages.len(), 1);
    assert!(buffer.has_pending());
    let messages2 = buffer.push(&[0x82, 0x32, 0x02]);
    assert_eq!(messages2.len(), 1);
    assert_eq!(messages2[0], vec![0x05, 0x00, 0x82, 0x32, 0x02]);
}

#[test]
fn clear_buffer() {
    let mut buffer = MessageBuffer::new();
    buffer.push(&[0x06, 0x00, 0x01]);
    assert!(buffer.has_pending());
    buffer.clear();
    assert!(!buffer.has_pending());
}

#[test]
fn zero_length_message_ignored() {
    let mut buffer = MessageBuffer::new();
    let data = vec![0x00, 0x06, 0x00, 0x01, 0x06, 0x05, 50];
    let messages = buffer.push(&data);
    assert!(messages.is_empty());
    assert!(!buffer.has_pending());
}

#[test]
fn oversized_length_clears_buffer() {
    let mut buffer = MessageBuffer::new();
    let data = vec![0xFF, 0x01, 0x02, 0x03];
    let messages = buffer.push(&data);
    assert!(messages.is_empty());
    assert!(!buffer.has_pending());
}

#[test]
fn recovers_after_oversized_length() {
    let mut buffer = MessageBuffer::new();
    buffer.push(&[0xFF, 0x01]);
    assert!(!buffer.has_pending());
    let messages = buffer.push(&[0x06, 0x00, 0x01, 0x06, 0x05, 50]);
    assert_eq!(messages.len(), 1);
}

#[test]
fn byte_by_byte_assembly() {
    let mut buffer = MessageBuffer::new();
    let full_message = vec![0x06, 0x00, 0x01, 0x06, 0x05, 75];
    for (i, byte) in full_message.iter().enumerate() {
        let messages = buffer.push(&[*byte]);
        if i < full_message.len() - 1 {
            assert!(messages.is_empty());
            assert!(buffer.has_pending());
        } else {
            assert_eq!(messages.len(), 1);
            assert_eq!(messages[0], full_message);
        }
    }
}

#[test]
fn length_at_limit_is_accepted() {
    let mut buffer = MessageBuffer::new();
    let mut frame = vec![64u8];
    frame.extend(std::iter::repeat(0xAA).take(63));
    let messages = buffer.push(&frame);
    assert_eq!(messages.len(), 1);
    assert_eq!(messages[0], frame);
    assert!(!buffer.has_pending());
}

#[test]
fn length_over_limit_drops_buffer() {
    let mut buffer = MessageBuffer::new();
    let messages = buffer.push(&[65u8, 0x00, 0x01]);
    assert!(messages.is_empty());
    assert!(!buffer.has_pending());
}

#[test]
fn invalid_length_after_frames_keeps_frames_before_it() {
    let mut buffer = MessageBuffer::new();
    let messages = buffer.push(&[0x03, 0x00, 0x01, 0x00, 0x06, 0x00]);
    assert_eq!(messages, vec![vec![0x03, 0x00, 0x01]]);
    assert!(!buffer.has_pending());
}

#[test]
fn concatenated_frames_come_back_in_order() {
    let mut buffer = MessageBuffer::new();
    let a = vec![0x05, 0x00, 0x01, 0x06, 0x05];
    let b = vec![0x06, 0x00, 0x45, 0x36, 0x2A, 0x00];
    let c = vec![0x03, 0x00, 0x02];
    let mut stream = a.clone();
    stream.extend_from_slice(&b);
    stream.extend_from_slice(&c);
    let messages = buffer.push(&stream);
    assert_eq!(messages, vec![a, b, c]);
    assert!(!buffer.has_pending());
}

#[test]
fn fragmentation_gives_same_frames() {
    let stream = vec![0x05, 0x00, 0x01, 0x06, 0x05, 0x06, 0x00, 0x45, 0x36, 0x2A, 0x00];
    let mut whole = MessageBuffer::new();
    let all_at_once = whole.push(&stream);
    for split in 0..=stream.len() {
        let mut parts = MessageBuffer::new();
        let mut got = parts.push(&stream[..split]);
        got.extend(parts.push(&stream[split..]));
        assert_eq!(got, all_at_once);
        assert!(!parts.has_pending());
    }
}

#[test]
fn default_buffer_is_empty() {
    let buffer = MessageBuffer::default();
    assert!(!buffer.has_pending());
}
