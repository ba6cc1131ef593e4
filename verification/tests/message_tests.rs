use aqueduct::message::common::{MessageBuilder, MessageParser, MAX_FRAME_LEN};
use aqueduct::message::error::MessageError;
use aqueduct::message::types::{Message, MessageType};
use aqueduct::message::v1::MESSAGE_VERSION_V1;
use aqueduct::tunnel::error::TunnelError;
use aqueduct::tunnel::message_handler::frame_message;

#[test]
fn message_round_trip() {
    let kinds = [
        MessageType::Empty,
        MessageType::Heartbeat,
        MessageType::Service,
        MessageType::Proxy,
        MessageType::Close,
        MessageType::Error,
    ];
    for kind in kinds {
        let message = Message::new(MESSAGE_VERSION_V1, kind, "{\"proxy_id\":\"x\"}");
        let mut buffer = Vec::new();
        assert!(MessageBuilder::encode(&message, &mut buffer).is_ok());
        assert_eq!(buffer.len(), 2 + message.message_payload.len());
        let read = MessageParser::parse(&buffer).ok().unwrap();
        assert_eq!(read.version, MESSAGE_VERSION_V1);
        assert_eq!(read.message_type, kind);
        assert_eq!(read.message_payload, message.message_payload);
    }
}

#[test]
fn message_encoding_layout() {
    let message = Message::new(1, MessageType::Proxy, "id");
    let mut buffer = vec![9u8];
    assert!(MessageBuilder::encode(&message, &mut buffer).is_ok());
    assert_eq!(buffer, vec![9, 1, 3, b'i', b'd']);
}

#[test]
fn message_too_long_for_a_frame() {
    let fits = "a".repeat(MAX_FRAME_LEN - 2);
    let mut buffer = Vec::new();
    assert!(MessageBuilder::encode(&Message::new(1, MessageType::Service, &fits), &mut buffer).is_ok());
    let too_long = "a".repeat(MAX_FRAME_LEN - 1);
    let mut buffer = vec![7u8];
    assert_eq!(
        MessageBuilder::encode(&Message::new(1, MessageType::Service, &too_long), &mut buffer),
        Err(MessageError::TooLong)
    );
    assert_eq!(buffer, vec![7u8]);
}

#[test]
fn malformed_frames() {
    assert!(matches!(MessageParser::parse(&[]), Err(MessageError::Truncated)));
    assert!(matches!(MessageParser::parse(&[1]), Err(MessageError::Truncated)));
    assert!(matches!(MessageParser::parse(&[1, 6]), Err(MessageError::UnknownType(6))));
    let empty = MessageParser::parse(&[1, 1]).ok().unwrap();
    assert_eq!(empty.message_type, MessageType::Heartbeat);
    assert!(empty.message_payload.is_empty());
}

#[test]
fn frame_message_empties_the_buffer() {
    let mut buffer = Vec::new();
    let frame = frame_message(&Message::new(1, MessageType::Close, ""), &mut buffer).ok().unwrap();
    assert_eq!(frame, vec![1, 4]);
    assert!(buffer.is_empty());
    let too_long = "b".repeat(300);
    let result = frame_message(&Message::new(1, MessageType::Proxy, &too_long), &mut buffer);
    assert_eq!(result, Err(TunnelError::MessageError(MessageError::TooLong)));
    assert_eq!(TunnelError::from(MessageError::Truncated), TunnelError::MessageError(MessageError::Truncated));
}
