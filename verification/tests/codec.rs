use toolapi::connection::websocket::common::{
    deserialize, intake, pack, serialize, unpack, Message, MessageKind, WsFrame,
};
use toolapi::connection::websocket::WsMessageType;
use toolapi::{ConnectionError, ParseError, ToolError, ValueDict};

fn sample() -> Vec<u8> {
    let mut bytes = Vec::new();
    for i in 0..5000u32 {
        bytes.push((i % 7) as u8);
        bytes.push((i / 256) as u8);
    }
    bytes
}

#[test]
fn packed_bytes_unpack_to_themselves() {
    for raw in [vec![], vec![0u8], vec![1, 2, 3, 4, 5], vec![9u8; 100_000], sample()] {
        let frame = pack(&raw);
        assert_eq!(unpack(frame).unwrap(), raw);
    }
}

#[test]
fn packing_writes_a_zstandard_frame() {
    let raw = sample();
    let packed = serialize(&raw);
    assert_eq!(&packed[..4], &[0x28, 0xB5, 0x2F, 0xFD]);
    assert!(packed.len() < raw.len());
    assert_ne!(packed, raw);
    assert!(matches!(pack(&raw), WsFrame::Binary(ref bytes) if *bytes == packed));
    assert_eq!(deserialize(&packed).unwrap(), raw);
}

#[test]
fn packing_is_the_same_on_every_call() {
    assert_eq!(serialize(&sample()), serialize(&sample()));
}

#[test]
fn bytes_that_are_no_frame_fail_to_decompress() {
    assert!(matches!(deserialize(&[1, 2, 3]), Err(ParseError::DecompressionError(_))));
    assert!(matches!(deserialize(&[]), Err(ParseError::DecompressionError(_))));
    let mut cut = serialize(&sample());
    cut.truncate(cut.len() / 2);
    assert!(matches!(deserialize(&cut), Err(ParseError::DecompressionError(_))));
    assert!(matches!(
        unpack(WsFrame::Binary(vec![0xFF; 16])),
        Err(ParseError::DecompressionError(_))
    ));
}

#[test]
fn frames_that_are_not_binary_are_refused() {
    let good = serialize(&[1, 2, 3]);
    let frames = vec![
        (WsFrame::Text("hello".to_string()), WsMessageType::Text),
        (WsFrame::Text(String::new()), WsMessageType::Text),
        (WsFrame::Ping(good.clone()), WsMessageType::Ping),
        (WsFrame::Pong(good.clone()), WsMessageType::Pong),
        (WsFrame::Close, WsMessageType::Close),
    ];
    for (frame, kind) in frames {
        assert_eq!(WsMessageType::from(frame.clone()), kind);
        match unpack(frame) {
            Err(ParseError::WrongMessageType { expected, found }) => {
                assert_eq!(expected, WsMessageType::Binary);
                assert_eq!(found, kind);
            }
            other => panic!("{other:?}"),
        }
    }
    assert_eq!(WsMessageType::from(WsFrame::Binary(vec![])), WsMessageType::Binary);
}

#[test]
fn intake_hands_on_what_the_socket_brought() {
    assert!(matches!(intake(None), Ok(None)));
    assert!(matches!(
        intake(Some(Err(ConnectionError::WebSocketError("broken".to_string())))),
        Err(ConnectionError::WebSocketError(text)) if text == "broken"
    ));
    assert!(matches!(
        intake(Some(Ok(pack(&[7, 8])))),
        Ok(Some(bytes)) if bytes == vec![7, 8]
    ));
    assert!(matches!(
        intake(Some(Ok(WsFrame::Close))),
        Err(ConnectionError::ParseError(ParseError::WrongMessageType {
            expected: WsMessageType::Binary,
            found: WsMessageType::Close
        }))
    ));
    assert!(matches!(
        intake(Some(Ok(WsFrame::Binary(vec![1])))),
        Err(ConnectionError::ParseError(ParseError::DecompressionError(_)))
    ));
}

#[test]
fn messages_know_their_kind_and_name() {
    let values = Message::Values(ValueDict::new());
    let result = Message::Result(Err(ToolError::Custom("no".to_string())));
    let text = Message::Message("hi".to_string());
    assert_eq!(values.kind(), MessageKind::Values);
    assert_eq!(result.kind(), MessageKind::Result);
    assert_eq!(text.kind(), MessageKind::Message);
    assert_eq!(Message::Abort.kind(), MessageKind::Abort);
    assert_eq!(values.typename(), "WsMessage::Values");
    assert_eq!(result.typename(), "WsMessage::Result");
    assert_eq!(text.typename(), "WsMessage::Message");
    assert_eq!(Message::Abort.typename(), "WsMessage::Abort");
}

#[test]
fn errors_of_the_outside_crates_are_carried() {
    let broken = rmp_serde::from_slice::<u32>(&[]).unwrap_err();
    let err = ConnectionError::from(ParseError::DeserializationError(broken));
    assert!(matches!(err, ConnectionError::ParseError(ParseError::DeserializationError(_))));
    let err = ParseError::CompressionError(std::io::Error::other("full"));
    assert!(matches!(err, ParseError::CompressionError(_)));
}
