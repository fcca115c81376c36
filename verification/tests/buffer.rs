use toolapi::connection::websocket::common::{Message, MessageBuffer, MessageKind};
use toolapi::connection::websocket::sync_wasm::{wait_for_open, OpenEvent};
use toolapi::connection::websocket::{WsChannelServer, WsChannelSync};
use toolapi::value::atomic::Int;
use toolapi::{ConnectionError, ToolError, Value, ValueDict};

/// Values have no `==`, since the order of the entries of a mapping says
/// nothing; what two values print as is compared instead.
fn alike<T: std::fmt::Debug>(left: T, right: T) {
    assert_eq!(format!("{left:?}"), format!("{right:?}"));
}

/// A consumer of a socket that will hand out the given messages and then
/// end.
struct Consumer {
    socket: std::collections::VecDeque<Message>,
    buffer: MessageBuffer,
    reads: usize,
}

impl Consumer {
    fn new(messages: Vec<Message>) -> Self {
        Consumer { socket: messages.into(), buffer: MessageBuffer::new(), reads: 0 }
    }

    fn read_expecting(&mut self, kind: MessageKind) -> Result<Option<Message>, ConnectionError> {
        if self.buffer.wants_frame(!self.socket.is_empty()) {
            self.reads += 1;
            let refused = self.buffer.store(self.socket.pop_front().unwrap());
            assert!(refused.is_none());
        }
        self.buffer.read_expecting(kind)
    }
}

#[test]
fn buffered_reads_neither_lose_nor_reorder() {
    let mut consumer = Consumer::new(vec![
        Message::Message("a".to_string()),
        Message::Abort,
        Message::Message("b".to_string()),
    ]);
    assert!(matches!(consumer.read_expecting(MessageKind::Abort), Ok(None)));
    assert_eq!(consumer.reads, 1);
    assert!(matches!(
        consumer.read_expecting(MessageKind::Message),
        Ok(Some(Message::Message(text))) if text == "a"
    ));
    assert_eq!(consumer.reads, 1);
    assert!(matches!(consumer.read_expecting(MessageKind::Message), Ok(None)));
    assert!(matches!(consumer.read_expecting(MessageKind::Message), Ok(None)));
    assert_eq!(consumer.reads, 2);
    assert!(matches!(consumer.read_expecting(MessageKind::Abort), Ok(Some(Message::Abort))));
    assert!(matches!(consumer.read_expecting(MessageKind::Abort), Ok(None)));
    assert!(matches!(
        consumer.read_expecting(MessageKind::Message),
        Ok(Some(Message::Message(text))) if text == "b"
    ));
    assert_eq!(consumer.reads, 3);
    assert!(matches!(
        consumer.read_expecting(MessageKind::Message),
        Err(ConnectionError::ConnectionClosed)
    ));
    assert!(matches!(
        consumer.read_expecting(MessageKind::Abort),
        Err(ConnectionError::ConnectionClosed)
    ));
}

#[test]
fn full_buffer_refuses_a_second_message() {
    let mut buffer = MessageBuffer::new();
    assert!(buffer.wants_frame(true));
    assert!(!buffer.wants_frame(false));
    assert!(buffer.store(Message::Abort).is_none());
    assert!(!buffer.wants_frame(true));
    let refused = buffer.store(Message::Message("late".to_string()));
    assert!(matches!(refused, Some(Message::Message(text)) if text == "late"));
    assert!(matches!(buffer.read_expecting(MessageKind::Abort), Ok(Some(Message::Abort))));
    assert!(buffer.wants_frame(true));
}

#[test]
fn client_end_reads_messages_then_the_result() {
    let mut output = ValueDict::new();
    output.insert("n".to_string(), Value::Int(Int(1)));
    let mut channel = WsChannelSync::new();
    assert!(channel.wants_frame(true));
    assert!(channel.store(Message::Message("working".to_string())).is_none());
    assert!(!channel.wants_frame(true));
    assert!(matches!(channel.read_result(), Ok(None)));
    assert!(matches!(channel.read_message(), Ok(Some(text)) if text == "working"));
    assert!(channel.store(Message::Result(Ok(output))).is_none());
    assert!(matches!(
        channel.store(Message::Abort),
        Some(Message::Abort)
    ));
    assert!(matches!(channel.read_message(), Ok(None)));
    match channel.read_result() {
        Ok(Some(Ok(values))) => alike(values.get("n"), Some(Value::Int(Int(1)))),
        other => panic!("{other:?}"),
    }
    assert!(matches!(channel.read_message(), Err(ConnectionError::ConnectionClosed)));
    assert!(matches!(channel.read_result(), Err(ConnectionError::ConnectionClosed)));
    assert!(channel.store(Message::Result(Err(ToolError::Custom("bad".to_string())))).is_none());
    assert!(matches!(
        channel.read_result(),
        Ok(Some(Err(ToolError::Custom(text)))) if text == "bad"
    ));
}

#[test]
fn server_end_reads_the_input_and_the_abort() {
    let mut input = ValueDict::new();
    input.insert("n".to_string(), Value::Int(Int(42)));
    let mut channel = WsChannelServer::new();
    assert!(matches!(channel.read_values(), Err(ConnectionError::ConnectionClosed)));
    assert!(channel.wants_frame(true));
    assert!(!channel.wants_frame(false));
    assert!(channel.store(Message::Values(input)).is_none());
    assert!(matches!(channel.read_abort(), Ok(None)));
    match channel.read_values() {
        Ok(Some(values)) => alike(values.get("n"), Some(Value::Int(Int(42)))),
        other => panic!("{other:?}"),
    }
    assert!(channel.store(Message::Abort).is_none());
    assert!(matches!(channel.store(Message::Abort), Some(Message::Abort)));
    assert!(matches!(channel.read_values(), Ok(None)));
    assert!(matches!(channel.read_abort(), Ok(Some(()))));
    assert!(matches!(channel.read_abort(), Err(ConnectionError::ConnectionClosed)));
}

#[test]
fn opening_decides_by_the_first_event() {
    assert!(matches!(wait_for_open(OpenEvent::Open), Ok(())));
    assert!(matches!(
        wait_for_open(OpenEvent::Error),
        Err(ConnectionError::WebSocketError(text)) if text == "WebSocket connection failed"
    ));
    assert!(matches!(wait_for_open(OpenEvent::Close), Err(ConnectionError::ConnectionClosed)));
    assert!(matches!(
        wait_for_open(OpenEvent::Dropped),
        Err(ConnectionError::WebSocketError(text)) if text == "open channel dropped"
    ));
}
