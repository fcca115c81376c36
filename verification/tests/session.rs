use toolapi::session::{Phase, Session, SessionAction, SessionEvent, SessionState};
use toolapi::value::atomic::Int;
use toolapi::connection::websocket::WsMessageType;
use toolapi::{AbortReason, ConnectionError, ParseError, ToolError, Value, ValueDict};

/// Values have no `==`, since the order of the entries of a mapping says
/// nothing; what two values print as is compared instead.
fn alike<T: std::fmt::Debug>(left: T, right: T) {
    assert_eq!(format!("{left:?}"), format!("{right:?}"));
}

fn input() -> ValueDict {
    let mut values = ValueDict::new();
    values.insert("n".to_string(), Value::Int(Int(42)));
    values
}

fn broken() -> ConnectionError {
    ConnectionError::WebSocketError("broken pipe".to_string())
}

/// A session that has read its input and started the tool.
fn running() -> Session {
    let (mut session, first) = Session::new();
    assert!(matches!(first, SessionAction::ReadInput));
    assert!(matches!(
        session.step(SessionEvent::Input(Ok(Some(input())))),
        SessionAction::Launch(_)
    ));
    assert!(matches!(session.step(SessionEvent::Launched), SessionAction::Race));
    session
}

fn crash() -> tokio::task::JoinError {
    let runtime = tokio::runtime::Builder::new_current_thread().build().unwrap();
    let handle = runtime.spawn_blocking(|| -> () { panic!("the tool crashed") });
    runtime.block_on(handle).unwrap_err()
}

#[test]
fn messages_are_forwarded_in_order_and_the_result_comes_last() {
    let mut session = running();
    let mut wire = Vec::new();
    for text in ["1", "2", "3"] {
        match session.step(SessionEvent::Outbound(Some(text.to_string()))) {
            SessionAction::Forward(sent) => wire.push(sent),
            other => panic!("{other:?}"),
        }
        assert_eq!(session.state(), SessionState::Forwarding);
        assert!(matches!(session.step(SessionEvent::Sent(Ok(()))), SessionAction::Race));
        // the socket has nothing to say in between
        assert!(matches!(session.step(SessionEvent::AbortRead(Ok(None))), SessionAction::Race));
    }
    assert!(matches!(session.step(SessionEvent::Outbound(None)), SessionAction::Join));
    assert_eq!(session.state().phase(), Phase::Draining);
    match session.step(SessionEvent::Joined(Ok(Ok(input())))) {
        SessionAction::SendResult(Ok(values)) => {
            alike(values.get("n"), Some(Value::Int(Int(42))))
        }
        other => panic!("{other:?}"),
    }
    assert_eq!(wire, vec!["1", "2", "3"]);
    assert!(matches!(session.step(SessionEvent::Sent(Ok(()))), SessionAction::Finish(Ok(()))));
    assert_eq!(session.state(), SessionState::Completed);
    assert!(session.state().is_terminal());
    assert_eq!(session.state().phase(), Phase::Completed);
}

#[test]
fn abort_is_posted_once() {
    let mut session = running();
    assert!(matches!(
        session.step(SessionEvent::AbortRead(Ok(Some(())))),
        SessionAction::PostAbort(AbortReason::RequestedByClient)
    ));
    assert_eq!(session.state(), SessionState::Aborting);
    assert!(matches!(session.step(SessionEvent::AbortPosted), SessionAction::Join));
    assert_eq!(session.state(), SessionState::Draining);
    // the client disconnects after it has sent the abort
    assert!(matches!(
        session.step(SessionEvent::AbortRead(Err(ConnectionError::ConnectionClosed))),
        SessionAction::Stop
    ));
    assert_eq!(session.state(), SessionState::Failed);
    assert!(matches!(
        session.step(SessionEvent::AbortRead(Ok(Some(())))),
        SessionAction::Stop
    ));
}

#[test]
fn a_second_abort_while_posting_posts_nothing() {
    let mut session = running();
    assert!(matches!(
        session.step(SessionEvent::AbortRead(Ok(Some(())))),
        SessionAction::PostAbort(_)
    ));
    assert!(matches!(
        session.step(SessionEvent::AbortRead(Ok(Some(())))),
        SessionAction::Stop
    ));
}

#[test]
fn a_disconnect_while_running_counts_as_an_abort() {
    let mut session = running();
    assert!(matches!(
        session.step(SessionEvent::AbortRead(Err(ConnectionError::ConnectionClosed))),
        SessionAction::PostAbort(AbortReason::RequestedByClient)
    ));
    assert!(matches!(session.step(SessionEvent::AbortPosted), SessionAction::Join));
    let aborted = Err(ToolError::Abort(AbortReason::RequestedByClient));
    assert!(matches!(
        session.step(SessionEvent::Joined(Ok(aborted))),
        SessionAction::SendResult(Err(ToolError::Abort(AbortReason::RequestedByClient)))
    ));
    assert_eq!(session.state(), SessionState::Reporting);
    assert!(matches!(
        session.step(SessionEvent::Sent(Err(ConnectionError::ConnectionClosed))),
        SessionAction::Finish(Err(ConnectionError::ConnectionClosed))
    ));
    assert_eq!(session.state(), SessionState::Failed);
}

#[test]
fn anything_but_input_fails_the_session() {
    let (mut session, _) = Session::new();
    assert_eq!(session.state(), SessionState::AwaitingInput);
    assert_eq!(session.state().phase(), Phase::AwaitingInput);
    assert!(matches!(
        session.step(SessionEvent::Input(Ok(None))),
        SessionAction::Finish(Err(ConnectionError::ConnectionClosed))
    ));
    assert_eq!(session.state(), SessionState::Failed);

    let (mut session, _) = Session::new();
    assert!(matches!(
        session.step(SessionEvent::Input(Err(ConnectionError::ConnectionClosed))),
        SessionAction::Finish(Err(ConnectionError::ConnectionClosed))
    ));

    let (mut session, _) = Session::new();
    assert!(matches!(
        session.step(SessionEvent::Input(Err(broken()))),
        SessionAction::Finish(Err(ConnectionError::WebSocketError(text))) if text == "broken pipe"
    ));
    assert_eq!(session.state().phase(), Phase::Failed);
}

#[test]
fn a_failing_connection_ends_the_session_at_once() {
    let mut session = running();
    assert!(matches!(
        session.step(SessionEvent::AbortRead(Err(broken()))),
        SessionAction::Finish(Err(ConnectionError::WebSocketError(_)))
    ));
    assert_eq!(session.state(), SessionState::Failed);

    let mut session = running();
    assert!(matches!(
        session.step(SessionEvent::Outbound(Some("x".to_string()))),
        SessionAction::Forward(_)
    ));
    assert!(matches!(
        session.step(SessionEvent::Sent(Err(broken()))),
        SessionAction::Finish(Err(ConnectionError::WebSocketError(_)))
    ));
    assert!(matches!(
        session.step(SessionEvent::Outbound(Some("y".to_string()))),
        SessionAction::Stop
    ));
}

#[test]
fn a_crashed_tool_is_told_apart_from_a_returned_error() {
    let mut session = running();
    assert!(matches!(session.step(SessionEvent::Outbound(None)), SessionAction::Join));
    assert!(matches!(
        session.step(SessionEvent::Joined(Err(crash()))),
        SessionAction::Finish(Err(ConnectionError::ToolPanic(_)))
    ));
    assert_eq!(session.state(), SessionState::Failed);

    let mut session = running();
    assert!(matches!(session.step(SessionEvent::Outbound(None)), SessionAction::Join));
    assert!(matches!(
        session.step(SessionEvent::Joined(Ok(Err(ToolError::Custom("no data".to_string()))))),
        SessionAction::SendResult(Err(ToolError::Custom(text))) if text == "no data"
    ));
    assert!(matches!(ConnectionError::from(crash()), ConnectionError::ToolPanic(_)));
}

#[test]
fn events_out_of_turn_end_the_session() {
    let (mut session, _) = Session::new();
    assert!(matches!(session.step(SessionEvent::Launched), SessionAction::Stop));
    assert_eq!(session.state(), SessionState::Failed);

    let mut session = running();
    assert!(matches!(session.step(SessionEvent::Sent(Ok(()))), SessionAction::Stop));
    assert_eq!(session.state(), SessionState::Failed);
    assert!(matches!(session.step(SessionEvent::Outbound(None)), SessionAction::Stop));
}

#[test]
fn an_abort_after_the_tool_has_finished_changes_nothing() {
    let mut session = running();
    assert!(matches!(session.step(SessionEvent::Outbound(None)), SessionAction::Join));
    assert!(matches!(
        session.step(SessionEvent::Joined(Ok(Ok(input())))),
        SessionAction::SendResult(Ok(_))
    ));
    assert!(matches!(session.step(SessionEvent::Sent(Ok(()))), SessionAction::Finish(Ok(()))));
    assert!(matches!(session.step(SessionEvent::AbortRead(Ok(Some(())))), SessionAction::Stop));
    assert_eq!(session.state(), SessionState::Completed);
}

#[test]
fn tool_errors_wrap_the_reason() {
    assert_eq!(
        ToolError::from(AbortReason::ConnectionClosed),
        ToolError::Abort(AbortReason::ConnectionClosed)
    );
}

fn wrong_kind(found: WsMessageType) -> ConnectionError {
    ConnectionError::ParseError(ParseError::WrongMessageType {
        expected: WsMessageType::Binary,
        found,
    })
}

#[test]
fn a_close_frame_while_running_counts_as_an_abort() {
    let mut session = running();
    assert!(matches!(
        session.step(SessionEvent::AbortRead(Err(wrong_kind(WsMessageType::Close)))),
        SessionAction::PostAbort(AbortReason::RequestedByClient)
    ));
    assert_eq!(session.state(), SessionState::Aborting);
}

#[test]
fn a_text_frame_while_running_fails_the_session() {
    let mut session = running();
    assert!(matches!(
        session.step(SessionEvent::AbortRead(Err(wrong_kind(WsMessageType::Text)))),
        SessionAction::Finish(Err(ConnectionError::ParseError(ParseError::WrongMessageType {
            expected: WsMessageType::Binary,
            found: WsMessageType::Text
        })))
    ));
    assert_eq!(session.state(), SessionState::Failed);
}

#[test]
fn errors_know_whether_the_other_end_has_left() {
    assert!(ConnectionError::ConnectionClosed.is_disconnect());
    assert!(wrong_kind(WsMessageType::Close).is_disconnect());
    assert!(!wrong_kind(WsMessageType::Ping).is_disconnect());
    assert!(!broken().is_disconnect());
    assert!(!ConnectionError::ParseError(ParseError::DecompressionError(std::io::Error::other(
        "cut"
    )))
    .is_disconnect());
}
