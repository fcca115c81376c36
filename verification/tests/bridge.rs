use toolapi::connection::channel::{connect, copy_reason, decide, AbortPoll, QUEUE_CAPACITY};
use toolapi::AbortReason;

#[test]
fn messages_arrive_in_the_order_sent() {
    let (mut tx, mut rx) = connect();
    assert_eq!(tx.send("1".to_string()), Ok(()));
    assert_eq!(tx.send("2".to_string()), Ok(()));
    assert_eq!(tx.send("3".to_string()), Ok(()));
    assert_eq!(rx.msg_rx.try_recv().unwrap(), "1");
    assert_eq!(rx.msg_rx.try_recv().unwrap(), "2");
    assert_eq!(rx.msg_rx.try_recv().unwrap(), "3");
    assert!(rx.msg_rx.try_recv().is_err());
    drop(tx);
    assert_eq!(rx.msg_rx.blocking_recv(), None);
}

#[test]
fn abort_is_told_on_the_next_send() {
    let (mut tx, rx) = connect();
    assert_eq!(tx.send("before".to_string()), Ok(()));
    rx.abort(AbortReason::RequestedByClient);
    assert_eq!(tx.send("after".to_string()), Err(AbortReason::RequestedByClient));
}

#[test]
fn the_first_reason_is_told_again_and_never_another() {
    let (mut tx, rx) = connect();
    rx.abort(AbortReason::RequestedByClient);
    for i in 0..5 {
        assert_eq!(tx.send(i.to_string()), Err(AbortReason::RequestedByClient));
    }
}

#[test]
fn a_dropped_receiver_is_a_channel_error() {
    let (mut tx, rx) = connect();
    drop(rx);
    assert!(matches!(tx.send("lost".to_string()), Err(AbortReason::ChannelError(_))));
}

#[test]
fn a_slot_that_is_gone_without_an_abort_is_a_closed_connection() {
    let (mut tx, rx) = connect();
    let msg_rx = {
        let inner = rx;
        let toolapi::connection::channel::BridgeReceiver { msg_rx, .. } = inner;
        msg_rx
    };
    assert_eq!(tx.send("1".to_string()), Err(AbortReason::ConnectionClosed));
    assert_eq!(tx.send("2".to_string()), Err(AbortReason::ConnectionClosed));
    drop(msg_rx);
}

#[test]
fn abort_after_the_tool_is_gone_changes_nothing() {
    let (tx, rx) = connect();
    drop(tx);
    rx.abort(AbortReason::RequestedByClient);
}

#[test]
fn the_queue_holds_its_capacity_without_blocking() {
    assert_eq!(QUEUE_CAPACITY, 1024);
    let (mut tx, mut rx) = connect();
    assert_eq!(tx.capacity(), 1024);
    assert_eq!(rx.msg_rx.max_capacity(), 1024);
    for i in 0..QUEUE_CAPACITY {
        assert_eq!(tx.send(i.to_string()), Ok(()));
    }
    assert_eq!(rx.msg_rx.capacity(), 0);
    for i in 0..QUEUE_CAPACITY {
        assert_eq!(rx.msg_rx.try_recv().unwrap(), i.to_string());
    }
    assert_eq!(tx.capacity(), 1024);
}

#[test]
fn a_send_is_decided_by_queue_and_slot() {
    let gone = || Err("channel closed".to_string());
    let posted = || AbortPoll::Posted(AbortReason::RequestedByClient);
    assert_eq!(decide(None, Ok(()), AbortPoll::Empty), (Ok(()), None));
    assert_eq!(
        decide(None, Ok(()), AbortPoll::Closed),
        (Err(AbortReason::ConnectionClosed), Some(AbortReason::ConnectionClosed))
    );
    assert_eq!(
        decide(None, Ok(()), posted()),
        (Err(AbortReason::RequestedByClient), Some(AbortReason::RequestedByClient))
    );
    assert_eq!(
        decide(None, gone(), posted()),
        (Err(AbortReason::RequestedByClient), Some(AbortReason::RequestedByClient))
    );
    let error = AbortReason::ChannelError("channel closed".to_string());
    assert_eq!(decide(None, gone(), AbortPoll::Empty), (Err(error.clone()), Some(error.clone())));
    assert_eq!(decide(None, gone(), AbortPoll::Closed), (Err(error.clone()), Some(error.clone())));
    for polled in [AbortPoll::Empty, AbortPoll::Closed, AbortPoll::Posted(error.clone())] {
        assert_eq!(
            decide(Some(AbortReason::RequestedByClient), Ok(()), polled.clone()),
            (Err(AbortReason::RequestedByClient), Some(AbortReason::RequestedByClient))
        );
        assert_eq!(
            decide(Some(AbortReason::ConnectionClosed), gone(), polled),
            (Err(AbortReason::ConnectionClosed), Some(AbortReason::ConnectionClosed))
        );
    }
    let reason = AbortReason::ChannelError("gone".to_string());
    assert_eq!(copy_reason(&reason), reason);
    assert_eq!(copy_reason(&AbortReason::RequestedByClient), AbortReason::RequestedByClient);
}
