use toolapi::channel::ShutdownReason;

#[test]
fn shutdown_reasons_read_as_sentences() {
    assert_eq!(String::from(ShutdownReason::Timeout), "Tool was forced to stop: Timeout");
    assert_eq!(
        String::from(ShutdownReason::RequestedByClient),
        "Tool was forced to stop: RequestedByClient"
    );
    assert_eq!(
        String::from(ShutdownReason::ConnectionError),
        "Tool was forced to stop: ConnectionError"
    );
}
