use bore_client::connect::connect_with_timeout;
use bore_client::connect::ConnectCause;
use bore_client::error::ClientError;
use bore_client::span::Span;
use bore_client::text::decimal_text;

fn message(error: ClientError<u8>) -> Option<String> {
    error.message()
}

#[test]
fn numbers_in_decimal() {
    assert_eq!(decimal_text(0), "0");
    assert_eq!(decimal_text(9), "9");
    assert_eq!(decimal_text(10), "10");
    assert_eq!(decimal_text(7835), "7835");
    assert_eq!(decimal_text(1234567890), "1234567890");
    assert_eq!(decimal_text(u32::MAX), "4294967295");
}

#[test]
fn error_messages() {
    assert_eq!(message(ClientError::Action(1)), None);
    assert_eq!(
        message(ClientError::Refused("port in use".to_string())).unwrap(),
        "server error: port in use"
    );
    assert_eq!(
        message(ClientError::AuthenticationRequired).unwrap(),
        "server requires authentication, but no client secret was provided"
    );
    assert_eq!(
        message(ClientError::UnexpectedMessage).unwrap(),
        "unexpected initial non-hello message"
    );
    assert_eq!(message(ClientError::UnexpectedEof).unwrap(), "unexpected EOF");
    assert_eq!(
        message(ClientError::AttemptsExceeded(12)).unwrap(),
        "Maximum connection attempts (12) reached"
    );
    assert_eq!(
        message(ClientError::HeartbeatLost(Span::new(12, 500_000_000).unwrap())).unwrap(),
        "Connection lost: no heartbeat received for 12.5s"
    );
    assert_eq!(
        message(ClientError::Reported("shutting down".to_string())).unwrap(),
        "Server error: shutting down"
    );
    assert_eq!(
        message(ClientError::ReconnectsSpent).unwrap(),
        "Maximum reconnection attempts reached"
    );
}

#[test]
fn span_text_is_that_of_a_duration() {
    assert_eq!(Span::from_secs(10).text(), "10s");
    assert_eq!(Span::new(0, 1).unwrap().text(), "1ns");
    assert_eq!(Span::new(10, 42).unwrap().text(), "10.000000042s");
    let duration = std::time::Duration::new(u64::MAX, 999_999_999);
    assert_eq!(
        Span::new(u64::MAX, 999_999_999).unwrap().text(),
        format!("{:?}", duration)
    );
}

#[test]
fn span_parts() {
    assert!(Span::new(1, 999_999_999).is_some());
    assert!(Span::new(1, 1_000_000_000).is_none());
}

#[test]
fn span_difference_and_order() {
    let a = Span::new(3, 200).unwrap();
    let b = Span::new(1, 300).unwrap();
    assert_eq!(a.since(&b), Span::new(1, 999_999_900).unwrap());
    assert_eq!(b.since(&a), Span::from_secs(0));
    assert_eq!(a.since(&Span::new(3, 50).unwrap()), Span::new(0, 150).unwrap());
    assert!(a.exceeds(&b));
    assert!(!b.exceeds(&a));
    assert!(!a.exceeds(&a));
    assert!(Span::new(3, 201).unwrap().exceeds(&a));
}

#[test]
fn connection_in_time() {
    let stream: Result<u8, _> = connect_with_timeout("example.com", 80, Some(Ok::<u8, String>(5)));
    assert_eq!(stream.unwrap(), 5);
}

#[test]
fn connection_refused() {
    let outcome: Option<Result<u8, &str>> = Some(Err("refused"));
    let error = connect_with_timeout("localhost", 8000, outcome).unwrap_err();
    assert_eq!(error.context, "could not connect to localhost:8000");
    assert_eq!(error.cause, ConnectCause::Failed("refused"));
}

#[test]
fn connection_timed_out() {
    let outcome: Option<Result<u8, &str>> = None;
    let error = connect_with_timeout("bore.example", 0, outcome).unwrap_err();
    assert_eq!(error.context, "could not connect to bore.example:0");
    assert_eq!(error.cause, ConnectCause::TimedOut);
}
