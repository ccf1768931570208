use bore_client::client::Client;
use bore_client::error::ClientError;
use bore_client::message::ServerMessage;
use bore_client::opening::Opening;
use bore_client::opening::OpeningAction;
use bore_client::opening::OpeningStep;
use bore_client::retry::RetryStep;
use bore_client::retry::Retrying;

fn open(mut opening: Opening, port: u16) -> Client {
    loop {
        let last = opening.action() == OpeningAction::Receive;
        let outcome: Result<Option<ServerMessage>, u8> = if last {
            Ok(Some(ServerMessage::Hello(port)))
        } else {
            Ok(None)
        };
        match opening.advance(outcome) {
            OpeningStep::Continue(next) => opening = next,
            OpeningStep::Opened(client) => return client,
            OpeningStep::Failed(error) => panic!("unexpected {:?}", error),
        }
    }
}

fn retrying(max_retries: u32) -> Retrying {
    Client::new_with_retry("localhost", 5000, "bore.example", 4000, None, max_retries, 100, 300)
}

#[test]
fn first_success_ends_series() {
    let mut retrying = retrying(3);
    assert!(retrying.begin::<u8>().is_ok());
    match retrying.finish(Err(ClientError::Action(1u8))) {
        RetryStep::Wait(delay) => assert_eq!(delay, 100),
        other => panic!("unexpected {:?}", other),
    }
    let opening = retrying.begin::<u8>().unwrap();
    assert_eq!(retrying.attempt(), 2);
    match retrying.finish::<u8>(Ok(open(opening, 4001))) {
        RetryStep::Connected(client) => assert_eq!(client.remote_port(), 4001),
        other => panic!("unexpected {:?}", other),
    }
}

#[test]
fn last_attempt_propagates_its_error() {
    let mut retrying = retrying(3);
    let mut delays = Vec::new();
    for number in 1..=3u8 {
        assert!(retrying.begin::<u8>().is_ok());
        match retrying.finish(Err(ClientError::Action(number))) {
            RetryStep::Wait(delay) => delays.push(delay),
            RetryStep::GaveUp(error) => {
                assert_eq!(number, 3);
                assert_eq!(error, ClientError::Action(3));
            }
            other => panic!("unexpected {:?}", other),
        }
    }
    assert_eq!(delays, vec![100, 200]);
}

#[test]
fn attempt_beyond_limit_is_refused() {
    let mut retrying = retrying(1);
    assert!(retrying.begin::<u8>().is_ok());
    match retrying.begin::<u8>() {
        Err(error) => assert_eq!(error, ClientError::AttemptsExceeded(1)),
        Ok(opening) => panic!("unexpected {:?}", opening),
    }
}

#[test]
fn without_limit_never_gives_up() {
    let mut retrying = retrying(0);
    for number in 0..500u32 {
        assert!(retrying.begin::<u8>().is_ok());
        match retrying.finish(Err(ClientError::<u8>::UnexpectedEof)) {
            RetryStep::Wait(delay) => {
                let expected = match number {
                    0 => 100,
                    1 => 200,
                    _ => 300,
                };
                assert_eq!(delay, expected);
            }
            other => panic!("unexpected {:?}", other),
        }
    }
    assert_eq!(retrying.attempt(), 500);
}

#[test]
fn every_attempt_has_the_same_target() {
    let mut retrying =
        Client::new_with_retry("localhost", 5000, "bore.example", 4000, Some("hush"), 0, 1, 1);
    for _ in 0..3 {
        let opening = retrying.begin::<u8>().unwrap();
        assert_eq!(opening.action(), OpeningAction::Connect("bore.example"));
        match opening.advance::<u8>(Ok(None)) {
            OpeningStep::Continue(next) => {
                assert_eq!(next.action(), OpeningAction::Authenticate("hush"))
            }
            other => panic!("unexpected {:?}", other),
        }
    }
}

#[test]
fn first_wait_is_within_maximum() {
    let mut retrying = Client::new_with_retry("localhost", 8080, "h", 0, None, 2, 5000, 1000);
    assert!(retrying.begin::<u8>().is_ok());
    match retrying.finish(Err(ClientError::Action(1u8))) {
        RetryStep::Wait(delay) => assert_eq!(delay, 1000),
        other => panic!("unexpected {:?}", other),
    }
    let opening = retrying.begin::<u8>().unwrap();
    match retrying.finish::<u8>(Ok(open(opening, 4001))) {
        RetryStep::Connected(client) => assert_eq!(client.remote_port(), 4001),
        other => panic!("unexpected {:?}", other),
    }
}
