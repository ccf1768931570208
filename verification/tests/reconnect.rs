use bore_client::client::Client;
use bore_client::command::run;
use bore_client::command::Command;
use bore_client::command::Task;
use bore_client::command::UsageError;
use bore_client::command::DEFAULT_LOCAL_HOST;
use bore_client::command::DEFAULT_MAX_PORT;
use bore_client::command::DEFAULT_MAX_RETRIES;
use bore_client::command::DEFAULT_MAX_RETRY_DELAY_MS;
use bore_client::command::DEFAULT_MIN_PORT;
use bore_client::command::DEFAULT_PORT;
use bore_client::command::DEFAULT_RETRY_DELAY_MS;
use bore_client::error::ClientError;
use bore_client::message::ClientMessage;
use bore_client::message::ServerMessage;
use bore_client::opening::Opening;
use bore_client::opening::OpeningAction;
use bore_client::opening::OpeningStep;
use bore_client::reconnect::run_client_with_reconnect;
use bore_client::reconnect::ReconnectStep;
use bore_client::reconnect::Reconnecting;
use bore_client::retry::RetryStep;

fn open(mut opening: Opening, port: u16) -> Client {
    loop {
        match opening.advance::<u8>(Ok(Some(ServerMessage::Hello(port)))) {
            OpeningStep::Continue(next) => opening = next,
            OpeningStep::Opened(client) => return client,
            OpeningStep::Failed(error) => panic!("unexpected {:?}", error),
        }
    }
}

fn wanted_port(opening: Opening) -> u16 {
    match opening.advance::<u8>(Ok(None)) {
        OpeningStep::Continue(next) => match next.action() {
            OpeningAction::Send(ClientMessage::Hello(port)) => port,
            other => panic!("unexpected {:?}", other),
        },
        other => panic!("unexpected {:?}", other),
    }
}

fn reconnecting(max_retries: u32) -> Reconnecting {
    run_client_with_reconnect("localhost", 5000, "bore.example", 0, None, max_retries, 100, 300)
}

fn connect(reconnecting: &mut Reconnecting, port: u16) {
    let opening = reconnecting.begin().begin::<u8>().unwrap();
    match reconnecting.opened::<u8>(Ok(open(opening, port))) {
        ReconnectStep::Listen(client) => assert_eq!(client.remote_port(), port),
        other => panic!("unexpected {:?}", other),
    }
}

fn delay(step: ReconnectStep<u8>) -> u64 {
    match step {
        ReconnectStep::Wait(delay) => delay,
        other => panic!("unexpected {:?}", other),
    }
}

fn exit(step: ReconnectStep<u8>) -> ClientError<u8> {
    match step {
        ReconnectStep::Exit(error) => error,
        other => panic!("unexpected {:?}", other),
    }
}

#[test]
fn granted_port_is_asked_for_again() {
    let mut reconnecting = reconnecting(0);
    let first = reconnecting.begin().begin::<u8>().unwrap();
    assert_eq!(wanted_port(first), 0);
    let opening = reconnecting.begin().begin::<u8>().unwrap();
    reconnecting.opened::<u8>(Ok(open(opening, 4321)));
    delay(reconnecting.ended(Ok(())));
    let again = reconnecting.begin().begin::<u8>().unwrap();
    assert_eq!(wanted_port(again), 4321);
    delay(reconnecting.opened(Err(ClientError::Action(1))));
    let later = reconnecting.begin().begin::<u8>().unwrap();
    assert_eq!(wanted_port(later), 4321);
    assert_eq!(reconnecting.attempt(), 4);
}

#[test]
fn connection_resets_the_delay() {
    let mut reconnecting = reconnecting(0);
    for expected in [100, 200, 300, 300] {
        reconnecting.begin();
        assert_eq!(delay(reconnecting.opened(Err(ClientError::UnexpectedEof))), expected);
    }
    connect(&mut reconnecting, 4000);
    assert_eq!(delay(reconnecting.ended(Err(ClientError::Action(7)))), 100);
    reconnecting.begin();
    assert_eq!(delay(reconnecting.opened(Err(ClientError::UnexpectedEof))), 200);
    connect(&mut reconnecting, 4000);
    assert_eq!(delay(reconnecting.ended(Ok(()))), 100);
}

#[test]
fn no_wait_is_above_the_maximum() {
    let mut reconnecting =
        run_client_with_reconnect("localhost", 5000, "bore.example", 0, None, 0, 5000, 1000);
    reconnecting.begin();
    assert_eq!(delay(reconnecting.opened(Err(ClientError::UnexpectedEof))), 1000);
    connect(&mut reconnecting, 4000);
    assert_eq!(delay(reconnecting.ended(Ok(()))), 1000);
    let mut attempts = reconnecting.begin();
    assert!(attempts.begin::<u8>().is_ok());
    match attempts.finish(Err(ClientError::Action(1u8))) {
        RetryStep::Wait(delay) => assert_eq!(delay, 1000),
        other => panic!("unexpected {:?}", other),
    }
}

#[test]
fn last_failed_connection_exits_with_its_error() {
    let mut reconnecting = reconnecting(2);
    reconnecting.begin();
    delay(reconnecting.opened(Err(ClientError::Action(1))));
    reconnecting.begin();
    assert_eq!(
        exit(reconnecting.opened(Err(ClientError::Action(2)))),
        ClientError::Action(2)
    );
}

#[test]
fn last_lost_connection_exits_with_the_limit() {
    let mut reconnecting = reconnecting(2);
    connect(&mut reconnecting, 4000);
    delay(reconnecting.ended(Ok(())));
    connect(&mut reconnecting, 4000);
    assert_eq!(exit(reconnecting.ended(Ok(()))), ClientError::ReconnectsSpent);
    assert_eq!(
        exit(reconnecting.ended(Err(ClientError::Action(9)))),
        ClientError::ReconnectsSpent
    );
}

#[test]
fn without_limit_never_exits() {
    let mut reconnecting = reconnecting(0);
    for _ in 0..200 {
        reconnecting.begin();
        delay(reconnecting.opened(Err(ClientError::Action(1))));
        connect(&mut reconnecting, 4000);
        delay(reconnecting.ended(Ok(())));
    }
}

#[test]
fn each_connection_has_fresh_attempts() {
    let mut reconnecting = reconnecting(2);
    for _ in 0..2 {
        let mut attempts = reconnecting.begin();
        assert_eq!(attempts.attempt(), 0);
        assert!(attempts.begin::<u8>().is_ok());
        assert!(attempts.begin::<u8>().is_ok());
        assert!(attempts.begin::<u8>().is_err());
    }
}

#[test]
fn local_command_connects() {
    let command = Command::Local {
        local_port: 5000,
        local_host: "localhost".to_string(),
        to: "bore.example".to_string(),
        port: 77,
        secret: None,
        max_retries: 1,
        retry_delay_ms: 5,
        max_retry_delay_ms: 9,
    };
    match run(command) {
        Task::Connect(mut reconnecting) => {
            let opening = reconnecting.begin().begin::<u8>().unwrap();
            assert_eq!(opening.action(), OpeningAction::Connect("bore.example"));
            assert_eq!(wanted_port(opening), 77);
            assert_eq!(
                exit(reconnecting.opened(Err(ClientError::UnexpectedEof))),
                ClientError::UnexpectedEof
            );
        }
        other => panic!("unexpected {:?}", other),
    }
}

fn serve(min_port: u16, max_port: u16) -> Task {
    run(Command::Server { min_port, max_port, secret: Some("hush".to_string()) })
}

#[test]
fn server_command_serves() {
    match serve(DEFAULT_MIN_PORT, DEFAULT_MAX_PORT) {
        Task::Serve { min_port, max_port, secret } => {
            assert_eq!((min_port, max_port), (1024, 65535));
            assert_eq!(secret.as_deref(), Some("hush"));
        }
        other => panic!("unexpected {:?}", other),
    }
    match serve(80, 80) {
        Task::Serve { min_port, max_port, .. } => assert_eq!((min_port, max_port), (80, 80)),
        other => panic!("unexpected {:?}", other),
    }
}

#[test]
fn empty_port_range_is_refused() {
    match serve(81, 80) {
        Task::Refuse(error) => {
            assert_eq!(error, UsageError::EmptyPortRange);
            assert_eq!(error.message(), "port range is empty");
        }
        other => panic!("unexpected {:?}", other),
    }
}

#[test]
fn defaults() {
    assert_eq!(DEFAULT_LOCAL_HOST, "localhost");
    assert_eq!(DEFAULT_PORT, 0);
    assert_eq!(DEFAULT_MAX_RETRIES, 0);
    assert_eq!(DEFAULT_RETRY_DELAY_MS, 1000);
    assert_eq!(DEFAULT_MAX_RETRY_DELAY_MS, 30000);
}
