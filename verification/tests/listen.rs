use bore_client::client::Client;
use bore_client::error::ClientError;
use bore_client::forward::ForwardAction;
use bore_client::listen::ListenStep;
use bore_client::listen::Listening;
use bore_client::listen::Received;
use bore_client::message::ServerMessage;
use bore_client::opening::OpeningStep;
use bore_client::span::Span;
use uuid::Uuid;

fn client() -> Client {
    let mut opening = Client::new("localhost", 5000, "bore.example", 4000, None);
    loop {
        match opening.advance::<u8>(Ok(Some(ServerMessage::Hello(4000)))) {
            OpeningStep::Continue(next) => opening = next,
            OpeningStep::Opened(client) => return client,
            OpeningStep::Failed(error) => panic!("unexpected {:?}", error),
        }
    }
}

/// The parts of a step that can be compared.
#[derive(Debug, PartialEq, Eq)]
enum Seen {
    Continue,
    Forward(Uuid),
    Closed,
    Failed(ClientError<u8>),
}

fn seen(step: ListenStep<u8>) -> Seen {
    match step {
        ListenStep::Continue => Seen::Continue,
        ListenStep::Forward(forwarding) => {
            assert_eq!(forwarding.action(), ForwardAction::Connect("bore.example"));
            Seen::Forward(forwarding.id())
        }
        ListenStep::Closed => Seen::Closed,
        ListenStep::Failed(error) => Seen::Failed(error),
    }
}

fn listening(secs: u64) -> Listening {
    client().listen(Span::from_secs(secs))
}

fn hear(listening: &mut Listening, message: ServerMessage, secs: u64) -> Seen {
    seen(listening.receive(Received::Message(message), Span::from_secs(secs)))
}

#[test]
fn waits_five_seconds_for_a_message() {
    assert_eq!(listening(3).check::<u8>(Span::from_secs(3)), Ok(5));
}

#[test]
fn ten_seconds_of_silence_are_allowed() {
    let listening = listening(3);
    assert_eq!(listening.check::<u8>(Span::from_secs(13)), Ok(5));
    assert_eq!(
        listening.check::<u8>(Span::new(13, 1).unwrap()),
        Err(ClientError::HeartbeatLost(Span::new(10, 1).unwrap()))
    );
}

#[test]
fn clock_before_start_is_no_silence() {
    assert_eq!(listening(30).check::<u8>(Span::from_secs(3)), Ok(5));
}

#[test]
fn heartbeat_restarts_the_clock() {
    let mut listening = listening(0);
    assert_eq!(hear(&mut listening, ServerMessage::Heartbeat, 8), Seen::Continue);
    assert_eq!(listening.check::<u8>(Span::from_secs(18)), Ok(5));
    assert_eq!(
        listening.check::<u8>(Span::from_secs(19)),
        Err(ClientError::HeartbeatLost(Span::from_secs(11)))
    );
}

#[test]
fn only_heartbeats_count() {
    let mut listening = listening(0);
    let id = Uuid::from_u128(5);
    assert_eq!(hear(&mut listening, ServerMessage::Hello(1), 9), Seen::Continue);
    assert_eq!(hear(&mut listening, ServerMessage::Challenge, 9), Seen::Continue);
    assert_eq!(
        hear(&mut listening, ServerMessage::Connection(id), 9),
        Seen::Forward(id)
    );
    assert_eq!(
        seen(listening.receive::<u8>(Received::TimedOut, Span::from_secs(9))),
        Seen::Continue
    );
    assert_eq!(
        listening.check::<u8>(Span::from_secs(12)),
        Err(ClientError::HeartbeatLost(Span::from_secs(12)))
    );
}

#[test]
fn close_is_the_only_good_end() {
    let mut listening = listening(0);
    assert_eq!(
        seen(listening.receive::<u8>(Received::Closed, Span::from_secs(1))),
        Seen::Closed
    );
    assert_eq!(
        seen(listening.receive(Received::Failed(3u8), Span::from_secs(1))),
        Seen::Failed(ClientError::Action(3))
    );
    assert_eq!(
        hear(&mut listening, ServerMessage::Error("bye".to_string()), 1),
        Seen::Failed(ClientError::Reported("bye".to_string()))
    );
}

#[test]
fn announced_connections_are_forwarded_in_order() {
    let mut listening = listening(0);
    let mut forwarded = Vec::new();
    let messages = vec![
        ServerMessage::Connection(Uuid::from_u128(3)),
        ServerMessage::Heartbeat,
        ServerMessage::Connection(Uuid::from_u128(1)),
        ServerMessage::Hello(7),
        ServerMessage::Connection(Uuid::from_u128(2)),
    ];
    for message in messages {
        if let Seen::Forward(id) = hear(&mut listening, message, 4) {
            forwarded.push(id.as_u128());
        }
    }
    assert_eq!(forwarded, vec![3, 1, 2]);
}
