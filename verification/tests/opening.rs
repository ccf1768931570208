use bore_client::client::Client;
use bore_client::error::ClientError;
use bore_client::message::ClientMessage;
use bore_client::message::ServerMessage;
use bore_client::opening::read_reply;
use bore_client::opening::Opening;
use bore_client::opening::OpeningAction;
use bore_client::opening::OpeningStep;
use uuid::Uuid;

type Outcome = Result<Option<ServerMessage>, &'static str>;

fn next(opening: Opening) -> Opening {
    match opening.advance::<&'static str>(Ok(None)) {
        OpeningStep::Continue(next) => next,
        other => panic!("unexpected {:?}", other),
    }
}

fn awaiting() -> Opening {
    next(next(Client::new("localhost", 5000, "bore.example", 4000, None)))
}

fn refusal(outcome: Outcome) -> ClientError<&'static str> {
    match awaiting().advance(outcome) {
        OpeningStep::Failed(error) => error,
        other => panic!("unexpected {:?}", other),
    }
}

#[test]
fn plan_without_secret() {
    let opening = Client::new("localhost", 5000, "bore.example", 4000, None);
    assert_eq!(opening.action(), OpeningAction::Connect("bore.example"));
    let opening = next(opening);
    assert_eq!(opening.action(), OpeningAction::Send(ClientMessage::Hello(4000)));
    let opening = next(opening);
    assert_eq!(opening.action(), OpeningAction::Receive);
}

#[test]
fn plan_with_secret() {
    let opening = Client::new("localhost", 5000, "bore.example", 0, Some("hush"));
    assert_eq!(opening.action(), OpeningAction::Connect("bore.example"));
    let opening = next(opening);
    assert_eq!(opening.action(), OpeningAction::Authenticate("hush"));
    let opening = next(opening);
    assert_eq!(opening.action(), OpeningAction::Send(ClientMessage::Hello(0)));
    let opening = next(opening);
    assert_eq!(opening.action(), OpeningAction::Receive);
}

#[test]
fn hello_opens_client() {
    let outcome: Outcome = Ok(Some(ServerMessage::Hello(9123)));
    match awaiting().advance(outcome) {
        OpeningStep::Opened(client) => assert_eq!(client.remote_port(), 9123),
        other => panic!("unexpected {:?}", other),
    }
}

#[test]
fn other_replies_fail() {
    assert_eq!(
        refusal(Ok(Some(ServerMessage::Error("no".to_string())))),
        ClientError::Refused("no".to_string())
    );
    assert_eq!(
        refusal(Ok(Some(ServerMessage::Challenge))),
        ClientError::AuthenticationRequired
    );
    assert_eq!(
        refusal(Ok(Some(ServerMessage::Heartbeat))),
        ClientError::UnexpectedMessage
    );
    assert_eq!(
        refusal(Ok(Some(ServerMessage::Connection(Uuid::from_u128(7))))),
        ClientError::UnexpectedMessage
    );
    assert_eq!(refusal(Ok(None)), ClientError::UnexpectedEof);
    assert_eq!(refusal(Err("reset")), ClientError::Action("reset"));
}

#[test]
fn any_failed_action_ends_opening() {
    for good in 0..4 {
        let mut opening = Client::new("localhost", 5000, "bore.example", 4000, Some("hush"));
        for _ in 0..good {
            opening = next(opening);
        }
        match opening.advance::<&'static str>(Err("broken")) {
            OpeningStep::Failed(error) => assert_eq!(error, ClientError::Action("broken")),
            other => panic!("unexpected {:?}", other),
        }
    }
}

#[test]
fn reply_is_read() {
    assert_eq!(read_reply::<u8>(Some(ServerMessage::Hello(1))), Ok(1));
    assert_eq!(read_reply::<u8>(None), Err(ClientError::UnexpectedEof));
}
