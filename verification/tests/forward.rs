use bore_client::client::Client;
use bore_client::forward::ForwardAction;
use bore_client::forward::ForwardStep;
use bore_client::forward::Forwarding;
use bore_client::message::ClientMessage;
use bore_client::message::ServerMessage;
use bore_client::opening::OpeningStep;
use uuid::Uuid;

fn client(secret: Option<&str>) -> Client {
    let mut opening = Client::new("localhost", 5000, "bore.example", 0, secret);
    loop {
        match opening.advance::<u8>(Ok(Some(ServerMessage::Hello(4000)))) {
            OpeningStep::Continue(next) => opening = next,
            OpeningStep::Opened(client) => return client,
            OpeningStep::Failed(error) => panic!("unexpected {:?}", error),
        }
    }
}

fn next(forwarding: Forwarding, bytes: Vec<u8>) -> Forwarding {
    match forwarding.advance::<u8>(Ok(bytes)) {
        ForwardStep::Continue(next) => next,
        other => panic!("unexpected {:?}", other),
    }
}

#[test]
fn plan_with_secret_and_early_bytes() {
    let client = client(Some("hush"));
    let id = Uuid::from_u128(99);
    let forwarding = client.handle_connection(id);
    assert_eq!(forwarding.id(), id);
    assert_eq!(forwarding.action(), ForwardAction::Connect("bore.example"));
    let forwarding = next(forwarding, vec![]);
    assert_eq!(forwarding.action(), ForwardAction::Authenticate("hush"));
    let forwarding = next(forwarding, vec![]);
    assert_eq!(forwarding.action(), ForwardAction::Send(ClientMessage::Accept(id)));
    let forwarding = next(forwarding, vec![]);
    assert_eq!(forwarding.action(), ForwardAction::ConnectLocal("localhost", 5000));
    let forwarding = next(forwarding, vec![]);
    assert_eq!(forwarding.action(), ForwardAction::TakeBuffered);
    let forwarding = next(forwarding, vec![1, 2, 3]);
    assert_eq!(forwarding.action(), ForwardAction::WriteLocal(&[1, 2, 3]));
    let forwarding = next(forwarding, vec![]);
    assert_eq!(forwarding.action(), ForwardAction::Proxy);
    match forwarding.advance::<u8>(Ok(vec![])) {
        ForwardStep::Done => {}
        other => panic!("unexpected {:?}", other),
    }
}

#[test]
fn plan_without_secret_or_early_bytes() {
    let client = client(None);
    let id = Uuid::from_u128(1);
    let forwarding = client.handle_connection(id);
    assert_eq!(forwarding.action(), ForwardAction::Connect("bore.example"));
    let forwarding = next(forwarding, vec![]);
    assert_eq!(forwarding.action(), ForwardAction::Send(ClientMessage::Accept(id)));
    let forwarding = next(forwarding, vec![]);
    assert_eq!(forwarding.action(), ForwardAction::ConnectLocal("localhost", 5000));
    let forwarding = next(forwarding, vec![]);
    assert_eq!(forwarding.action(), ForwardAction::TakeBuffered);
    let forwarding = next(forwarding, vec![]);
    assert_eq!(forwarding.action(), ForwardAction::Proxy);
}

#[test]
fn any_failed_action_ends_forwarding() {
    for good in 0..7 {
        let client = client(Some("hush"));
        let mut forwarding = client.handle_connection(Uuid::from_u128(1));
        for _ in 0..good {
            forwarding = next(forwarding, vec![8]);
        }
        match forwarding.advance::<u8>(Err(good)) {
            ForwardStep::Failed(error) => assert_eq!(error, good),
            other => panic!("unexpected {:?}", other),
        }
    }
}

#[test]
fn broken_off_forwarding_has_followed_the_plan() {
    let client = client(None);
    let id = Uuid::from_u128(6);
    let forwarding = client.handle_connection(id);
    let forwarding = next(forwarding, vec![]);
    let forwarding = next(forwarding, vec![]);
    assert_eq!(forwarding.action(), ForwardAction::ConnectLocal("localhost", 5000));
    match forwarding.advance::<&str>(Err("refused")) {
        ForwardStep::Failed(error) => assert_eq!(error, "refused"),
        other => panic!("unexpected {:?}", other),
    }
}
