//! Listening to the server.

use crate::client::Client;
use crate::client::ClientView;
use crate::error::ClientError;
use crate::forward::Forwarding;
use crate::forward::ForwardingView;
use crate::message::ServerMessage;
use crate::span::Span;
use crate::span::total_nanos;
use uuid::Uuid;
use vstd::prelude::*;

verus! {

/// The connection counts as lost after this many seconds without a heartbeat.
pub const HEARTBEAT_TIMEOUT_SECS: u64 = 10;

/// The number of seconds to wait for one message.
pub const RECEIVE_TIMEOUT_SECS: u64 = 5;

/// What came of waiting for a message.
#[derive(Debug, PartialEq, Eq)]
pub enum Received<E> {
    /// No message in time.
    TimedOut,
    /// The connection failed.
    Failed(E),
    /// The server closed the connection.
    Closed,
    /// A message.
    Message(ServerMessage),
}

/// What follows from what was received.
#[derive(Debug)]
pub enum ListenStep<E> {
    /// Go on listening.
    Continue,
    /// Forward this connection, and go on listening.
    Forward(Forwarding),
    /// The server closed the connection, and all is well.
    Closed,
    /// The connection is lost.
    Failed(ClientError<E>),
}

/// What a `ListenStep` stands for.
pub enum ListenStepView<E> {
    Continue,
    Forward(ForwardingView),
    Closed,
    Failed(ClientError<E>),
}

impl<E> View for ListenStep<E> {
    type V = ListenStepView<E>;

    open spec fn view(&self) -> ListenStepView<E> {
        match *self {
            ListenStep::Continue => ListenStepView::Continue,
            ListenStep::Forward(forwarding) => ListenStepView::Forward(forwarding@),
            ListenStep::Closed => ListenStepView::Closed,
            ListenStep::Failed(error) => ListenStepView::Failed(error),
        }
    }
}

/// One round of listening: a look at the clock, and then what was received and
/// when.
pub struct Round<E> {
    pub checked: nat,
    pub received: Received<E>,
    pub at: nat,
}

/// Where a series of rounds has led.
pub enum ListenEnd<E> {
    /// The next round is due.
    Listening(ListeningView),
    /// The server was silent for this many nanoseconds.
    Lost(nat),
    /// The server closed the connection, and all is well.
    Closed,
    /// The connection is lost.
    Failed(ClientError<E>),
}

/// What a `Listening` stands for: the client, and the moment of the last
/// heartbeat in nanoseconds from an origin that the caller chose.
pub struct ListeningView {
    pub client: ClientView,
    pub last_heartbeat: nat,
}

impl<E> Received<E> {
    /// A heartbeat came.
    pub open spec fn is_heartbeat(self) -> bool {
        self matches Received::Message(m) && m is Heartbeat
    }

    /// Nothing in it ends the listening.
    pub open spec fn goes_on(self) -> bool {
        match self {
            Received::TimedOut => true,
            Received::Failed(_) => false,
            Received::Closed => false,
            Received::Message(m) => !(m is Error),
        }
    }

    /// What follows from it for `client`.
    pub open spec fn answer(self, client: ClientView) -> ListenStepView<E> {
        match self {
            Received::TimedOut => ListenStepView::Continue,
            Received::Failed(error) => ListenStepView::Failed(ClientError::Action(error)),
            Received::Closed => ListenStepView::Closed,
            Received::Message(ServerMessage::Connection(id)) => ListenStepView::Forward(
                ForwardingView::start(client, id),
            ),
            Received::Message(ServerMessage::Error(reason)) => ListenStepView::Failed(
                ClientError::Reported(reason),
            ),
            Received::Message(_) => ListenStepView::Continue,
        }
    }
}

impl ListeningView {
    /// Listening starts as if a heartbeat had just come.
    pub open spec fn start(client: ClientView, now: nat) -> ListeningView {
        ListeningView { client, last_heartbeat: now }
    }

    /// How long the server has been silent.
    pub open spec fn silence(self, now: nat) -> nat {
        if now > self.last_heartbeat {
            (now - self.last_heartbeat) as nat
        } else {
            0
        }
    }

    /// The server has been silent for too long.
    pub open spec fn overdue(self, now: nat) -> bool {
        self.silence(now) > total_nanos(HEARTBEAT_TIMEOUT_SECS as nat, 0)
    }

    /// The state after `received` came at the moment `at`.
    pub open spec fn after<E>(self, received: Received<E>, at: nat) -> ListeningView {
        if received.is_heartbeat() {
            ListeningView { last_heartbeat: at, ..self }
        } else {
            self
        }
    }

    /// What follows from one round after the other.
    pub open spec fn run<E>(self, rounds: Seq<Round<E>>) -> ListenEnd<E>
        decreases rounds.len(),
    {
        if rounds.len() == 0 {
            ListenEnd::Listening(self)
        } else if self.overdue(rounds[0].checked) {
            ListenEnd::Lost(self.silence(rounds[0].checked))
        } else {
            match rounds[0].received.answer(self.client) {
                ListenStepView::Closed => ListenEnd::Closed,
                ListenStepView::Failed(error) => ListenEnd::Failed(error),
                _ => self.after(rounds[0].received, rounds[0].at).run(rounds.drop_first()),
            }
        }
    }

    /// The connections to forward in these rounds, in order.
    pub open spec fn forwarded<E>(self, rounds: Seq<Round<E>>) -> Seq<ForwardingView>
        decreases rounds.len(),
    {
        if rounds.len() == 0 || self.overdue(rounds[0].checked) {
            seq![]
        } else {
            let next = self.after(rounds[0].received, rounds[0].at);
            match rounds[0].received.answer(self.client) {
                ListenStepView::Closed => seq![],
                ListenStepView::Failed(_) => seq![],
                ListenStepView::Forward(forwarding) => seq![forwarding] + next.forwarded(
                    rounds.drop_first(),
                ),
                ListenStepView::Continue => next.forwarded(rounds.drop_first()),
            }
        }
    }

    /// The client is still listening when round `k` comes, and in that round the
    /// server, heard in time, closes the connection.
    pub open spec fn closed_in<E>(self, rounds: Seq<Round<E>>, k: int) -> bool {
        &&& 0 <= k < rounds.len()
        &&& self.run(rounds.take(k)) matches ListenEnd::Listening(now)
            && !now.overdue(rounds[k].checked)
        &&& rounds[k].received is Closed
    }
}

/// The identifiers of the connections that the server announces in `rounds`, in
/// order.
pub open spec fn announced<E>(rounds: Seq<Round<E>>) -> Seq<Uuid>
    decreases rounds.len(),
{
    if rounds.len() == 0 {
        seq![]
    } else {
        let rest = announced(rounds.drop_first());
        match rounds[0].received {
            Received::Message(ServerMessage::Connection(id)) => seq![id] + rest,
            _ => rest,
        }
    }
}

/// The connections with these identifiers, each with nothing done yet.
pub open spec fn forwardings(client: ClientView, ids: Seq<Uuid>) -> Seq<ForwardingView> {
    Seq::new(ids.len(), |i: int| ForwardingView::start(client, ids[i]))
}

/// A client that listens to the server.
#[derive(Debug)]
pub struct Listening {
    client: Client,
    last_heartbeat: Span,
}

impl View for Listening {
    type V = ListeningView;

    closed spec fn view(&self) -> ListeningView {
        ListeningView { client: self.client@, last_heartbeat: self.last_heartbeat@ }
    }
}

impl Listening {
    /// A client that starts to listen at the moment `now`.
    pub(crate) fn start(client: Client, now: Span) -> (listening: Listening)
        ensures
            listening@ == ListeningView::start(client@, now@),
    {
        Listening { client, last_heartbeat: now }
    }

    /// Looks at the clock before a round: the number of seconds to wait for a
    /// message, or the end where the server has been silent for too long.
    pub fn check<E>(&self, now: Span) -> (timeout: Result<u64, ClientError<E>>)
        ensures
            timeout is Err <==> self@.overdue(now@),
            timeout matches Ok(secs) ==> secs == RECEIVE_TIMEOUT_SECS,
            timeout matches Err(error) ==> error matches ClientError::HeartbeatLost(elapsed)
                && elapsed@ == self@.silence(now@),
    {
        let elapsed = now.since(&self.last_heartbeat);
        if elapsed.exceeds(&Span::from_secs(HEARTBEAT_TIMEOUT_SECS)) {
            Err(ClientError::HeartbeatLost(elapsed))
        } else {
            Ok(RECEIVE_TIMEOUT_SECS)
        }
    }

    /// Takes what was received, at the moment `at`.
    pub fn receive<E>(&mut self, received: Received<E>, at: Span) -> (step: ListenStep<E>)
        ensures
            step@ == received.answer(old(self)@.client),
            final(self)@ == old(self)@.after(received, at@),
    {
        match received {
            Received::TimedOut => ListenStep::Continue,
            Received::Failed(error) => ListenStep::Failed(ClientError::Action(error)),
            Received::Closed => ListenStep::Closed,
            Received::Message(message) => match message {
                ServerMessage::Hello(_) => ListenStep::Continue,
                ServerMessage::Challenge => ListenStep::Continue,
                ServerMessage::Heartbeat => {
                    self.last_heartbeat = at;
                    ListenStep::Continue
                },
                ServerMessage::Connection(id) => ListenStep::Forward(
                    self.client.handle_connection(id),
                ),
                ServerMessage::Error(reason) => ListenStep::Failed(ClientError::Reported(reason)),
            },
        }
    }
}

/// The moment of the last heartbeat in `rounds`, or `start` where none came.
pub open spec fn last_heartbeat<E>(start: nat, rounds: Seq<Round<E>>) -> nat
    decreases rounds.len(),
{
    if rounds.len() == 0 {
        start
    } else if rounds.last().received.is_heartbeat() {
        rounds.last().at
    } else {
        last_heartbeat(start, rounds.drop_last())
    }
}

/// In each of the rounds the server was heard in time, and nothing that came
/// ends the listening.
pub open spec fn alive<E>(start: nat, rounds: Seq<Round<E>>) -> bool {
    forall|i: int|
        0 <= i < rounds.len() ==> {
            &&& (#[trigger] rounds[i]).received.goes_on()
            &&& rounds[i].checked <= last_heartbeat(start, rounds.take(i)) + total_nanos(
                HEARTBEAT_TIMEOUT_SECS as nat,
                0,
            )
        }
}

/// While the server is heard in time, and neither closes the connection nor
/// reports an error, the client listens, and its clock runs from the last
/// heartbeat: no other message counts as a sign of life.
pub proof fn law_listens<E>(client: ClientView, start: nat, rounds: Seq<Round<E>>)
    requires
        alive(start, rounds),
    ensures
        ListeningView::start(client, start).run(rounds) == ListenEnd::Listening::<E>(
            ListeningView { client, last_heartbeat: last_heartbeat(start, rounds) },
        ),
    decreases rounds.len(),
{
    if rounds.len() > 0 {
        let before = rounds.drop_last();
        assert(rounds == before.push(rounds.last()));
        assert(rounds.take(rounds.len() - 1) == before);
        assert(alive(start, before)) by {
            assert forall|i: int| 0 <= i < before.len() implies {
                &&& (#[trigger] before[i]).received.goes_on()
                &&& before[i].checked <= last_heartbeat(start, before.take(i)) + total_nanos(
                    HEARTBEAT_TIMEOUT_SECS as nat,
                    0,
                )
            } by {
                assert(before[i] == rounds[i]);
                assert(before.take(i) == rounds.take(i));
            }
        }
        law_listens(client, start, before);
        lemma_run_push(ListeningView::start(client, start), before, rounds.last());
        assert(rounds[rounds.len() - 1].received.goes_on());
        reveal_with_fuel(ListeningView::run, 2);
    }
}

/// The first look at the clock that finds no heartbeat for more than the allowed
/// time ends the listening, with the time that has passed since the last one.
pub proof fn law_lost<E>(
    client: ClientView,
    start: nat,
    rounds: Seq<Round<E>>,
    last: Round<E>,
)
    requires
        alive(start, rounds),
        last.checked > last_heartbeat(start, rounds) + total_nanos(
            HEARTBEAT_TIMEOUT_SECS as nat,
            0,
        ),
    ensures
        ListeningView::start(client, start).run(rounds.push(last)) == ListenEnd::Lost::<E>(
            (last.checked - last_heartbeat(start, rounds)) as nat,
        ),
{
    law_listens(client, start, rounds);
    lemma_run_push(ListeningView::start(client, start), rounds, last);
}

/// A server that sends no heartbeat is not listened to for longer than the
/// allowed time: whatever else it sends, a look at the clock after that finds
/// the listening ended.
pub proof fn law_silence_ends<E>(start: ListeningView, rounds: Seq<Round<E>>)
    requires
        forall|i: int| 0 <= i < rounds.len() ==> !(#[trigger] rounds[i]).received.is_heartbeat(),
        exists|i: int| 0 <= i < rounds.len() && start.overdue((#[trigger] rounds[i]).checked),
    ensures
        !(start.run(rounds) is Listening),
    decreases rounds.len(),
{
    let late = choose|i: int|
        0 <= i < rounds.len() && start.overdue((#[trigger] rounds[i]).checked);
    assert(!rounds[0].received.is_heartbeat());
    if late > 0 {
        let rest = rounds.drop_first();
        assert(rest[late - 1] == rounds[late]);
        assert forall|i: int| 0 <= i < rest.len() implies !(
        #[trigger] rest[i]).received.is_heartbeat() by {
            assert(!rounds[i + 1].received.is_heartbeat());
        }
        law_silence_ends(start, rest);
    }
}

/// Listening ends well exactly where the server closes the connection in time,
/// with the client still listening.
pub proof fn law_closed_by_server<E>(start: ListeningView, rounds: Seq<Round<E>>)
    ensures
        start.run(rounds) is Closed <==> exists|k: int| start.closed_in(rounds, k),
{
    if start.run(rounds) is Closed {
        let k = lemma_closing_round(start, rounds);
        assert(start.closed_in(rounds, k));
    }
    assert forall|k: int| start.closed_in(rounds, k) implies start.run(rounds) is Closed by {
        lemma_run_split(start, rounds, k);
        assert(rounds.skip(k)[0] == rounds[k]);
    }
}

/// The connections that are forwarded are those that the server announced while
/// the client was listening, in order: all of them where it still listens, and
/// else those of the rounds before the one that ended it.
pub proof fn law_forwards<E>(start: ListeningView, rounds: Seq<Round<E>>, heard: int)
    requires
        0 <= heard <= rounds.len(),
        start.run(rounds.take(heard)) is Listening,
        heard < rounds.len() ==> !(start.run(rounds.take(heard + 1)) is Listening),
    ensures
        start.forwarded(rounds) == forwardings(start.client, announced(rounds.take(heard))),
    decreases rounds.len(),
{
    let before = rounds.take(heard);
    if heard == 0 {
        if rounds.len() > 0 {
            let first = rounds.take(1);
            assert(first[0] == rounds[0]);
            reveal_with_fuel(ListeningView::run, 2);
        }
    } else {
        let rest = rounds.drop_first();
        let next = start.after(rounds[0].received, rounds[0].at);
        assert(before[0] == rounds[0]);
        assert(before.drop_first() == rest.take(heard - 1));
        if heard < rounds.len() {
            let through = rounds.take(heard + 1);
            assert(through[0] == rounds[0]);
            assert(through.drop_first() == rest.take(heard));
        }
        law_forwards(next, rest, heard - 1);
    }
}

/// The round in which the server closes the connection.
proof fn lemma_closing_round<E>(start: ListeningView, rounds: Seq<Round<E>>) -> (k: int)
    requires
        start.run(rounds) is Closed,
    ensures
        start.closed_in(rounds, k),
    decreases rounds.len(),
{
    if rounds[0].received is Closed {
        assert(rounds.take(0).len() == 0);
        0
    } else {
        let rest = rounds.drop_first();
        let k = lemma_closing_round(start.after(rounds[0].received, rounds[0].at), rest);
        let before = rounds.take(k + 1);
        assert(before[0] == rounds[0]);
        assert(before.drop_first() == rest.take(k));
        k + 1
    }
}

/// What follows from rounds that are listened to, and then from the others.
proof fn lemma_run_split<E>(start: ListeningView, rounds: Seq<Round<E>>, k: int)
    requires
        0 <= k <= rounds.len(),
        start.run(rounds.take(k)) is Listening,
    ensures
        start.run(rounds) == start.run(rounds.take(k))->Listening_0.run(rounds.skip(k)),
    decreases k,
{
    if k == 0 {
        assert(rounds.skip(0) == rounds);
    } else {
        let rest = rounds.drop_first();
        let before = rounds.take(k);
        assert(before[0] == rounds[0]);
        assert(before.drop_first() == rest.take(k - 1));
        assert(rest.skip(k - 1) == rounds.skip(k));
        lemma_run_split(start.after(rounds[0].received, rounds[0].at), rest, k - 1);
    }
}

/// One round more is one step more.
proof fn lemma_run_push<E>(start: ListeningView, rounds: Seq<Round<E>>, last: Round<E>)
    requires
        start.run(rounds) is Listening,
    ensures
        start.run(rounds.push(last)) == start.run(rounds)->Listening_0.run(seq![last]),
{
    let all = rounds.push(last);
    let k = rounds.len() as int;
    assert(all.take(k) == rounds);
    assert(all.skip(k) == seq![last]);
    lemma_run_split(start, all, k);
}

/// Listening starts for the client that was given, with the clock at the moment
/// that was given.
pub proof fn law_starts_as_asked(client: ClientView, now: nat)
    ensures
        ListeningView::start(client, now).client == client,
        ListeningView::start(client, now).last_heartbeat == now,
{
}

/// Whatever the client, each thing that can be received has its own answer: a
/// failure ends the listening with its error, an error of the server with its
/// reason, the end of the stream well, an announced connection is forwarded from
/// the start under its own identifier, and all the rest is passed over.
pub proof fn law_answers<E>(client: ClientView, error: E, reason: String, id: Uuid, port: u16)
    ensures
        Received::Failed(error).answer(client) == ListenStepView::Failed(
            ClientError::Action(error),
        ),
        Received::<E>::Message(ServerMessage::Error(reason)).answer(client)
            == ListenStepView::<E>::Failed(ClientError::Reported(reason)),
        Received::<E>::Closed.answer(client) == ListenStepView::<E>::Closed,
        Received::<E>::Message(ServerMessage::Connection(id)).answer(
            client,
        ) matches ListenStepView::Forward(forwarding) && forwarding.client == client
            && forwarding.id == id && forwarding.stage is Connecting,
        Received::<E>::TimedOut.answer(client) == ListenStepView::<E>::Continue,
        Received::<E>::Message(ServerMessage::Hello(port)).answer(client)
            == ListenStepView::<E>::Continue,
        Received::<E>::Message(ServerMessage::Challenge).answer(client)
            == ListenStepView::<E>::Continue,
        Received::<E>::Message(ServerMessage::Heartbeat).answer(client)
            == ListenStepView::<E>::Continue,
{
}

/// A heartbeat sets the clock to the moment at which it came; nothing else that
/// can be received does, and nothing changes the client.
pub proof fn law_clock<E>(now: ListeningView, received: Received<E>, at: nat)
    ensures
        now.after(received, at).client == now.client,
        received == Received::<E>::Message(ServerMessage::Heartbeat) ==> now.after(
            received,
            at,
        ).last_heartbeat == at,
        received != Received::<E>::Message(ServerMessage::Heartbeat) ==> now.after(
            received,
            at,
        ).last_heartbeat == now.last_heartbeat,
{
}

/// The server is overdue where more than ten thousand million nanoseconds, ten
/// seconds, have passed since the last heartbeat, and has then been silent for
/// that time. A message is waited for for five seconds.
pub proof fn law_ten_seconds(listening: ListeningView, now: nat)
    ensures
        listening.overdue(now) <==> now > listening.last_heartbeat + 10_000_000_000,
        now >= listening.last_heartbeat ==> listening.silence(now) == now
            - listening.last_heartbeat,
        RECEIVE_TIMEOUT_SECS == 5,
{
}

/// A failure of the connection and an error of the server end the listening in
/// the round in which they come, with exactly that error, where the client was
/// still listening and the server was heard in time.
pub proof fn law_failure_ends<E>(start: ListeningView, rounds: Seq<Round<E>>, last: Round<E>)
    requires
        start.run(rounds) is Listening,
        last.checked <= start.run(rounds)->Listening_0.last_heartbeat + 10_000_000_000,
    ensures
        last.received matches Received::Failed(error) ==> start.run(rounds.push(last))
            == ListenEnd::Failed(ClientError::Action(error)),
        last.received matches Received::Message(ServerMessage::Error(reason)) ==> start.run(
            rounds.push(last),
        ) == ListenEnd::<E>::Failed(ClientError::Reported(reason)),
{
    lemma_run_push(start, rounds, last);
}

/// A step is seen as what it is.
pub proof fn law_seen_whole<E>(forwarding: Forwarding, error: ClientError<E>)
    ensures
        ListenStep::<E>::Continue@ == ListenStepView::<E>::Continue,
        ListenStep::<E>::Forward(forwarding)@ == ListenStepView::<E>::Forward(forwarding@),
        ListenStep::<E>::Closed@ == ListenStepView::<E>::Closed,
        ListenStep::Failed(error)@ == ListenStepView::Failed(error),
{
}

} // verus!
