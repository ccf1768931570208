//! Keeping a client connected.

use crate::backoff::capped;
use crate::backoff::Backoff;
use crate::backoff::BackoffView;
use crate::client::Client;
use crate::error::ClientError;
use crate::forward::forward_plan;
use crate::forward::ForwardActionView;
use crate::message::ClientMessage;
use crate::message::ServerMessage;
use crate::opening::OpeningActionView;
use crate::opening::OpeningStepView;
use crate::opening::OpeningView;
use crate::retry::Retrying;
use crate::retry::RetryingView;
use crate::text::borrow;
use crate::text::own;
use crate::text::str_view;
use crate::text::text_view;
use uuid::Uuid;
use vstd::arithmetic::power2::pow2;
use vstd::prelude::*;

verus! {

/// What a `Reconnecting` stands for.
pub struct ReconnectingView {
    /// What the next connection starts from.
    pub target: OpeningView,
    /// The initial delay, as it was asked for.
    pub retry_delay_ms: nat,
    /// The count of the connections and the delay between them.
    pub backoff: BackoffView,
}

/// What follows from an event in the life of a connection.
#[derive(Debug)]
pub enum ReconnectStep<E> {
    /// Listen with this client until its connection ends.
    Listen(Client),
    /// Wait for this many milliseconds, then begin the next connection.
    Wait(u64),
    /// Give up.
    Exit(ClientError<E>),
}

/// What a `ReconnectStep` stands for.
pub enum ReconnectStepView<E> {
    Listen(Client),
    Wait(nat),
    Exit(ClientError<E>),
}

impl<E> View for ReconnectStep<E> {
    type V = ReconnectStepView<E>;

    open spec fn view(&self) -> ReconnectStepView<E> {
        match *self {
            ReconnectStep::Listen(client) => ReconnectStepView::Listen(client),
            ReconnectStep::Wait(delay_ms) => ReconnectStepView::Wait(delay_ms as nat),
            ReconnectStep::Exit(error) => ReconnectStepView::Exit(error),
        }
    }
}

/// One connection: the result of opening it and, where it was opened, how
/// listening ended.
pub struct Cycle<E> {
    pub opened: Result<Client, ClientError<E>>,
    pub ended: Result<(), ClientError<E>>,
}

/// Where a series of connections has led.
pub enum ReconnectEnd<E> {
    /// The next connection is due.
    Waiting(ReconnectingView),
    /// The client has given up.
    Exited(ClientError<E>),
}

impl ReconnectingView {
    /// No connection made yet.
    pub open spec fn start(
        target: OpeningView,
        max_retries: u32,
        retry_delay_ms: nat,
        max_delay_ms: nat,
    ) -> ReconnectingView {
        ReconnectingView {
            target,
            retry_delay_ms,
            backoff: BackoffView::fresh(max_retries, retry_delay_ms, max_delay_ms),
        }
    }

    /// One more connection is being made.
    pub open spec fn begun(self) -> ReconnectingView {
        ReconnectingView { backoff: self.backoff.begun(), ..self }
    }

    /// The attempts that make a connection.
    pub open spec fn attempts(self) -> RetryingView {
        RetryingView::start(
            self.target,
            self.backoff.max_retries,
            self.retry_delay_ms,
            self.backoff.max_delay_ms,
        )
    }

    /// The connection was made and the server granted `port`.
    pub open spec fn connected(self, port: u16) -> ReconnectingView {
        ReconnectingView {
            target: OpeningView { port, ..self.target },
            backoff: self.backoff.reset(self.retry_delay_ms),
            ..self
        }
    }

    /// The delay before the next connection has been handed out.
    pub open spec fn waited(self) -> ReconnectingView {
        ReconnectingView { backoff: self.backoff.waited(), ..self }
    }

    /// What follows once the connection is over, where `error` says why the
    /// client gives up if it was the last.
    pub open spec fn over<E>(self, error: ClientError<E>) -> (
        ReconnectStepView<E>,
        ReconnectingView,
    ) {
        if self.backoff.spent() {
            (ReconnectStepView::Exit(error), self)
        } else {
            (ReconnectStepView::Wait(self.backoff.delay_ms), self.waited())
        }
    }

    /// What follows from the result of opening the connection.
    pub open spec fn opened<E>(self, result: Result<Client, ClientError<E>>) -> (
        ReconnectStepView<E>,
        ReconnectingView,
    ) {
        match result {
            Ok(client) => (
                ReconnectStepView::Listen(client),
                self.connected(client@.remote_port),
            ),
            Err(error) => self.over(error),
        }
    }

    /// What follows from the end of listening, whichever it was.
    pub open spec fn ended<E>(self, ended: Result<(), ClientError<E>>) -> (
        ReconnectStepView<E>,
        ReconnectingView,
    ) {
        self.over(ClientError::ReconnectsSpent)
    }

    /// What follows from a whole connection.
    pub open spec fn cycle<E>(self, cycle: Cycle<E>) -> (ReconnectStepView<E>, ReconnectingView) {
        let (step, now) = self.begun().opened(cycle.opened);
        if step is Listen {
            now.ended(cycle.ended)
        } else {
            (step, now)
        }
    }

    /// What follows from one connection after the other.
    pub open spec fn run<E>(self, cycles: Seq<Cycle<E>>) -> ReconnectEnd<E>
        decreases cycles.len(),
    {
        if cycles.len() == 0 {
            ReconnectEnd::Waiting(self)
        } else {
            let (step, now) = self.cycle(cycles[0]);
            match step {
                ReconnectStepView::Exit(error) => ReconnectEnd::Exited(error),
                _ => now.run(cycles.drop_first()),
            }
        }
    }
}

/// A client that is kept connected.
#[derive(Debug)]
pub struct Reconnecting {
    local_host: String,
    local_port: u16,
    to: String,
    current_port: u16,
    secret: Option<String>,
    retry_delay_ms: u64,
    backoff: Backoff,
}

impl View for Reconnecting {
    type V = ReconnectingView;

    closed spec fn view(&self) -> ReconnectingView {
        ReconnectingView {
            target: OpeningView::start(
                self.local_host@,
                self.local_port,
                self.to@,
                self.current_port,
                text_view(self.secret),
            ),
            retry_delay_ms: self.retry_delay_ms as nat,
            backoff: self.backoff@,
        }
    }
}

/// Starts to keep a client connected to the server `to`. It first asks for
/// `port`, and after a lost connection for the port that it last had. Both the
/// connections in all and the attempts for each of them are no more than
/// `max_retries`, unless that is zero. The delays between them start at
/// `retry_delay_ms` and double each time, none longer than `max_retry_delay_ms`;
/// a connection that was made takes them back to the start.
pub fn run_client_with_reconnect(
    local_host: &str,
    local_port: u16,
    to: &str,
    port: u16,
    secret: Option<&str>,
    max_retries: u32,
    retry_delay_ms: u64,
    max_retry_delay_ms: u64,
) -> (reconnecting: Reconnecting)
    ensures
        reconnecting@ == ReconnectingView::start(
            OpeningView::start(local_host@, local_port, to@, port, str_view(secret)),
            max_retries,
            retry_delay_ms as nat,
            max_retry_delay_ms as nat,
        ),
{
    Reconnecting {
        local_host: local_host.to_owned(),
        local_port,
        to: to.to_owned(),
        current_port: port,
        secret: own(secret),
        retry_delay_ms,
        backoff: Backoff::new(max_retries, retry_delay_ms, max_retry_delay_ms),
    }
}

impl Reconnecting {
    /// The number of the connection that was begun last.
    pub fn attempt(&self) -> (attempt: u32)
        ensures
            attempt == self@.backoff.attempt,
    {
        self.backoff.attempt()
    }

    /// Begins the next connection.
    pub fn begin(&mut self) -> (retrying: Retrying)
        ensures
            final(self)@ == old(self)@.begun(),
            retrying@ == old(self)@.attempts(),
    {
        self.backoff.begin();
        Client::new_with_retry(
            self.local_host.as_str(),
            self.local_port,
            self.to.as_str(),
            self.current_port,
            borrow(&self.secret),
            self.backoff.max_retries(),
            self.retry_delay_ms,
            self.backoff.max_delay_ms(),
        )
    }

    /// Takes the result of opening the connection. A delay that follows from it is
    /// never above the maximum.
    pub fn opened<E>(&mut self, result: Result<Client, ClientError<E>>) -> (step: ReconnectStep<E>)
        ensures
            (step@, final(self)@) == old(self)@.opened(result),
            step matches ReconnectStep::Wait(delay_ms) ==> delay_ms <= old(
                self,
            )@.backoff.max_delay_ms,
    {
        match result {
            Ok(client) => {
                self.backoff.reset(self.retry_delay_ms);
                self.current_port = client.remote_port();
                ReconnectStep::Listen(client)
            },
            Err(error) => if self.backoff.is_spent() {
                ReconnectStep::Exit(error)
            } else {
                ReconnectStep::Wait(self.backoff.wait())
            },
        }
    }

    /// Takes the way in which listening ended. A connection that was lost and one
    /// that the server closed are followed by the same. A delay that follows is
    /// never above the maximum.
    pub fn ended<E>(&mut self, ended: Result<(), ClientError<E>>) -> (step: ReconnectStep<E>)
        ensures
            (step@, final(self)@) == old(self)@.ended(ended),
            step matches ReconnectStep::Wait(delay_ms) ==> delay_ms <= old(
                self,
            )@.backoff.max_delay_ms,
    {
        if self.backoff.is_spent() {
            ReconnectStep::Exit(ClientError::ReconnectsSpent)
        } else {
            ReconnectStep::Wait(self.backoff.wait())
        }
    }
}

/// The port that the server granted last in `cycles`, or `port` where it granted
/// none.
pub open spec fn last_port<E>(port: u16, cycles: Seq<Cycle<E>>) -> u16
    decreases cycles.len(),
{
    if cycles.len() == 0 {
        port
    } else {
        match cycles.last().opened {
            Ok(client) => client@.remote_port,
            Err(_) => last_port(port, cycles.drop_last()),
        }
    }
}

/// The number of delays that have been waited for since the last connection that
/// was made, the one after that connection among them.
pub open spec fn delays_since<E>(cycles: Seq<Cycle<E>>) -> nat
    decreases cycles.len(),
{
    if cycles.len() == 0 {
        0
    } else if cycles.last().opened is Ok {
        1
    } else {
        1 + delays_since(cycles.drop_last())
    }
}

/// While fewer connections than allowed have come and gone, the next one is due,
/// however they ended. It makes for the same server and the same local service,
/// and asks for the port that the server granted last. The delay after it is
/// that of a fresh series which has waited as often as this one since the last
/// connection that was made: making one takes the delay back to its start.
pub proof fn law_keeps_reconnecting<E>(start: ReconnectingView, cycles: Seq<Cycle<E>>)
    requires
        start.backoff == BackoffView::fresh(
            start.backoff.max_retries,
            start.retry_delay_ms,
            start.backoff.max_delay_ms,
        ),
        start.backoff.max_retries == 0 || cycles.len() < start.backoff.max_retries,
    ensures
        start.run(cycles) matches ReconnectEnd::Waiting(now) && {
            &&& now.target == (OpeningView {
                port: last_port(start.target.port, cycles),
                ..start.target
            })
            &&& now.retry_delay_ms == start.retry_delay_ms
            &&& now.backoff.max_retries == start.backoff.max_retries
            &&& now.backoff.max_delay_ms == start.backoff.max_delay_ms
            &&& now.backoff.delay_ms == start.backoff.after(delays_since(cycles)).delay_ms
            &&& start.backoff.max_retries != 0 ==> now.backoff.attempt == cycles.len()
        },
    decreases cycles.len(),
{
    reveal_with_fuel(ReconnectingView::run, 2);
    if cycles.len() > 0 {
        let before = cycles.drop_last();
        law_keeps_reconnecting(start, before);
        lemma_run_push(start, before, cycles.last());
        assert(cycles == before.push(cycles.last()));
        let since = delays_since(cycles);
        crate::backoff::lemma_after_keeps(start.backoff, (since - 1) as nat);
        assert(start.backoff.after(since) == start.backoff.after(
            (since - 1) as nat,
        ).begun().waited());
    }
}

/// The delay that follows a connection: the initial one after a connection that
/// was made, twice as long after each one in a row that was not, and never above
/// the maximum.
pub proof fn law_delay<E>(start: ReconnectingView, cycles: Seq<Cycle<E>>, last: Cycle<E>)
    requires
        start.backoff == BackoffView::fresh(
            start.backoff.max_retries,
            start.retry_delay_ms,
            start.backoff.max_delay_ms,
        ),
        start.backoff.max_retries == 0 || cycles.len() + 1 < start.backoff.max_retries,
    ensures
        start.run(cycles) matches ReconnectEnd::Waiting(now) && now.cycle(last).0
            == ReconnectStepView::Wait::<E>(
            if last.opened is Ok {
                capped(start.retry_delay_ms, start.backoff.max_delay_ms)
            } else {
                capped(
                    start.retry_delay_ms * pow2(delays_since(cycles)),
                    start.backoff.max_delay_ms,
                )
            },
        ),
{
    law_keeps_reconnecting(start, cycles);
    crate::backoff::law_exponential(
        start.backoff.max_retries,
        start.retry_delay_ms,
        start.backoff.max_delay_ms,
        delays_since(cycles),
    );
}

/// With a limit of `max_retries` connections, the last of them ends the client:
/// with its own error where it could not be made, and else, however listening
/// ended, with the error that the limit is reached.
pub proof fn law_exits_at_limit<E>(start: ReconnectingView, cycles: Seq<Cycle<E>>)
    requires
        start.backoff == BackoffView::fresh(
            start.backoff.max_retries,
            start.retry_delay_ms,
            start.backoff.max_delay_ms,
        ),
        0 < start.backoff.max_retries <= cycles.len(),
    ensures
        start.run(cycles) == ReconnectEnd::Exited(
            match cycles[start.backoff.max_retries - 1].opened {
                Ok(_) => ClientError::ReconnectsSpent::<E>,
                Err(error) => error,
            },
        ),
    decreases cycles.len(),
{
    let before = cycles.drop_last();
    assert(cycles == before.push(cycles.last()));
    if cycles.len() == start.backoff.max_retries {
        law_keeps_reconnecting(start, before);
        lemma_run_push(start, before, cycles.last());
    } else {
        law_exits_at_limit(start, before);
        lemma_exit_is_final(start, before, cycles.last());
    }
}

/// Without a limit the client never exits.
pub proof fn law_never_exits<E>(start: ReconnectingView, cycles: Seq<Cycle<E>>)
    requires
        start.backoff == BackoffView::fresh(
            0,
            start.retry_delay_ms,
            start.backoff.max_delay_ms,
        ),
    ensures
        start.run(cycles) is Waiting,
{
    law_keeps_reconnecting(start, cycles);
}

/// Nothing follows once the client has exited.
proof fn lemma_exit_is_final<E>(start: ReconnectingView, cycles: Seq<Cycle<E>>, last: Cycle<E>)
    requires
        start.run(cycles) is Exited,
    ensures
        start.run(cycles.push(last)) == start.run(cycles),
    decreases cycles.len(),
{
    let all = cycles.push(last);
    assert(all[0] == cycles[0]);
    assert(all.drop_first() == cycles.drop_first().push(last));
    let (step, now) = start.cycle(cycles[0]);
    if !(step is Exit) {
        lemma_exit_is_final(now, cycles.drop_first(), last);
    }
}

/// One connection more is one step more.
proof fn lemma_run_push<E>(start: ReconnectingView, cycles: Seq<Cycle<E>>, last: Cycle<E>)
    requires
        start.run(cycles) is Waiting,
    ensures
        start.run(cycles.push(last)) == start.run(cycles)->Waiting_0.run(seq![last]),
    decreases cycles.len(),
{
    let all = cycles.push(last);
    if cycles.len() == 0 {
        assert(all == seq![last]);
    } else {
        assert(all[0] == cycles[0]);
        assert(all.drop_first() == cycles.drop_first().push(last));
        lemma_run_push(start.cycle(cycles[0]).1, cycles.drop_first(), last);
    }
}

/// A client that is kept connected starts with what it was given.
pub proof fn law_starts_as_asked(
    target: OpeningView,
    max_retries: u32,
    retry_delay_ms: nat,
    max_delay_ms: nat,
)
    ensures
        ({
            let start = ReconnectingView::start(target, max_retries, retry_delay_ms, max_delay_ms);
            &&& start.target == target
            &&& start.retry_delay_ms == retry_delay_ms
            &&& start.backoff.max_retries == max_retries
            &&& start.backoff.max_delay_ms == max_delay_ms
            &&& start.backoff.attempt == 0
            &&& retry_delay_ms <= max_delay_ms ==> start.backoff.delay_ms == retry_delay_ms
            &&& retry_delay_ms >= max_delay_ms ==> start.backoff.delay_ms == max_delay_ms
        }),
{
}

/// The attempts for each connection go to the same server with the same secret,
/// for the same local service and the port at hand, under the limit and the
/// delays that were asked for, and are counted from the start.
pub proof fn law_attempts_as_asked(now: ReconnectingView)
    ensures
        now.attempts().target == now.target,
        now.attempts().backoff.max_retries == now.backoff.max_retries,
        now.attempts().backoff.max_delay_ms == now.backoff.max_delay_ms,
        now.attempts().backoff.delay_ms == capped(now.retry_delay_ms, now.backoff.max_delay_ms),
        now.attempts().backoff.attempt == 0,
{
}

/// Beginning a connection counts it once and changes nothing else.
pub proof fn law_begins(now: ReconnectingView)
    ensures
        now.begun().target == now.target,
        now.begun().retry_delay_ms == now.retry_delay_ms,
        now.begun().backoff.max_retries == now.backoff.max_retries,
        now.begun().backoff.max_delay_ms == now.backoff.max_delay_ms,
        now.begun().backoff.delay_ms == now.backoff.delay_ms,
        now.backoff.attempt < u32::MAX ==> now.begun().backoff.attempt == now.backoff.attempt + 1,
        now.backoff.attempt == u32::MAX ==> now.begun().backoff.attempt == 0,
{
}

/// A connection that is made is listened to. The port that it was granted is the
/// one to ask for from then on, the delay goes back to the initial one or the
/// maximum, and the server, the secret, the local service, the count and the
/// limits stay as they are.
pub proof fn law_connected<E>(now: ReconnectingView, client: Client)
    ensures
        ({
            let (step, next) = now.opened::<E>(Ok(client));
            &&& step == ReconnectStepView::<E>::Listen(client)
            &&& next.target.port == client@.remote_port
            &&& next.target.to == now.target.to
            &&& next.target.secret == now.target.secret
            &&& next.target.local_host == now.target.local_host
            &&& next.target.local_port == now.target.local_port
            &&& next.target.stage == now.target.stage
            &&& next.retry_delay_ms == now.retry_delay_ms
            &&& next.backoff.max_retries == now.backoff.max_retries
            &&& next.backoff.max_delay_ms == now.backoff.max_delay_ms
            &&& next.backoff.attempt == now.backoff.attempt
            &&& next.backoff.delay_ms == capped(now.retry_delay_ms, now.backoff.max_delay_ms)
        }),
{
}

/// A connection that could not be made and one that ended, well or not, are
/// followed by the same: the end of the client where there is a limit and the
/// count has reached it, with the error of the connection that could not be made
/// or the one that the limit is reached; and else the delay at hand, after which
/// the next one is twice as long or the maximum, and all the rest as it was.
pub proof fn law_over<E>(
    now: ReconnectingView,
    error: ClientError<E>,
    ended: Result<(), ClientError<E>>,
)
    ensures
        now.backoff.max_retries > 0 && now.backoff.attempt >= now.backoff.max_retries ==> {
            &&& now.opened(Err(error)) == (ReconnectStepView::Exit(error), now)
            &&& now.ended(ended) == (
                ReconnectStepView::Exit(ClientError::<E>::ReconnectsSpent),
                now,
            )
        },
        now.backoff.max_retries == 0 || now.backoff.attempt < now.backoff.max_retries ==> {
            let (step, next) = now.opened(Err(error));
            &&& now.ended(ended) == (step, next)
            &&& step == ReconnectStepView::<E>::Wait(now.backoff.delay_ms)
            &&& next.target == now.target
            &&& next.retry_delay_ms == now.retry_delay_ms
            &&& next.backoff.max_retries == now.backoff.max_retries
            &&& next.backoff.max_delay_ms == now.backoff.max_delay_ms
            &&& next.backoff.attempt == now.backoff.attempt
            &&& 2 * now.backoff.delay_ms <= now.backoff.max_delay_ms ==> next.backoff.delay_ms == 2
                * now.backoff.delay_ms
            &&& 2 * now.backoff.delay_ms >= now.backoff.max_delay_ms ==> next.backoff.delay_ms
                == now.backoff.max_delay_ms
        },
{
}

/// However many connections have come and gone, the next one is made to the
/// server that was asked for, proves the secret that was given, if any, and asks
/// for the port that was granted last. A client that comes of it forwards every
/// connection over the same server, under the same secret, to the local service
/// that was asked for.
pub proof fn law_serves_what_was_asked<E>(
    local_host: Seq<char>,
    local_port: u16,
    to: Seq<char>,
    port: u16,
    secret: Option<Seq<char>>,
    max_retries: u32,
    retry_delay_ms: nat,
    max_delay_ms: nat,
    cycles: Seq<Cycle<E>>,
    outcomes: Seq<Result<Option<ServerMessage>, E>>,
    id: Uuid,
    buffered: Seq<u8>,
)
    requires
        max_retries == 0 || cycles.len() < max_retries,
    ensures
        ({
            let start = ReconnectingView::start(
                OpeningView::start(local_host, local_port, to, port, secret),
                max_retries,
                retry_delay_ms,
                max_delay_ms,
            );
            start.run(cycles) matches ReconnectEnd::Waiting(now) && {
                let opening = now.attempts().target;
                let plan = opening.plan();
                let greeting: int = if secret is Some {
                    2
                } else {
                    1
                };
                &&& plan[0] == OpeningActionView::Connect(to)
                &&& secret matches Some(s) ==> plan[1] == OpeningActionView::Authenticate(s)
                &&& plan[greeting] == OpeningActionView::Send(
                    ClientMessage::Hello(last_port(port, cycles)),
                )
                &&& opening.run(outcomes) matches OpeningStepView::Opened(client) ==> {
                    let forwarding = forward_plan(client, id, buffered);
                    &&& forwarding[0] == ForwardActionView::Connect(to)
                    &&& secret matches Some(s) ==> forwarding[1]
                        == ForwardActionView::Authenticate(s)
                    &&& forwarding[greeting] == ForwardActionView::Send(ClientMessage::Accept(id))
                    &&& forwarding[greeting + 1] == ForwardActionView::ConnectLocal(
                        local_host,
                        local_port,
                    )
                }
            }
        }),
{
    let start = ReconnectingView::start(
        OpeningView::start(local_host, local_port, to, port, secret),
        max_retries,
        retry_delay_ms,
        max_delay_ms,
    );
    law_keeps_reconnecting(start, cycles);
    let asked = last_port(port, cycles);
    assert(start.run(cycles)->Waiting_0.attempts().target == OpeningView::start(
        local_host,
        local_port,
        to,
        asked,
        secret,
    ));
    crate::opening::law_opened_as_asked(local_host, local_port, to, asked, secret, outcomes);
    crate::opening::law_plan(local_host, local_port, to, asked, secret);
}

/// A step is seen as what it is.
pub proof fn law_seen_whole<E>(client: Client, error: ClientError<E>, delay_ms: u64)
    ensures
        ReconnectStep::<E>::Listen(client)@ == ReconnectStepView::<E>::Listen(client),
        ReconnectStep::Exit(error)@ == ReconnectStepView::Exit(error),
        ReconnectStep::<E>::Wait(delay_ms)@ == ReconnectStepView::<E>::Wait(delay_ms as nat),
{
}

} // verus!
