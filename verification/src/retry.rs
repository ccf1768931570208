//! Opening a control connection in several attempts.

use crate::backoff::capped;
use crate::backoff::Backoff;
use crate::backoff::BackoffView;
use crate::client::Client;
use crate::error::ClientError;
use crate::opening::Opening;
use crate::opening::OpeningView;
use crate::text::borrow;
use crate::text::text_view;
use vstd::arithmetic::power2::pow2;
use vstd::prelude::*;

verus! {

/// What a `Retrying` stands for.
pub struct RetryingView {
    /// What each attempt starts from.
    pub target: OpeningView,
    /// The count of the attempts and the delay between them.
    pub backoff: BackoffView,
}

/// What follows from the result of an attempt.
#[derive(Debug)]
pub enum RetryStep<E> {
    /// The attempt succeeded.
    Connected(Client),
    /// The attempt failed and was the last one.
    GaveUp(ClientError<E>),
    /// Wait for this many milliseconds, then begin the next attempt.
    Wait(u64),
}

/// What a `RetryStep` stands for.
pub enum RetryStepView<E> {
    Connected(Client),
    GaveUp(ClientError<E>),
    Wait(nat),
}

impl<E> View for RetryStep<E> {
    type V = RetryStepView<E>;

    open spec fn view(&self) -> RetryStepView<E> {
        match *self {
            RetryStep::Connected(client) => RetryStepView::Connected(client),
            RetryStep::GaveUp(error) => RetryStepView::GaveUp(error),
            RetryStep::Wait(delay_ms) => RetryStepView::Wait(delay_ms as nat),
        }
    }
}

/// Where a series of attempts has led.
pub enum RetryEnd<E> {
    /// The next attempt is due.
    Waiting(RetryingView),
    /// An attempt succeeded.
    Connected(Client),
    /// No attempt is left.
    GaveUp(ClientError<E>),
}

impl RetryingView {
    /// No attempt made yet.
    pub open spec fn start(
        target: OpeningView,
        max_retries: u32,
        delay_ms: nat,
        max_delay_ms: nat,
    ) -> RetryingView {
        RetryingView { target, backoff: BackoffView::fresh(max_retries, delay_ms, max_delay_ms) }
    }

    /// One more attempt is under way.
    pub open spec fn begun(self) -> RetryingView {
        RetryingView { backoff: self.backoff.begun(), ..self }
    }

    /// The error that stands in the way of the attempt that `begun` counts.
    pub open spec fn refusal<E>(self) -> Option<ClientError<E>> {
        if self.begun().backoff.exceeded() {
            Some(ClientError::AttemptsExceeded(self.backoff.max_retries))
        } else {
            None
        }
    }

    /// What follows from the result of the attempt under way: the client where it
    /// succeeded, its error where no attempt is left, and else the delay.
    pub open spec fn verdict<E>(self, result: Result<Client, ClientError<E>>) -> RetryStepView<E> {
        match result {
            Ok(client) => RetryStepView::Connected(client),
            Err(error) => if self.backoff.spent() {
                RetryStepView::GaveUp(error)
            } else {
                RetryStepView::Wait(self.backoff.delay_ms)
            },
        }
    }

    /// The state after that: only a delay that is handed out changes it.
    pub open spec fn after<E>(self, result: Result<Client, ClientError<E>>) -> RetryingView {
        if self.verdict(result) is Wait {
            RetryingView { backoff: self.backoff.waited(), ..self }
        } else {
            self
        }
    }

    /// What follows from the results of one attempt after the other.
    pub open spec fn run<E>(self, results: Seq<Result<Client, ClientError<E>>>) -> RetryEnd<E>
        decreases results.len(),
    {
        if results.len() == 0 {
            RetryEnd::Waiting(self)
        } else if let Some(error) = self.refusal::<E>() {
            RetryEnd::GaveUp(error)
        } else {
            match self.begun().verdict(results[0]) {
                RetryStepView::Connected(client) => RetryEnd::Connected(client),
                RetryStepView::GaveUp(error) => RetryEnd::GaveUp(error),
                RetryStepView::Wait(_) => self.begun().after(results[0]).run(results.drop_first()),
            }
        }
    }
}

/// A control connection that is being opened in several attempts.
#[derive(Debug)]
pub struct Retrying {
    local_host: String,
    local_port: u16,
    to: String,
    port: u16,
    secret: Option<String>,
    backoff: Backoff,
}

impl View for Retrying {
    type V = RetryingView;

    closed spec fn view(&self) -> RetryingView {
        RetryingView {
            target: OpeningView::start(
                self.local_host@,
                self.local_port,
                self.to@,
                self.port,
                text_view(self.secret),
            ),
            backoff: self.backoff@,
        }
    }
}

impl Retrying {
    /// A series of attempts with none made yet.
    pub(crate) fn start(
        local_host: String,
        local_port: u16,
        to: String,
        port: u16,
        secret: Option<String>,
        max_retries: u32,
        retry_delay_ms: u64,
        max_retry_delay_ms: u64,
    ) -> (retrying: Retrying)
        ensures
            retrying@ == RetryingView::start(
                OpeningView::start(local_host@, local_port, to@, port, text_view(secret)),
                max_retries,
                retry_delay_ms as nat,
                max_retry_delay_ms as nat,
            ),
    {
        Retrying {
            local_host,
            local_port,
            to,
            port,
            secret,
            backoff: Backoff::new(max_retries, retry_delay_ms, max_retry_delay_ms),
        }
    }

    /// The number of the attempt that was begun last.
    pub fn attempt(&self) -> (attempt: u32)
        ensures
            attempt == self@.backoff.attempt,
    {
        self.backoff.attempt()
    }

    /// Begins the next attempt, unless it is one too many.
    pub fn begin<E>(&mut self) -> (opening: Result<Opening, ClientError<E>>)
        ensures
            final(self)@ == old(self)@.begun(),
            match old(self)@.refusal::<E>() {
                Some(error) => opening == Err::<Opening, ClientError<E>>(error),
                None => opening matches Ok(o) && o@ == old(self)@.target,
            },
    {
        self.backoff.begin();
        if self.backoff.is_exceeded() {
            return Err(ClientError::AttemptsExceeded(self.backoff.max_retries()));
        }
        Ok(
            Client::new(
                self.local_host.as_str(),
                self.local_port,
                self.to.as_str(),
                self.port,
                borrow(&self.secret),
            ),
        )
    }

    /// Takes the result of the attempt under way. A delay that follows from it is
    /// never above the maximum.
    pub fn finish<E>(&mut self, result: Result<Client, ClientError<E>>) -> (step: RetryStep<E>)
        ensures
            step@ == old(self)@.verdict(result),
            final(self)@ == old(self)@.after(result),
            step matches RetryStep::Wait(delay_ms) ==> delay_ms <= old(self)@.backoff.max_delay_ms,
    {
        match result {
            Ok(client) => RetryStep::Connected(client),
            Err(error) => if self.backoff.is_spent() {
                RetryStep::GaveUp(error)
            } else {
                RetryStep::Wait(self.backoff.wait())
            },
        }
    }
}

/// After `failures` failed attempts, fewer than allowed, the next attempt is due,
/// is not refused as one too many, and makes for the same target.
pub proof fn law_keeps_trying<E>(
    start: RetryingView,
    results: Seq<Result<Client, ClientError<E>>>,
    failures: nat,
)
    requires
        start.backoff.attempt == 0,
        failures <= results.len(),
        start.backoff.max_retries == 0 || failures < start.backoff.max_retries,
        forall|i: int| 0 <= i < failures ==> #[trigger] results[i] is Err,
    ensures
        ({
            let now = RetryingView { backoff: start.backoff.after(failures), ..start };
            &&& now.refusal::<E>() is None
            &&& start.run(results) == now.run(results.skip(failures as int))
            &&& failures == results.len() ==> start.run(results) == RetryEnd::Waiting::<E>(now)
        }),
    decreases failures,
{
    lemma_in_limit(start.backoff, failures);
    if failures == 0 {
        assert(results.skip(0) == results);
    } else {
        let before = (failures - 1) as nat;
        law_keeps_trying(start, results, before);
        let left = results.skip(before as int);
        assert(left[0] == results[before as int]);
        assert(left.drop_first() == results.skip(failures as int));
        lemma_goes_on(start.backoff, before);
    }
}

/// The delay that a failed attempt is answered with, the first one included: the
/// initial one times two to the power of the failures before it, or the maximum
/// where that is less.
pub proof fn law_delay<E>(
    target: OpeningView,
    max_retries: u32,
    delay_ms: nat,
    max_delay_ms: nat,
    failures: nat,
    error: ClientError<E>,
)
    requires
        max_retries == 0 || failures + 1 < max_retries,
    ensures
        ({
            let start = RetryingView::start(target, max_retries, delay_ms, max_delay_ms);
            let now = RetryingView { backoff: start.backoff.after(failures), ..start }.begun();
            now.verdict::<E>(Err(error)) == RetryStepView::Wait::<E>(
                capped(delay_ms * pow2(failures), max_delay_ms),
            )
        }),
{
    let start = BackoffView::fresh(max_retries, delay_ms, max_delay_ms);
    lemma_in_limit(start, failures);
    crate::backoff::law_exponential(max_retries, delay_ms, max_delay_ms, failures);
}

/// The first attempt that succeeds ends the series, provided that it is allowed:
/// with a limit, that it comes among the first `max_retries` attempts.
pub proof fn law_first_success<E>(
    start: RetryingView,
    results: Seq<Result<Client, ClientError<E>>>,
    failures: nat,
)
    requires
        start.backoff.attempt == 0,
        failures < results.len(),
        start.backoff.max_retries == 0 || failures < start.backoff.max_retries,
        forall|i: int| 0 <= i < failures ==> #[trigger] results[i] is Err,
        results[failures as int] is Ok,
    ensures
        start.run(results) == RetryEnd::Connected::<E>(results[failures as int]->Ok_0),
{
    law_keeps_trying(start, results, failures);
    lemma_in_limit(start.backoff, failures);
    assert(results.skip(failures as int)[0] == results[failures as int]);
}

/// With a limit of `max_retries` attempts, the error of the last of them is the
/// result where all of them fail.
pub proof fn law_last_error<E>(
    start: RetryingView,
    results: Seq<Result<Client, ClientError<E>>>,
)
    requires
        start.backoff.attempt == 0,
        0 < start.backoff.max_retries <= results.len(),
        forall|i: int| 0 <= i < start.backoff.max_retries ==> #[trigger] results[i] is Err,
    ensures
        start.run(results) == RetryEnd::GaveUp::<E>(
            results[start.backoff.max_retries - 1]->Err_0,
        ),
{
    let before = (start.backoff.max_retries - 1) as nat;
    law_keeps_trying(start, results, before);
    lemma_in_limit(start.backoff, before);
    assert(results.skip(before as int)[0] == results[before as int]);
}

/// With a limit of `max_retries` attempts, no more are made: by then the series
/// has ended.
pub proof fn law_ends_at_limit<E>(
    start: RetryingView,
    results: Seq<Result<Client, ClientError<E>>>,
)
    requires
        start.backoff.attempt == 0,
        0 < start.backoff.max_retries <= results.len(),
    ensures
        !(start.run(results) is Waiting),
{
    let limit = start.backoff.max_retries as nat;
    let failures = lemma_first_success(results, limit);
    if failures < limit {
        law_first_success(start, results, failures);
    } else {
        law_last_error(start, results);
    }
}

/// The number of failures among the first `limit` results before the first
/// success.
proof fn lemma_first_success<E>(
    results: Seq<Result<Client, ClientError<E>>>,
    limit: nat,
) -> (failures: nat)
    requires
        limit <= results.len(),
    ensures
        failures <= limit,
        forall|i: int| 0 <= i < failures ==> #[trigger] results[i] is Err,
        failures < limit ==> results[failures as int] is Ok,
    decreases limit,
{
    if limit == 0 {
        0
    } else {
        let before = lemma_first_success(results, (limit - 1) as nat);
        if before == limit - 1 && results[before as int] is Err {
            limit
        } else {
            before
        }
    }
}

/// Without a limit, failed attempts alone never end the series.
pub proof fn law_never_gives_up<E>(
    start: RetryingView,
    results: Seq<Result<Client, ClientError<E>>>,
)
    requires
        start.backoff.attempt == 0,
        start.backoff.max_retries == 0,
        forall|i: int| 0 <= i < results.len() ==> #[trigger] results[i] is Err,
    ensures
        start.run(results) is Waiting,
{
    law_keeps_trying(start, results, results.len());
}

/// Within the limit there is a next attempt; it is the last exactly where it
/// reaches the limit.
proof fn lemma_in_limit(start: BackoffView, failures: nat)
    requires
        start.attempt == 0,
        start.max_retries == 0 || failures < start.max_retries,
    ensures
        !start.after(failures).begun().exceeded(),
        start.after(failures).begun().spent() <==> failures + 1 == start.max_retries,
        start.after(failures).max_retries == start.max_retries,
{
    crate::backoff::lemma_after_keeps(start, failures);
    if start.max_retries == 0 {
        crate::backoff::law_no_limit(start, failures);
    } else {
        crate::backoff::law_limit(start, failures);
    }
}

/// A failed attempt that is not the last is followed by another.
proof fn lemma_goes_on(start: BackoffView, before: nat)
    requires
        start.attempt == 0,
        start.max_retries == 0 || before + 1 < start.max_retries,
    ensures
        !start.after(before).begun().exceeded(),
        !start.after(before).begun().spent(),
        start.after(before).begun().waited() == start.after(before + 1),
{
    lemma_in_limit(start, before);
}

/// A series of attempts starts with what it was given: every attempt makes for
/// that target, under that limit, and the delays start at the initial one or the
/// maximum, whichever is shorter.
pub proof fn law_starts_as_asked(
    target: OpeningView,
    max_retries: u32,
    delay_ms: nat,
    max_delay_ms: nat,
)
    ensures
        ({
            let start = RetryingView::start(target, max_retries, delay_ms, max_delay_ms);
            &&& start.target == target
            &&& start.backoff.max_retries == max_retries
            &&& start.backoff.max_delay_ms == max_delay_ms
            &&& start.backoff.attempt == 0
            &&& delay_ms <= max_delay_ms ==> start.backoff.delay_ms == delay_ms
            &&& delay_ms >= max_delay_ms ==> start.backoff.delay_ms == max_delay_ms
        }),
{
}

/// The target and the limits stay as they are through every attempt, and each
/// attempt is counted once.
pub proof fn law_target_stays<E>(now: RetryingView, result: Result<Client, ClientError<E>>)
    ensures
        now.begun().target == now.target,
        now.after(result).target == now.target,
        now.begun().backoff.max_retries == now.backoff.max_retries,
        now.after(result).backoff.max_retries == now.backoff.max_retries,
        now.begun().backoff.max_delay_ms == now.backoff.max_delay_ms,
        now.after(result).backoff.max_delay_ms == now.backoff.max_delay_ms,
        now.backoff.attempt < u32::MAX ==> now.begun().backoff.attempt == now.backoff.attempt + 1,
        now.backoff.attempt == u32::MAX ==> now.begun().backoff.attempt == 0,
        now.after(result).backoff.attempt == now.backoff.attempt,
        now.begun().backoff.delay_ms == now.backoff.delay_ms,
{
}

/// A success is handed on whatever the count. A failure is handed on, unchanged,
/// where there is a limit and the attempt has reached it; else it costs the delay
/// at hand, and the next delay is twice as long or the maximum.
pub proof fn law_result_of_attempt<E>(now: RetryingView, client: Client, error: ClientError<E>)
    ensures
        now.verdict::<E>(Ok(client)) == RetryStepView::<E>::Connected(client),
        now.after::<E>(Ok(client)) == now,
        now.backoff.max_retries > 0 && now.backoff.attempt >= now.backoff.max_retries ==> {
            &&& now.verdict(Err(error)) == RetryStepView::GaveUp(error)
            &&& now.after::<E>(Err(error)) == now
        },
        now.backoff.max_retries == 0 || now.backoff.attempt < now.backoff.max_retries ==> {
            let next = now.after::<E>(Err(error)).backoff;
            &&& now.verdict(Err(error)) == RetryStepView::<E>::Wait(now.backoff.delay_ms)
            &&& 2 * now.backoff.delay_ms <= now.backoff.max_delay_ms ==> next.delay_ms == 2
                * now.backoff.delay_ms
            &&& 2 * now.backoff.delay_ms >= now.backoff.max_delay_ms ==> next.delay_ms
                == now.backoff.max_delay_ms
        },
{
}

/// An attempt is refused where there is a limit that has been used up, with the
/// limit in the error. It is not refused without a limit, below it, or where the
/// number starts over.
pub proof fn law_refused_beyond_limit<E>(now: RetryingView)
    ensures
        now.backoff.max_retries == 0 ==> now.refusal::<E>() is None,
        now.backoff.attempt < now.backoff.max_retries ==> now.refusal::<E>() is None,
        now.backoff.attempt == u32::MAX ==> now.refusal::<E>() is None,
        now.backoff.max_retries > 0 && now.backoff.max_retries <= now.backoff.attempt < u32::MAX
            ==> now.refusal::<E>() == Some(
            ClientError::<E>::AttemptsExceeded(now.backoff.max_retries),
        ),
{
}

/// A step is seen as what it is.
pub proof fn law_seen_whole<E>(client: Client, error: ClientError<E>, delay_ms: u64)
    ensures
        RetryStep::<E>::Connected(client)@ == RetryStepView::<E>::Connected(client),
        RetryStep::GaveUp(error)@ == RetryStepView::GaveUp(error),
        RetryStep::<E>::Wait(delay_ms)@ == RetryStepView::<E>::Wait(delay_ms as nat),
{
}

} // verus!
