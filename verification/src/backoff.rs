//! Counting attempts and spacing them out.

use vstd::arithmetic::power2::lemma2_to64;
use vstd::arithmetic::power2::lemma_pow2_unfold;
use vstd::arithmetic::power2::pow2;
use vstd::prelude::*;

verus! {

/// A delay cut down to the maximum.
pub open spec fn capped(delay: nat, max: nat) -> nat {
    if delay < max {
        delay
    } else {
        max
    }
}

/// Cuts a delay in milliseconds down to a maximum.
pub fn cap_delay(delay_ms: u64, max_delay_ms: u64) -> (delay: u64)
    ensures
        delay == capped(delay_ms as nat, max_delay_ms as nat),
{
    if delay_ms < max_delay_ms {
        delay_ms
    } else {
        max_delay_ms
    }
}

/// The delay that follows `delay`: twice as long, but never above `max`.
pub open spec fn doubled(delay: nat, max: nat) -> nat {
    capped(2 * delay, max)
}

/// Doubles a delay in milliseconds up to a maximum. A doubling that would leave
/// the range of `u64` is above every maximum, so the maximum is the result.
pub fn next_delay(delay_ms: u64, max_delay_ms: u64) -> (next: u64)
    ensures
        next == doubled(delay_ms as nat, max_delay_ms as nat),
{
    if delay_ms > u64::MAX / 2 {
        max_delay_ms
    } else {
        cap_delay(delay_ms * 2, max_delay_ms)
    }
}

/// What a `Backoff` stands for.
pub struct BackoffView {
    /// The number of attempts that are allowed; zero stands for no limit.
    pub max_retries: u32,
    /// The longest delay.
    pub max_delay_ms: nat,
    /// The number of the attempt that was begun last; zero before the first.
    pub attempt: nat,
    /// The delay before the next attempt.
    pub delay_ms: nat,
}

impl BackoffView {
    /// No attempt made yet; the first delay is `delay_ms`, within the maximum.
    pub open spec fn fresh(max_retries: u32, delay_ms: nat, max_delay_ms: nat) -> BackoffView {
        BackoffView {
            max_retries,
            max_delay_ms,
            attempt: 0,
            delay_ms: capped(delay_ms, max_delay_ms),
        }
    }

    /// One more attempt is under way. The number is kept modulo the range of
    /// `u32`; see `law_limit` for why that never shows where there is a limit.
    pub open spec fn begun(self) -> BackoffView {
        BackoffView { attempt: (self.attempt + 1) % 0x1_0000_0000, ..self }
    }

    /// The attempt under way is the last one allowed.
    pub open spec fn spent(self) -> bool {
        self.max_retries != 0 && self.attempt >= self.max_retries
    }

    /// The attempt under way is one too many.
    pub open spec fn exceeded(self) -> bool {
        self.max_retries != 0 && self.attempt > self.max_retries
    }

    /// The delay has been waited for and the next one is longer.
    pub open spec fn waited(self) -> BackoffView {
        BackoffView { delay_ms: doubled(self.delay_ms, self.max_delay_ms), ..self }
    }

    /// The next delay is `delay_ms` again, within the maximum.
    pub open spec fn reset(self, delay_ms: nat) -> BackoffView {
        BackoffView { delay_ms: capped(delay_ms, self.max_delay_ms), ..self }
    }

    /// `failures` attempts have been made, each followed by its delay.
    pub open spec fn after(self, failures: nat) -> BackoffView
        decreases failures,
    {
        if failures == 0 {
            self
        } else {
            self.after((failures - 1) as nat).begun().waited()
        }
    }
}

/// A count of attempts with the delay that separates them.
#[derive(Debug)]
pub struct Backoff {
    max_retries: u32,
    max_delay_ms: u64,
    attempt: u32,
    delay_ms: u64,
}

impl View for Backoff {
    type V = BackoffView;

    closed spec fn view(&self) -> BackoffView {
        BackoffView {
            max_retries: self.max_retries,
            max_delay_ms: self.max_delay_ms as nat,
            attempt: self.attempt as nat,
            delay_ms: self.delay_ms as nat,
        }
    }
}

impl Backoff {
    #[verifier::type_invariant]
    spec fn wf(self) -> bool {
        self.delay_ms <= self.max_delay_ms
    }

    /// A count with no attempt made. `max_retries` zero allows any number. The
    /// first delay is `delay_ms`, or `max_delay_ms` where that is less.
    pub fn new(max_retries: u32, delay_ms: u64, max_delay_ms: u64) -> (backoff: Backoff)
        ensures
            backoff@ == BackoffView::fresh(max_retries, delay_ms as nat, max_delay_ms as nat),
    {
        Backoff {
            max_retries,
            max_delay_ms,
            attempt: 0,
            delay_ms: cap_delay(delay_ms, max_delay_ms),
        }
    }

    /// The number of the attempt that was begun last.
    pub fn attempt(&self) -> (attempt: u32)
        ensures
            attempt == self@.attempt,
    {
        self.attempt
    }

    /// The number of attempts that are allowed.
    pub fn max_retries(&self) -> (max_retries: u32)
        ensures
            max_retries == self@.max_retries,
    {
        self.max_retries
    }

    /// The longest delay.
    pub fn max_delay_ms(&self) -> (max_delay_ms: u64)
        ensures
            max_delay_ms == self@.max_delay_ms,
    {
        self.max_delay_ms
    }

    /// Counts one more attempt. Without a limit the number starts over at zero
    /// once `u32` is used up: it then decides nothing.
    pub fn begin(&mut self)
        ensures
            final(self)@ == old(self)@.begun(),
    {
        proof {
            use_type_invariant(&*self);
        }
        self.attempt = self.attempt.wrapping_add(1);
    }

    /// Whether the attempt under way is the last one allowed.
    pub fn is_spent(&self) -> (spent: bool)
        ensures
            spent == self@.spent(),
    {
        self.max_retries != 0 && self.attempt >= self.max_retries
    }

    /// Whether the attempt under way is one too many.
    pub fn is_exceeded(&self) -> (exceeded: bool)
        ensures
            exceeded == self@.exceeded(),
    {
        self.max_retries != 0 && self.attempt > self.max_retries
    }

    /// Hands out the delay to wait for, which is never above the maximum, and
    /// doubles the one after it.
    pub fn wait(&mut self) -> (delay_ms: u64)
        ensures
            delay_ms == old(self)@.delay_ms,
            delay_ms <= old(self)@.max_delay_ms,
            final(self)@ == old(self)@.waited(),
    {
        proof {
            use_type_invariant(&*self);
        }
        let delay_ms: u64 = self.delay_ms;
        self.delay_ms = next_delay(delay_ms, self.max_delay_ms);
        delay_ms
    }

    /// Makes `delay_ms` the next delay again, or the maximum where that is less.
    pub fn reset(&mut self, delay_ms: u64)
        ensures
            final(self)@ == old(self)@.reset(delay_ms as nat),
    {
        self.delay_ms = cap_delay(delay_ms, self.max_delay_ms);
    }
}

/// The delays grow exponentially up to the maximum: the delay that follows
/// `failures` failures is the initial one times two to the power of `failures`,
/// or the maximum where that is less.
pub proof fn law_exponential(max_retries: u32, delay_ms: nat, max_delay_ms: nat, failures: nat)
    ensures
        BackoffView::fresh(max_retries, delay_ms, max_delay_ms).after(failures).delay_ms == capped(
            delay_ms * pow2(failures),
            max_delay_ms,
        ),
    decreases failures,
{
    let start = BackoffView::fresh(max_retries, delay_ms, max_delay_ms);
    if failures == 0 {
        lemma2_to64();
        assert(delay_ms * pow2(0) == delay_ms) by (nonlinear_arith)
            requires
                pow2(0) == 1,
        ;
    } else {
        let before = (failures - 1) as nat;
        law_exponential(max_retries, delay_ms, max_delay_ms, before);
        lemma_after_keeps(start, before);
        lemma_pow2_unfold(failures);
        assert(delay_ms * pow2(failures) == 2 * (delay_ms * pow2(before))) by (nonlinear_arith)
            requires
                pow2(failures) == 2 * pow2(before),
        ;
    }
}

/// No delay is above the maximum, and delays never shrink.
pub proof fn law_bounded(max_retries: u32, delay_ms: nat, max_delay_ms: nat, failures: nat)
    ensures
        ({
            let start = BackoffView::fresh(max_retries, delay_ms, max_delay_ms);
            &&& start.after(failures).delay_ms <= max_delay_ms
            &&& start.after(failures).delay_ms <= start.after(failures + 1).delay_ms
        }),
{
    let start = BackoffView::fresh(max_retries, delay_ms, max_delay_ms);
    law_exponential(max_retries, delay_ms, max_delay_ms, failures);
    lemma_after_keeps(start, failures);
    assert(start.after(failures + 1) == start.after(failures).begun().waited());
}

/// With a limit of `max_retries` attempts, the attempts are numbered from one,
/// none of them is one too many, and the one with the number `max_retries` is
/// the last.
pub proof fn law_limit(start: BackoffView, failures: nat)
    requires
        start.attempt == 0,
        failures < start.max_retries,
    ensures
        start.after(failures).begun().attempt == failures + 1,
        !start.after(failures).begun().exceeded(),
        start.after(failures).begun().spent() <==> failures + 1 == start.max_retries,
    decreases failures,
{
    lemma_after_keeps(start, failures);
    if failures > 0 {
        law_limit(start, (failures - 1) as nat);
    }
}

/// A limit of zero is no limit: whatever the number of failures, there is a
/// next attempt, and it is not the last.
pub proof fn law_no_limit(start: BackoffView, failures: nat)
    requires
        start.max_retries == 0,
    ensures
        !start.after(failures).begun().exceeded(),
        !start.after(failures).begun().spent(),
{
    lemma_after_keeps(start, failures);
}

/// Neither bound changes on the way.
pub(crate) proof fn lemma_after_keeps(start: BackoffView, failures: nat)
    ensures
        start.after(failures).max_retries == start.max_retries,
        start.after(failures).max_delay_ms == start.max_delay_ms,
    decreases failures,
{
    if failures > 0 {
        lemma_after_keeps(start, (failures - 1) as nat);
    }
}

/// A delay that is cut down is the shorter of the delay and the maximum, and one
/// that is doubled the shorter of twice the delay and the maximum.
pub proof fn law_shorter(delay: nat, max: nat)
    ensures
        capped(delay, max) <= delay && capped(delay, max) <= max,
        capped(delay, max) == delay || capped(delay, max) == max,
        doubled(delay, max) <= 2 * delay && doubled(delay, max) <= max,
        doubled(delay, max) == 2 * delay || doubled(delay, max) == max,
{
}

/// A fresh count has the limit and the maximum that it was given, has made no
/// attempt, and waits for the initial delay or the maximum, whichever is shorter.
pub proof fn law_fresh(max_retries: u32, delay_ms: nat, max_delay_ms: nat)
    ensures
        ({
            let fresh = BackoffView::fresh(max_retries, delay_ms, max_delay_ms);
            &&& fresh.max_retries == max_retries
            &&& fresh.max_delay_ms == max_delay_ms
            &&& fresh.attempt == 0
            &&& delay_ms <= max_delay_ms ==> fresh.delay_ms == delay_ms
            &&& delay_ms >= max_delay_ms ==> fresh.delay_ms == max_delay_ms
        }),
{
}

/// Each operation changes one thing: beginning an attempt its number, by one;
/// waiting the delay, to twice as long or the maximum; a reset the delay, to what
/// is asked for or the maximum.
pub proof fn law_one_change(now: BackoffView, delay_ms: nat)
    ensures
        now.attempt < u32::MAX ==> now.begun().attempt == now.attempt + 1,
        now.attempt == u32::MAX ==> now.begun().attempt == 0,
        now.begun().delay_ms == now.delay_ms,
        now.waited().attempt == now.attempt,
        2 * now.delay_ms <= now.max_delay_ms ==> now.waited().delay_ms == 2 * now.delay_ms,
        2 * now.delay_ms >= now.max_delay_ms ==> now.waited().delay_ms == now.max_delay_ms,
        now.reset(delay_ms).attempt == now.attempt,
        delay_ms <= now.max_delay_ms ==> now.reset(delay_ms).delay_ms == delay_ms,
        delay_ms >= now.max_delay_ms ==> now.reset(delay_ms).delay_ms == now.max_delay_ms,
        now.begun().max_retries == now.max_retries,
        now.waited().max_retries == now.max_retries,
        now.reset(delay_ms).max_retries == now.max_retries,
        now.begun().max_delay_ms == now.max_delay_ms,
        now.waited().max_delay_ms == now.max_delay_ms,
        now.reset(delay_ms).max_delay_ms == now.max_delay_ms,
{
}

/// An attempt is the last where there is a limit and its number has reached it,
/// and one too many where the number has passed it.
pub proof fn law_last_and_too_many(now: BackoffView)
    ensures
        now.max_retries == 0 ==> !now.spent() && !now.exceeded(),
        now.max_retries > 0 ==> (now.spent() <==> now.attempt >= now.max_retries),
        now.max_retries > 0 ==> (now.exceeded() <==> now.attempt > now.max_retries),
{
}

} // verus!
