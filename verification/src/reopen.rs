//! Attempts to reopen a lost output device.
use vstd::prelude::*;

use crate::limits::{elapsed, time_since, DEVICE_REOPEN_ATTEMPTS, DEVICE_REOPEN_RETRY_AFTER};

verus! {

/// What an attempt to recover the output device came to.
#[derive(Clone, Copy, Debug, PartialEq, Eq, Structural)]
pub enum Reopen {
    /// A fresh sink is in place, paused and empty: restage onto it.
    Reopened,
    /// An attempt just failed; another follows after
    /// [`DEVICE_REOPEN_RETRY_AFTER`].
    Retrying,
    /// Nothing happened: the next attempt is not due yet, or the device was
    /// already given up on.
    Waiting,
    /// The last attempt failed. Reported once; the caller ends the session.
    GaveUp,
}

/// Whether another attempt is due after `attempts` of them, the last one
/// `since_last` ago.
pub open spec fn attempt_due(attempts: u8, since_last: Option<u128>) -> bool {
    &&& attempts < DEVICE_REOPEN_ATTEMPTS
    &&& since_last matches Some(d) ==> d >= DEVICE_REOPEN_RETRY_AFTER
}

/// Whether another reopen attempt is due: not within
/// [`DEVICE_REOPEN_RETRY_AFTER`] of the last one, and never past
/// [`DEVICE_REOPEN_ATTEMPTS`].
pub fn reopen_due(attempts: u8, since_last: Option<u128>) -> (due: bool)
    ensures
        due == attempt_due(attempts, since_last),
{
    attempts < DEVICE_REOPEN_ATTEMPTS && match since_last {
        Some(d) => d >= DEVICE_REOPEN_RETRY_AFTER,
        None => true,
    }
}

/// The attempts made since the device was lost.
pub struct RecoveryView {
    pub attempts: u8,
    pub last_attempt: Option<u128>,
}

impl RecoveryView {
    /// No attempt made.
    pub open spec fn fresh() -> RecoveryView {
        RecoveryView { attempts: 0, last_attempt: None }
    }

    /// Never more attempts than the budget holds.
    pub open spec fn valid(self) -> bool {
        self.attempts <= DEVICE_REOPEN_ATTEMPTS
    }

    /// How long ago the last attempt was.
    pub open spec fn since_last(self, now: u128) -> Option<u128> {
        match self.last_attempt {
            Some(at) => Some(elapsed(at, now) as u128),
            None => None,
        }
    }

    /// Whether an attempt is due now.
    pub open spec fn due(self, now: u128) -> bool {
        attempt_due(self.attempts, self.since_last(now))
    }

    /// One attempt more, begun now.
    pub open spec fn begun(self, now: u128) -> RecoveryView {
        RecoveryView { attempts: (self.attempts + 1) as u8, last_attempt: Some(now) }
    }

    /// A tick at `now` whose attempt, where it makes one, fails.
    pub open spec fn failing_tick(self, now: u128) -> (RecoveryView, Reopen) {
        if self.due(now) {
            (self.begun(now), failure_report((self.attempts + 1) as u8))
        } else {
            (self, Reopen::Waiting)
        }
    }

    /// The state after failing ticks at these times.
    pub open spec fn after_failing_ticks(self, times: Seq<u128>) -> RecoveryView
        decreases times.len(),
    {
        if times.len() == 0 {
            self
        } else {
            self.after_failing_ticks(times.drop_last()).failing_tick(times.last()).0
        }
    }

    /// What the last of some failing ticks reports.
    pub open spec fn last_report(self, times: Seq<u128>) -> Reopen
        recommends
            times.len() > 0,
    {
        self.after_failing_ticks(times.drop_last()).failing_tick(times.last()).1
    }

    /// What the tick at index `i` of some failing ticks reports.
    pub open spec fn report(self, times: Seq<u128>, i: int) -> Reopen {
        self.last_report(times.take(i + 1))
    }
}

/// What the failure of the attempt with this number means.
pub open spec fn failure_report(attempt: u8) -> Reopen {
    if attempt >= DEVICE_REOPEN_ATTEMPTS {
        Reopen::GaveUp
    } else {
        Reopen::Retrying
    }
}

/// What a tick that asks for recovery is to do.
#[derive(Clone, Copy, Debug, PartialEq, Eq, Structural)]
pub enum Recovery {
    /// Nothing; this is the outcome.
    Settled(Reopen),
    /// Open the default device; this is the number of the attempt.
    Attempt { number: u8 },
}

/// The attempts made since the device was lost.
pub(crate) struct ReopenState {
    pub(crate) attempts: u8,
    pub(crate) last_attempt: Option<u128>,
}

impl View for ReopenState {
    type V = RecoveryView;

    open(crate) spec fn view(&self) -> RecoveryView {
        RecoveryView { attempts: self.attempts, last_attempt: self.last_attempt }
    }
}

impl Default for ReopenState {
    fn default() -> (state: Self)
        ensures
            state@ == RecoveryView::fresh(),
    {
        ReopenState { attempts: 0, last_attempt: None }
    }
}

impl ReopenState {
    /// Begins an attempt where one is due.
    pub(crate) fn begin_attempt(&mut self, now: u128) -> (recovery: Recovery)
        requires
            old(self)@.valid(),
        ensures
            final(self)@.valid(),
            if old(self)@.due(now) {
                &&& final(self)@ == old(self)@.begun(now)
                &&& recovery == (Recovery::Attempt { number: final(self)@.attempts })
            } else {
                &&& final(self)@ == old(self)@
                &&& recovery == Recovery::Settled(Reopen::Waiting)
            },
    {
        let since_last = match self.last_attempt {
            Some(at) => Some(time_since(at, now)),
            None => None,
        };
        if !reopen_due(self.attempts, since_last) {
            return Recovery::Settled(Reopen::Waiting);
        }
        self.attempts = self.attempts + 1;
        self.last_attempt = Some(now);
        Recovery::Attempt { number: self.attempts }
    }
}

/// What to report of the attempt with this number when it failed.
pub(crate) fn report_failure(attempt: u8) -> (report: Reopen)
    ensures
        report == failure_report(attempt),
{
    if attempt >= DEVICE_REOPEN_ATTEMPTS {
        Reopen::GaveUp
    } else {
        Reopen::Retrying
    }
}

impl RecoveryView {
    /// How many of some failing ticks made an attempt.
    pub open spec fn attempts_in(self, times: Seq<u128>) -> nat
        decreases times.len(),
    {
        if times.len() == 0 {
            0
        } else {
            self.attempts_in(times.drop_last()) + if self.last_report(times) == Reopen::Waiting {
                0nat
            } else {
                1nat
            }
        }
    }
}

/// However often a tick asks for a device that never comes back, no more attempts
/// are made than the budget holds.
pub proof fn law_attempts_are_bounded(start: RecoveryView, times: Seq<u128>)
    requires
        start.valid(),
    ensures
        start.after_failing_ticks(times).valid(),
        start.after_failing_ticks(times).attempts == start.attempts + start.attempts_in(times),
        start.attempts + start.attempts_in(times) <= DEVICE_REOPEN_ATTEMPTS,
    decreases times.len(),
{
    if times.len() > 0 {
        law_attempts_are_bounded(start, times.drop_last());
    }
}

/// The state before the tick at index `i` and the one after it.
proof fn lemma_tick(start: RecoveryView, times: Seq<u128>, i: int)
    requires
        0 <= i < times.len(),
    ensures
        start.after_failing_ticks(times.take(i + 1)) == start.after_failing_ticks(
            times.take(i),
        ).failing_tick(times[i]).0,
        start.report(times, i) == start.after_failing_ticks(times.take(i)).failing_tick(times[i]).1,
{
    assert(times.take(i + 1).drop_last() =~= times.take(i));
}

/// A device that never comes back is given up on at most once: after the tick that
/// reports it, every later one only waits.
pub proof fn law_given_up_once(start: RecoveryView, times: Seq<u128>, i: int, j: int)
    requires
        start.valid(),
        0 <= i < j < times.len(),
        start.report(times, i) == Reopen::GaveUp,
    ensures
        start.report(times, j) == Reopen::Waiting,
{
    law_attempts_are_bounded(start, times.take(i));
    lemma_tick(start, times, i);
    lemma_stays_given_up(start, times, i, j);
    lemma_tick(start, times, j);
}

proof fn lemma_stays_given_up(start: RecoveryView, times: Seq<u128>, i: int, j: int)
    requires
        0 <= i < j < times.len(),
        start.after_failing_ticks(times.take(i + 1)).attempts >= DEVICE_REOPEN_ATTEMPTS,
    ensures
        start.after_failing_ticks(times.take(j)).attempts >= DEVICE_REOPEN_ATTEMPTS,
    decreases j - i,
{
    if j > i + 1 {
        lemma_stays_given_up(start, times, i, j - 1);
        lemma_tick(start, times, j - 1);
    }
}

/// With ticks at least the retry spacing apart, a device that never comes back is
/// reported as retrying by each attempt but the last of the budget, then as given
/// up on, once, and as waiting ever after.
pub proof fn law_lost_device_is_given_up_on(times: Seq<u128>, i: int)
    requires
        forall|k: int|
            0 < k < times.len() ==> #[trigger] times[k] >= times[k - 1] + DEVICE_REOPEN_RETRY_AFTER,
        0 <= i < times.len(),
    ensures
        RecoveryView::fresh().report(times, i) == if i + 1 < DEVICE_REOPEN_ATTEMPTS {
            Reopen::Retrying
        } else if i + 1 == DEVICE_REOPEN_ATTEMPTS {
            Reopen::GaveUp
        } else {
            Reopen::Waiting
        },
{
    lemma_spaced_ticks(times, i);
    lemma_tick(RecoveryView::fresh(), times, i);
}

proof fn lemma_spaced_ticks(times: Seq<u128>, n: int)
    requires
        forall|k: int|
            0 < k < times.len() ==> #[trigger] times[k] >= times[k - 1] + DEVICE_REOPEN_RETRY_AFTER,
        0 <= n <= times.len(),
    ensures
        ({
            let state = RecoveryView::fresh().after_failing_ticks(times.take(n));
            &&& state.attempts == if n <= DEVICE_REOPEN_ATTEMPTS {
                n
            } else {
                DEVICE_REOPEN_ATTEMPTS as int
            }
            &&& n == 0 ==> state.last_attempt is None
            &&& 0 < n <= DEVICE_REOPEN_ATTEMPTS ==> state.last_attempt == Some(times[n - 1])
        }),
    decreases n,
{
    if n > 0 {
        lemma_spaced_ticks(times, n - 1);
        lemma_tick(RecoveryView::fresh(), times, n - 1);
    }
}

/// Two attempts are never closer together than the retry spacing.
pub proof fn law_attempts_are_spaced(start: RecoveryView, times: Seq<u128>, i: int, j: int)
    requires
        0 <= i < j < times.len(),
        start.report(times, i) != Reopen::Waiting,
        start.report(times, j) != Reopen::Waiting,
    ensures
        times[j] >= times[i] + DEVICE_REOPEN_RETRY_AFTER,
{
    lemma_tick(start, times, i);
    lemma_last_attempt_not_before(start, times, i, j);
    lemma_tick(start, times, j);
}

proof fn lemma_last_attempt_not_before(start: RecoveryView, times: Seq<u128>, i: int, j: int)
    requires
        0 <= i < j < times.len(),
        start.report(times, i) != Reopen::Waiting,
    ensures
        start.after_failing_ticks(times.take(j)).last_attempt matches Some(at) && at >= times[i],
    decreases j - i,
{
    if j == i + 1 {
        lemma_tick(start, times, i);
    } else {
        lemma_last_attempt_not_before(start, times, i, j - 1);
        lemma_tick(start, times, j - 1);
    }
}

/// The first attempt is due at once, and so it is again after a recovery, which
/// starts the count over.
pub proof fn law_first_attempt_is_due(now: u128)
    ensures
        RecoveryView::fresh().due(now),
{
}

} // verus!
