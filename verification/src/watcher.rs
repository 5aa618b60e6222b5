//! The configuration watcher's decisions: when it reports readiness, events
//! and outages, and how long it waits before reconnecting.
use vstd::prelude::*;

use crate::events::ConfigurationEvent;
use crate::text::owned;

verus! {

/// Seconds before the first reconnection attempt.
pub const INITIAL_RETRY_SECONDS: u64 = 1;

/// The longest wait between reconnection attempts, in seconds.
pub const MAX_RETRY_SECONDS: u64 = 30;

/// How long a quiet session must stay healthy before it counts as stable, in
/// nanoseconds.
pub const STABLE_CONNECTION_NANOS: u128 = 30_000_000_000;

/// The wait that follows `delay`: twice as long, at most the maximum.
pub open spec fn following_delay(delay: u64) -> u64 {
    if 2 * delay > MAX_RETRY_SECONDS {
        MAX_RETRY_SECONDS
    } else {
        (2 * delay) as u64
    }
}

/// Exponential reconnection backoff.
#[derive(Debug)]
pub struct RetryBackoff {
    next_delay: u64,
}

impl View for RetryBackoff {
    type V = u64;

    /// The next wait, in seconds.
    closed spec fn view(&self) -> u64 {
        self.next_delay
    }
}

impl RetryBackoff {
    #[verifier::type_invariant]
    closed spec fn within_bounds(self) -> bool {
        INITIAL_RETRY_SECONDS <= self.next_delay <= MAX_RETRY_SECONDS
    }

    /// A backoff whose first wait is the initial one.
    pub fn new() -> (r: Self)
        ensures
            r@ == INITIAL_RETRY_SECONDS,
    {
        RetryBackoff { next_delay: INITIAL_RETRY_SECONDS }
    }

    /// The wait before the next attempt, in seconds; the wait after it doubles
    /// up to the maximum.
    pub fn next_delay(&mut self) -> (r: u64)
        ensures
            r == old(self)@,
            final(self)@ == following_delay(old(self)@),
            INITIAL_RETRY_SECONDS <= r <= MAX_RETRY_SECONDS,
    {
        proof {
            use_type_invariant(&*self);
        }
        let delay = self.next_delay;
        self.next_delay = if delay > MAX_RETRY_SECONDS / 2 {
            MAX_RETRY_SECONDS
        } else {
            delay * 2
        };
        delay
    }

    /// Starts over from the initial wait.
    pub fn reset(&mut self)
        ensures
            final(self)@ == INITIAL_RETRY_SECONDS,
    {
        self.next_delay = INITIAL_RETRY_SECONDS;
    }
}

/// What the watcher reports to the application.
#[derive(Clone, Debug, PartialEq, Eq)]
pub enum ConfigurationWatchEvent {
    /// A watch session is established.
    Ready,
    /// A configuration event arrived.
    Changed(ConfigurationEvent),
    /// Watching is unavailable, with the reason.
    Unavailable(String),
}

/// One thing that happened to the watcher.
#[derive(Debug)]
pub enum WatcherInput {
    /// A session was established.
    Connected,
    /// Establishing a session failed with a message.
    ConnectFailed(String),
    /// Establishing a session took too long.
    ConnectTimedOut,
    /// The session reported a configuration event.
    Changed(ConfigurationEvent),
    /// The session reported good health after running for some nanoseconds.
    Healthy { elapsed_nanos: u128 },
    /// The session failed with a message.
    SessionFailed(String),
    /// The session ended.
    SessionEnded,
}

/// What the watcher does in response.
#[derive(Debug, PartialEq, Eq)]
pub enum WatcherAction {
    /// Nothing to report.
    Continue,
    /// Report an event and keep going.
    Emit(ConfigurationWatchEvent),
    /// Report an outage, then wait this many seconds before reconnecting.
    Retry { event: ConfigurationWatchEvent, delay_seconds: u64 },
}

/// The watcher's backoff and whether the current session has proven stable.
#[derive(Debug)]
pub struct Watcher {
    /// The reconnection backoff.
    pub backoff: RetryBackoff,
    /// Whether the current session has delivered an event or stayed healthy
    /// long enough.
    pub stable: bool,
}

/// The outage action for `reason` with the current backoff.
pub open spec fn retries(old: Watcher, new: Watcher, r: WatcherAction, reason: Seq<char>) -> bool {
    &&& r matches WatcherAction::Retry { event: ConfigurationWatchEvent::Unavailable(m), delay_seconds }
        && m@ == reason && delay_seconds == old.backoff@
    &&& new.backoff@ == following_delay(old.backoff@)
    &&& new.stable == old.stable
}

impl Watcher {
    /// A watcher that has not connected yet.
    pub fn new() -> (r: Self)
        ensures
            r.backoff@ == INITIAL_RETRY_SECONDS,
            !r.stable,
    {
        Watcher { backoff: RetryBackoff::new(), stable: false }
    }

    fn retry(&mut self, reason: String) -> (r: WatcherAction)
        ensures
            retries(*old(self), *final(self), r, reason@),
    {
        let delay_seconds = self.backoff.next_delay();
        WatcherAction::Retry { event: ConfigurationWatchEvent::Unavailable(reason), delay_seconds }
    }

    /// Decides what to do about one input: a new session is reported ready
    /// and starts unproven; an event is reported and proves the session; a
    /// healthy report proves a session that has run long enough; every
    /// failure is reported and followed by the next backoff wait. A proven
    /// session resets the backoff.
    pub fn step(&mut self, input: WatcherInput) -> (r: WatcherAction)
        ensures
            match input {
                WatcherInput::Connected => r == WatcherAction::Emit(ConfigurationWatchEvent::Ready)
                    && !final(self).stable && final(self).backoff@ == old(self).backoff@,
                WatcherInput::ConnectFailed(m) => retries(*old(self), *final(self), r, m@),
                WatcherInput::ConnectTimedOut => retries(
                    *old(self),
                    *final(self),
                    r,
                    "firewalld configuration watcher connection timed out"@,
                ),
                WatcherInput::Changed(event) => r == WatcherAction::Emit(
                    ConfigurationWatchEvent::Changed(event),
                ) && final(self).stable && final(self).backoff@ == INITIAL_RETRY_SECONDS,
                WatcherInput::Healthy { elapsed_nanos } => r == WatcherAction::Continue && if !old(
                    self,
                ).stable && elapsed_nanos >= STABLE_CONNECTION_NANOS {
                    final(self).stable && final(self).backoff@ == INITIAL_RETRY_SECONDS
                } else {
                    final(self).stable == old(self).stable && final(self).backoff@ == old(
                        self,
                    ).backoff@
                },
                WatcherInput::SessionFailed(m) => retries(*old(self), *final(self), r, m@),
                WatcherInput::SessionEnded => retries(
                    *old(self),
                    *final(self),
                    r,
                    "firewalld configuration event stream ended"@,
                ),
            },
    {
        match input {
            WatcherInput::Connected => {
                self.stable = false;
                WatcherAction::Emit(ConfigurationWatchEvent::Ready)
            },
            WatcherInput::ConnectFailed(message) => self.retry(message),
            WatcherInput::ConnectTimedOut => self.retry(
                owned("firewalld configuration watcher connection timed out"),
            ),
            WatcherInput::Changed(event) => {
                self.backoff.reset();
                self.stable = true;
                WatcherAction::Emit(ConfigurationWatchEvent::Changed(event))
            },
            WatcherInput::Healthy { elapsed_nanos } => {
                if !self.stable && elapsed_nanos >= STABLE_CONNECTION_NANOS {
                    self.backoff.reset();
                    self.stable = true;
                }
                WatcherAction::Continue
            },
            WatcherInput::SessionFailed(message) => self.retry(message),
            WatcherInput::SessionEnded => self.retry(
                owned("firewalld configuration event stream ended"),
            ),
        }
    }
}

/// The `n`-th wait of a backoff that is never reset: one second, doubling up
/// to the maximum.
pub open spec fn nth_delay(n: nat) -> u64
    decreases n,
{
    if n == 0 {
        INITIAL_RETRY_SECONDS
    } else {
        following_delay(nth_delay((n - 1) as nat))
    }
}

/// Law: waits never fall below the initial wait nor exceed the maximum, never
/// shrink, and reach the maximum from the sixth wait on.
pub proof fn lemma_backoff_doubles_and_caps(n: nat)
    ensures
        INITIAL_RETRY_SECONDS <= nth_delay(n) <= MAX_RETRY_SECONDS,
        nth_delay(n) <= nth_delay(n + 1),
        n >= 5 ==> nth_delay(n) == MAX_RETRY_SECONDS,
        n < 5 ==> nth_delay(n) == vstd::arithmetic::power2::pow2(n),
    decreases n,
{
    vstd::arithmetic::power2::lemma2_to64();
    if n > 0 {
        lemma_backoff_doubles_and_caps((n - 1) as nat);
        if n < 5 {
            vstd::arithmetic::power2::lemma_pow2_unfold(n);
        }
    }
}

} // verus!
