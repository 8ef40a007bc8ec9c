//! When to poll the usage endpoint next: at the chosen interval while all is
//! well, and more and more slowly while it is not.

use crate::duration::{nanos_of, Duration};
use crate::fetch::FetchOutcome;
use crate::registry::MIN_POLL_INTERVAL_SECS;
use crate::usage::{TrayState, UnavailableReason};
use vstd::arithmetic::power2::{lemma2_to64, lemma_pow2_unfold, pow2};
use vstd::prelude::*;

verus! {

/// The longest wait after the server has said that it is asked too often, in
/// seconds.
pub const MAX_BACKOFF_SECS: u64 = 300;

/// First and longest wait of the schedule for all other failures, in seconds. Those
/// tend to pass within seconds, so they are retried much sooner.
pub const CONNECTIVITY_BACKOFF_BASE_SECS: u64 = 5;

pub const CONNECTIVITY_MAX_BACKOFF_SECS: u64 = 60;

/// From this many failures in a row on, the wait no longer doubles.
pub const MAX_DOUBLINGS: u32 = 20;

/// The lesser of two numbers.
pub open spec fn lesser(a: nat, b: nat) -> nat {
    if a <= b {
        a
    } else {
        b
    }
}

/// The base interval, doubled for each failure in a row, up to `cap`.
pub open spec fn backoff(consecutive_failures: u32, base: nat, cap: nat) -> nat {
    let doublings = lesser(consecutive_failures as nat, MAX_DOUBLINGS as nat);
    lesser(base * pow2(doublings), cap)
}

/// The wait after a failure, in nanoseconds: the back-off, drawn out by what the
/// server asked for where that is longer, up to `cap`.
pub open spec fn wait_after_failure(
    consecutive_failures: u32,
    base: nat,
    cap: nat,
    retry_after_secs: Option<u64>,
) -> nat {
    let computed = backoff(consecutive_failures, base, cap);
    match retry_after_secs {
        Some(server) => if nanos_of(server) > computed {
            lesser(nanos_of(server), cap)
        } else {
            computed
        },
        None => computed,
    }
}

/// Doubling goes on past a cap that it has passed.
proof fn doubling_passes_the_cap(base: nat, m: nat, n: nat, cap: nat)
    requires
        m <= n,
        base * pow2(m) >= cap,
    ensures
        base * pow2(n) >= cap,
{
    if m < n {
        vstd::arithmetic::power2::lemma_pow2_strictly_increases(m, n);
        let (p, q) = (pow2(m), pow2(n));
        assert(base * p <= base * q) by (nonlinear_arith)
            requires
                p <= q,
        ;
    }
}

/// The base interval, doubled for each failure in a row, up to `cap`.
pub fn backoff_duration(consecutive_failures: u32, base: Duration, cap: Duration) -> (wait: Duration)
    ensures
        wait.nanos == backoff(consecutive_failures, base.nanos as nat, cap.nanos as nat),
{
    let doublings: u32 = if consecutive_failures > MAX_DOUBLINGS {
        MAX_DOUBLINGS
    } else {
        consecutive_failures
    };
    let ghost (b, c) = (base.nanos as nat, cap.nanos as nat);
    let mut wait: u128 = base.nanos;
    proof {
        lemma2_to64();
        assert(b * pow2(0) == b) by (nonlinear_arith)
            requires
                pow2(0) == 1,
        ;
    }
    for i in 0..doublings
        invariant
            b == base.nanos,
            c == cap.nanos,
            doublings == lesser(consecutive_failures as nat, MAX_DOUBLINGS as nat),
            wait == b * pow2(i as nat),
    {
        proof {
            lemma_pow2_unfold((i + 1) as nat);
            let p = pow2(i as nat);
            assert(b * (2 * p) == 2 * (b * p)) by (nonlinear_arith);
        }
        if wait >= cap.nanos || wait > cap.nanos - wait {
            proof {
                if wait >= cap.nanos {
                    doubling_passes_the_cap(b, i as nat, doublings as nat, c);
                } else {
                    doubling_passes_the_cap(b, (i + 1) as nat, doublings as nat, c);
                }
            }
            return cap;
        }
        wait = wait + wait;
    }
    if wait <= cap.nanos {
        Duration { nanos: wait }
    } else {
        cap
    }
}

/// The wait after a failure. What the server asks for only ever draws the wait
/// out: it has been seen asking for no wait at all while refusing every request.
pub fn effective_wait(
    consecutive_failures: u32,
    base: Duration,
    cap: Duration,
    retry_after_secs: Option<u64>,
) -> (wait: Duration)
    ensures
        wait.nanos == wait_after_failure(
            consecutive_failures,
            base.nanos as nat,
            cap.nanos as nat,
            retry_after_secs,
        ),
{
    let computed = backoff_duration(consecutive_failures, base, cap);
    match retry_after_secs {
        Some(secs) => {
            let server = Duration::from_secs(secs);
            if server.nanos > computed.nanos {
                if server.nanos <= cap.nanos {
                    server
                } else {
                    cap
                }
            } else {
                computed
            }
        },
        None => computed,
    }
}

/// Without a failure there is no back-off: the wait is the base, to the nanosecond.
pub proof fn no_failure_waits_the_base_interval(base: nat, cap: nat)
    requires
        base <= cap,
    ensures
        backoff(0, base, cap) == base,
{
    lemma2_to64();
    assert(base * pow2(0) == base) by (nonlinear_arith)
        requires
            pow2(0) == 1,
    ;
}

/// One more failure doubles the wait, until it reaches the cap.
pub proof fn each_failure_doubles_the_wait(n: u32, base: nat, cap: nat)
    requires
        n < MAX_DOUBLINGS,
    ensures
        backoff((n + 1) as u32, base, cap) == lesser(2 * backoff(n, base, cap), cap),
{
    lemma_pow2_unfold((n + 1) as nat);
    let p = pow2(n as nat);
    assert(base * (2 * p) == 2 * (base * p)) by (nonlinear_arith);
}

/// The wait never passes the cap, never falls as failures go on, and does not
/// overflow however long they do.
pub proof fn backoff_is_monotone_and_capped(fewer: u32, more: u32, base: nat, cap: nat)
    requires
        fewer <= more,
    ensures
        backoff(fewer, base, cap) <= backoff(more, base, cap) <= cap,
{
    let a = lesser(fewer as nat, MAX_DOUBLINGS as nat);
    let b = lesser(more as nat, MAX_DOUBLINGS as nat);
    if a < b {
        vstd::arithmetic::power2::lemma_pow2_strictly_increases(a, b);
    }
    let (pa, pb) = (pow2(a), pow2(b));
    assert(base * pa <= base * pb) by (nonlinear_arith)
        requires
            pa <= pb,
    ;
}

/// Where enough doublings lead past the cap, the wait is the base doubled for
/// each failure and cut at the cap, however many failures there are.
pub proof fn backoff_is_exponential_up_to_the_cap(n: u32, base: nat, cap: nat)
    requires
        base * pow2(MAX_DOUBLINGS as nat) >= cap,
    ensures
        backoff(n, base, cap) == lesser(base * pow2(n as nat), cap),
{
    if n > MAX_DOUBLINGS {
        doubling_passes_the_cap(base, MAX_DOUBLINGS as nat, n as nat, cap);
    }
}

/// What the server asks for never shortens the wait, is kept where it is longer,
/// and never takes the wait past the cap.
pub proof fn retry_after_only_extends(n: u32, base: nat, cap: nat, server: u64)
    ensures
        wait_after_failure(n, base, cap, Some(server)) >= backoff(n, base, cap),
        wait_after_failure(n, base, cap, Some(server)) <= cap,
        wait_after_failure(n, base, cap, None) == backoff(n, base, cap),
        backoff(n, base, cap) <= nanos_of(server) <= cap ==> wait_after_failure(
            n,
            base,
            cap,
            Some(server),
        ) == nanos_of(server),
{
    backoff_is_monotone_and_capped(n, n, base, cap);
}

// ---------------------------------------------------------------------------
// The worker
// ---------------------------------------------------------------------------

/// What the polling worker keeps from one attempt to the next.
#[derive(Clone, Copy, PartialEq, Eq, Structural, Debug)]
pub struct PollWorker {
    pub consecutive_failures: u32,
}

/// What the worker does after an attempt.
#[derive(Clone, Copy, PartialEq, Eq, Structural, Debug)]
pub struct PollStep {
    /// How long to wait before the next attempt.
    pub wait: Duration,
    /// Whether the wait is a back-off, which a refresh by hand does not cut short.
    pub backing_off: bool,
    /// Whether the next attempt gets a fresh HTTP client, because a stale
    /// connection may be what failed.
    pub rebuild_client: bool,
    /// How many attempts had failed before this one succeeded.
    pub recovered_after: u32,
}

/// What ends or interrupts a wait.
#[derive(Clone, Copy, PartialEq, Eq, Structural, Debug)]
pub enum WaitEvent {
    /// The wait has run its time.
    Elapsed,
    /// The user asks for a refresh.
    Refresh,
    /// The program is going away.
    Disconnected,
}

/// What the worker does on such an event.
#[derive(Clone, Copy, PartialEq, Eq, Structural, Debug)]
pub enum WaitAction {
    /// Fetch now.
    Fetch,
    /// Wait out the rest of the time.
    KeepWaiting,
    /// Stop polling.
    Stop,
}

/// The poll interval that is kept, whatever was chosen.
pub open spec fn base_interval_spec(poll_interval_secs: u64) -> u64 {
    if poll_interval_secs < MIN_POLL_INTERVAL_SECS {
        MIN_POLL_INTERVAL_SECS as u64
    } else {
        poll_interval_secs
    }
}

/// The poll interval that is kept, whatever was chosen.
pub fn base_interval(poll_interval_secs: u64) -> (secs: u64)
    ensures
        secs == base_interval_spec(poll_interval_secs),
{
    if poll_interval_secs < MIN_POLL_INTERVAL_SECS as u64 {
        MIN_POLL_INTERVAL_SECS as u64
    } else {
        poll_interval_secs
    }
}

/// One failure more, as far as they are counted.
pub open spec fn one_more(failures: u32) -> u32 {
    if failures < u32::MAX {
        (failures + 1) as u32
    } else {
        failures
    }
}

/// The wait after a failure that `failures` others in a row came before, in
/// nanoseconds: the slow schedule where the server says that it is asked too often,
/// the fast one otherwise. The first failure waits the schedule's base.
pub open spec fn failure_wait(
    failures: u32,
    reason: UnavailableReason,
    interval: u64,
    retry_after_secs: Option<u64>,
) -> nat {
    if reason == UnavailableReason::RateLimited {
        wait_after_failure(
            failures,
            nanos_of(interval),
            nanos_of(MAX_BACKOFF_SECS),
            retry_after_secs,
        )
    } else {
        wait_after_failure(
            failures,
            nanos_of(CONNECTIVITY_BACKOFF_BASE_SECS),
            nanos_of(CONNECTIVITY_MAX_BACKOFF_SECS),
            None,
        )
    }
}

/// What comes after an attempt that ended in `state`.
pub open spec fn step_after(
    failures: u32,
    state: TrayState,
    retry_after_secs: Option<u64>,
    interval: u64,
) -> PollStep {
    match state {
        TrayState::Available { .. } => PollStep {
            wait: Duration { nanos: nanos_of(interval) as u128 },
            backing_off: false,
            rebuild_client: false,
            recovered_after: failures,
        },
        TrayState::Unavailable { reason, .. } => PollStep {
            wait: Duration {
                nanos: failure_wait(failures, reason, interval, retry_after_secs) as u128,
            },
            backing_off: true,
            rebuild_client: reason == UnavailableReason::NetworkError,
            recovered_after: 0,
        },
    }
}

/// The failures in a row after an attempt that ended in `state`.
pub open spec fn failures_after(failures: u32, state: TrayState) -> u32 {
    match state {
        TrayState::Available { .. } => 0,
        TrayState::Unavailable { .. } => one_more(failures),
    }
}

impl PollWorker {
    /// A worker that has not polled yet.
    pub fn new() -> (w: PollWorker)
        ensures
            w.consecutive_failures == 0,
    {
        PollWorker { consecutive_failures: 0 }
    }

    /// Takes note of how an attempt ended, and says what to do next. The interval
    /// is the one chosen at present, so that a change applies at once.
    pub fn after_attempt(&mut self, outcome: &FetchOutcome, poll_interval_secs: u64) -> (step:
        PollStep)
        ensures
            final(self).consecutive_failures == failures_after(
                old(self).consecutive_failures,
                outcome.state,
            ),
            step == step_after(
                old(self).consecutive_failures,
                outcome.state,
                outcome.retry_after_secs,
                base_interval_spec(poll_interval_secs),
            ),
    {
        let interval: u64 = base_interval(poll_interval_secs);
        match outcome.state.unavailable_reason() {
            None => {
                let recovered_after: u32 = self.consecutive_failures;
                self.consecutive_failures = 0;
                PollStep {
                    wait: Duration::from_secs(interval),
                    backing_off: false,
                    rebuild_client: false,
                    recovered_after,
                }
            },
            Some(reason) => {
                let before: u32 = self.consecutive_failures;
                if before < u32::MAX {
                    self.consecutive_failures = before + 1;
                }
                let wait = if reason == UnavailableReason::RateLimited {
                    effective_wait(
                        before,
                        Duration::from_secs(interval),
                        Duration::from_secs(MAX_BACKOFF_SECS),
                        outcome.retry_after_secs,
                    )
                } else {
                    effective_wait(
                        before,
                        Duration::from_secs(CONNECTIVITY_BACKOFF_BASE_SECS),
                        Duration::from_secs(CONNECTIVITY_MAX_BACKOFF_SECS),
                        None,
                    )
                };
                PollStep {
                    wait,
                    backing_off: true,
                    rebuild_client: reason == UnavailableReason::NetworkError,
                    recovered_after: 0,
                }
            },
        }
    }
}

/// What to do on an event during a wait.
pub open spec fn wait_action(backing_off: bool, event: WaitEvent) -> WaitAction {
    match event {
        WaitEvent::Elapsed => WaitAction::Fetch,
        WaitEvent::Refresh => if backing_off {
            WaitAction::KeepWaiting
        } else {
            WaitAction::Fetch
        },
        WaitEvent::Disconnected => WaitAction::Stop,
    }
}

/// What to do on an event during a wait. A refresh asked for by hand is heeded
/// while all is well and swallowed during a back-off.
pub fn on_wait_event(backing_off: bool, event: WaitEvent) -> (action: WaitAction)
    ensures
        action == wait_action(backing_off, event),
{
    match event {
        WaitEvent::Elapsed => WaitAction::Fetch,
        WaitEvent::Refresh => if backing_off {
            WaitAction::KeepWaiting
        } else {
            WaitAction::Fetch
        },
        WaitEvent::Disconnected => WaitAction::Stop,
    }
}

/// No refresh by hand gets past a back-off: after a failed attempt the next fetch
/// comes when the wait has run its time and not before.
pub proof fn refresh_cannot_defeat_the_backoff(
    failures: u32,
    state: TrayState,
    retry_after_secs: Option<u64>,
    interval: u64,
    event: WaitEvent,
)
    requires
        state is Unavailable,
        wait_action(
            step_after(failures, state, retry_after_secs, interval).backing_off,
            event,
        ) == WaitAction::Fetch,
    ensures
        event == WaitEvent::Elapsed,
{
}

/// A success ends the back-off at once: no failures are left to count, the wait
/// is the chosen interval, and a refresh by hand is heeded again.
pub proof fn success_ends_the_backoff(
    failures: u32,
    state: TrayState,
    retry_after_secs: Option<u64>,
    interval: u64,
)
    requires
        state is Available,
    ensures
        failures_after(failures, state) == 0,
        step_after(failures, state, retry_after_secs, interval).wait.nanos == nanos_of(interval),
        wait_action(
            step_after(failures, state, retry_after_secs, interval).backing_off,
            WaitEvent::Refresh,
        ) == WaitAction::Fetch,
{
}

/// While all is well, and while the server says that it is asked too often, no two
/// fetches by the timer are less than a minute apart, whatever interval was chosen.
pub proof fn polling_keeps_its_floor(
    failures: u32,
    state: TrayState,
    retry_after_secs: Option<u64>,
    poll_interval_secs: u64,
)
    requires
        state is Available || state->reason == UnavailableReason::RateLimited,
    ensures
        step_after(
            failures,
            state,
            retry_after_secs,
            base_interval_spec(poll_interval_secs),
        ).wait.nanos >= nanos_of(MIN_POLL_INTERVAL_SECS as u64),
{
    if state is Unavailable {
        failure_waits_are_bounded(failures, state, retry_after_secs, poll_interval_secs);
    }
}

/// The schedules start at their base and double from there up to their cap: failure
/// number `k` in a row waits the base doubled `k - 1` times, which is the poll interval
/// where the server says that it is asked too often, and five seconds otherwise.
pub proof fn schedules_start_at_their_base(k: u32, state: TrayState, poll_interval_secs: u64)
    requires
        k >= 1,
        state is Unavailable,
    ensures
        step_after(
            (k - 1) as u32,
            state,
            None,
            base_interval_spec(poll_interval_secs),
        ).wait.nanos == if state->reason == UnavailableReason::RateLimited {
            lesser(
                nanos_of(base_interval_spec(poll_interval_secs)) * pow2((k - 1) as nat),
                nanos_of(MAX_BACKOFF_SECS),
            )
        } else {
            lesser(
                nanos_of(CONNECTIVITY_BACKOFF_BASE_SECS) * pow2((k - 1) as nat),
                nanos_of(CONNECTIVITY_MAX_BACKOFF_SECS),
            )
        },
{
    let n = (k - 1) as u32;
    let interval = nanos_of(base_interval_spec(poll_interval_secs));
    let first = nanos_of(CONNECTIVITY_BACKOFF_BASE_SECS);
    let p = pow2(MAX_DOUBLINGS as nat);
    lemma2_to64();
    assert(interval * p >= nanos_of(MAX_BACKOFF_SECS)) by (nonlinear_arith)
        requires
            interval >= 60_000_000_000,
            p == 0x10_0000,
            nanos_of(MAX_BACKOFF_SECS) == 300_000_000_000,
    ;
    backoff_is_exponential_up_to_the_cap(n, interval, nanos_of(MAX_BACKOFF_SECS));
    backoff_is_exponential_up_to_the_cap(n, first, nanos_of(CONNECTIVITY_MAX_BACKOFF_SECS));
}

/// A wait after a failure is positive and bounded: at most five minutes where the
/// server says that it is asked too often, at most one otherwise.
pub proof fn failure_waits_are_bounded(
    failures: u32,
    state: TrayState,
    retry_after_secs: Option<u64>,
    poll_interval_secs: u64,
)
    requires
        state is Unavailable,
    ensures
        ({
            let wait = step_after(
                failures,
                state,
                retry_after_secs,
                base_interval_spec(poll_interval_secs),
            ).wait.nanos;
            &&& 0 < wait <= nanos_of(MAX_BACKOFF_SECS)
            &&& state->reason != UnavailableReason::RateLimited ==> wait <= nanos_of(
                CONNECTIVITY_MAX_BACKOFF_SECS,
            )
            &&& state->reason == UnavailableReason::RateLimited ==> wait >= nanos_of(
                MIN_POLL_INTERVAL_SECS as u64,
            )
        }),
{
    let n = failures;
    let interval = nanos_of(base_interval_spec(poll_interval_secs));
    let (slow, fast) = (nanos_of(MAX_BACKOFF_SECS), nanos_of(CONNECTIVITY_MAX_BACKOFF_SECS));
    let first = nanos_of(CONNECTIVITY_BACKOFF_BASE_SECS);
    backoff_is_monotone_and_capped(0, n, interval, slow);
    backoff_is_monotone_and_capped(0, n, first, fast);
    lemma2_to64();
    assert(interval * pow2(0) == interval && first * pow2(0) == first) by (nonlinear_arith)
        requires
            pow2(0) == 1,
    ;
    match retry_after_secs {
        Some(server) => {
            retry_after_only_extends(n, interval, slow, server);
        },
        None => {},
    }
}

/// The base of the schedules is the chosen interval, or a minute where that is longer.
pub proof fn the_base_is_at_least_a_minute(poll_interval_secs: u64)
    ensures
        poll_interval_secs >= 60 ==> base_interval_spec(poll_interval_secs) == poll_interval_secs,
        poll_interval_secs < 60 ==> base_interval_spec(poll_interval_secs) == 60,
{
}

/// For any base and cap, the wait is the longer of the back-off and what the server asks
/// for, cut at the cap; and the back-off doubles with each of the first twenty failures
/// and stays as it is from there.
pub proof fn the_longer_wait_counts(n: u32, base: nat, cap: nat, server: u64)
    ensures
        ({
            let own = base * pow2(if n < 20 {
                n as nat
            } else {
                20
            });
            let asked = server as nat * 1_000_000_000;
            let longer = if own > asked {
                own
            } else {
                asked
            };
            &&& wait_after_failure(n, base, cap, Some(server)) == (if longer < cap {
                longer
            } else {
                cap
            })
            &&& wait_after_failure(n, base, cap, None) == (if own < cap {
                own
            } else {
                cap
            })
        }),
{
}

/// Where the server says that it is asked too often, it is given the time that it asks
/// for, up to five minutes, after every failure and whatever the interval; and never
/// less than it would be given without asking.
pub proof fn the_server_gets_the_wait_it_asks_for(
    failures: u32,
    state: TrayState,
    secs: u64,
    interval: u64,
)
    requires
        state is Unavailable,
        state->reason == UnavailableReason::RateLimited,
    ensures
        ({
            let wait = step_after(failures, state, Some(secs), interval).wait.nanos;
            &&& wait >= lesser(nanos_of(secs), nanos_of(MAX_BACKOFF_SECS))
            &&& secs <= 300 ==> wait >= secs * 1_000_000_000
            &&& secs > 300 ==> wait == 300_000_000_000
            &&& wait >= step_after(failures, state, None, interval).wait.nanos
            &&& wait <= 300_000_000_000
        }),
{
    retry_after_only_extends(failures, nanos_of(interval), nanos_of(MAX_BACKOFF_SECS), secs);
}

/// After the server has said that it is asked too often, the wait is the longer of two:
/// the chosen interval, of a minute at least, doubled for each failure that came before,
/// and what the server asks for; but five minutes at most.
pub proof fn rate_limiting_waits_the_longer_time(
    failures: u32,
    state: TrayState,
    retry_after_secs: Option<u64>,
    poll_interval_secs: u64,
)
    requires
        state is Unavailable,
        state->reason == UnavailableReason::RateLimited,
    ensures
        ({
            let base: nat = if poll_interval_secs < 60 {
                60
            } else {
                poll_interval_secs as nat
            };
            let own = base * 1_000_000_000 * pow2(failures as nat);
            let asked: nat = match retry_after_secs {
                Some(secs) => secs as nat * 1_000_000_000,
                None => 0,
            };
            let longer = if own > asked {
                own
            } else {
                asked
            };
            step_after(
                failures,
                state,
                retry_after_secs,
                base_interval_spec(poll_interval_secs),
            ).wait.nanos == if longer < 300_000_000_000 {
                longer
            } else {
                300_000_000_000
            }
        }),
{
    let base = nanos_of(base_interval_spec(poll_interval_secs));
    let cap = nanos_of(MAX_BACKOFF_SECS);
    let p = pow2(MAX_DOUBLINGS as nat);
    lemma2_to64();
    assert(base * p >= cap) by (nonlinear_arith)
        requires
            base >= 60_000_000_000,
            p == 0x10_0000,
            cap == 300_000_000_000,
    ;
    backoff_is_exponential_up_to_the_cap(failures, base, cap);
}

/// After any other failure the wait is five seconds, doubled for each failure that came
/// before, and a minute at most; what a server asks for and the chosen interval do not
/// count.
pub proof fn other_failures_are_retried_soon(
    failures: u32,
    state: TrayState,
    retry_after_secs: Option<u64>,
    interval: u64,
)
    requires
        state is Unavailable,
        state->reason != UnavailableReason::RateLimited,
    ensures
        ({
            let own = 5_000_000_000 * pow2(failures as nat);
            step_after(failures, state, retry_after_secs, interval).wait.nanos == if own
                < 60_000_000_000 {
                own as int
            } else {
                60_000_000_000
            }
        }),
{
    lemma2_to64();
    backoff_is_exponential_up_to_the_cap(
        failures,
        nanos_of(CONNECTIVITY_BACKOFF_BASE_SECS),
        nanos_of(CONNECTIVITY_MAX_BACKOFF_SECS),
    );
}

/// A success waits the chosen interval and tells how many failures it ended, and a
/// failure backs off, tells nothing of the kind and counts as one more; it is a network
/// error, and nothing else, that gets a fresh client.
pub proof fn steps_tell_how_the_attempt_ended(
    failures: u32,
    state: TrayState,
    retry_after_secs: Option<u64>,
    interval: u64,
)
    ensures
        ({
            let step = step_after(failures, state, retry_after_secs, interval);
            &&& step.backing_off <==> state is Unavailable
            &&& step.rebuild_client <==> state is Unavailable && state->reason
                == UnavailableReason::NetworkError
            &&& state is Available ==> step.recovered_after == failures && step.wait.nanos
                == interval * 1_000_000_000 && failures_after(failures, state) == 0
            &&& state is Unavailable ==> step.recovered_after == 0 && failures_after(failures, state)
                == (if failures < 0xffff_ffff {
                failures + 1
            } else {
                0xffff_ffff
            })
        }),
{
}

/// A wait ends in a fetch when it has run its time, and before that where a refresh is
/// asked for and it is no back-off; polling stops when the program goes away, and then
/// alone; and nothing but a refresh leaves it waiting.
pub proof fn waits_end_as_they_should(backing_off: bool, event: WaitEvent)
    ensures
        wait_action(backing_off, event) == WaitAction::Fetch <==> event == WaitEvent::Elapsed
            || event == WaitEvent::Refresh && !backing_off,
        wait_action(backing_off, event) == WaitAction::Stop <==> event == WaitEvent::Disconnected,
        wait_action(backing_off, event) == WaitAction::KeepWaiting <==> event == WaitEvent::Refresh
            && backing_off,
{
}

} // verus!
