use usage_widget::duration::Duration;
use usage_widget::fetch::FetchOutcome;
use usage_widget::instant::Instant;
use usage_widget::poll::{
    backoff_duration, base_interval, effective_wait, on_wait_event, PollStep, PollWorker,
    WaitAction, WaitEvent,
};
use usage_widget::usage::{TrayState, UnavailableReason};

#[test]
fn zero_failures_is_the_base_interval() {
    let base = Duration::from_secs(30);
    let cap = Duration::from_secs(300);
    assert_eq!(backoff_duration(0, base, cap), base);
}

#[test]
fn backoff_grows_exponentially_from_base() {
    let base = Duration::from_secs(30);
    let cap = Duration::from_secs(300);
    assert_eq!(backoff_duration(1, base, cap), Duration::from_secs(60));
    assert_eq!(backoff_duration(2, base, cap), Duration::from_secs(120));
    assert_eq!(backoff_duration(3, base, cap), Duration::from_secs(240));
}

#[test]
fn backoff_is_capped_and_never_overflows() {
    let base = Duration::from_secs(30);
    let cap = Duration::from_secs(300);
    assert_eq!(backoff_duration(4, base, cap), cap);
    assert_eq!(backoff_duration(10, base, cap), cap);
    assert_eq!(backoff_duration(1_000_000, base, cap), cap);
}

#[test]
fn a_zero_or_tiny_retry_after_cannot_undercut_the_backoff_schedule() {
    let base = Duration::from_secs(30);
    let cap = Duration::from_secs(300);
    assert_eq!(effective_wait(1, base, cap, Some(0)), backoff_duration(1, base, cap));
    assert_eq!(effective_wait(3, base, cap, Some(1)), backoff_duration(3, base, cap));
}

#[test]
fn a_longer_retry_after_is_still_respected() {
    let base = Duration::from_secs(30);
    let cap = Duration::from_secs(300);
    assert_eq!(effective_wait(1, base, cap, Some(90)), Duration::from_secs(90));
    assert_eq!(effective_wait(1, base, cap, Some(10_000)), cap);
}

#[test]
fn no_retry_after_uses_the_computed_backoff() {
    let base = Duration::from_secs(30);
    let cap = Duration::from_secs(300);
    assert_eq!(effective_wait(2, base, cap, None), backoff_duration(2, base, cap));
}

#[test]
fn fractions_of_a_second_are_kept() {
    let base = Duration::from_millis(1500);
    let cap = Duration::from_secs(300);
    assert_eq!(backoff_duration(0, base, cap), Duration::from_millis(1500));
    assert_eq!(backoff_duration(1, base, cap), Duration::from_secs(3));
    assert_eq!(backoff_duration(7, base, cap), Duration::from_secs(192));
    assert_eq!(backoff_duration(8, base, cap), cap);
    assert_eq!(effective_wait(0, base, cap, Some(1)), base);
    assert_eq!(effective_wait(0, base, cap, Some(2)), Duration::from_secs(2));
    assert_eq!((base.whole_secs(), base.subsec_nanos()), (1, 500_000_000));
}

#[test]
fn huge_bases_end_at_the_cap() {
    let most = Duration { nanos: u128::MAX };
    assert_eq!(backoff_duration(0, most, most), most);
    assert_eq!(backoff_duration(20, most, most), most);
    assert_eq!(backoff_duration(3, most, Duration::from_secs(7)), Duration::from_secs(7));
    assert_eq!(backoff_duration(20, Duration { nanos: 1 }, most), Duration { nanos: 1 << 20 });
    assert_eq!(backoff_duration(21, Duration { nanos: 1 }, most), Duration { nanos: 1 << 20 });
    assert_eq!(backoff_duration(5, Duration { nanos: 0 }, most), Duration { nanos: 0 });
    assert_eq!(Duration::from_secs(u64::MAX).whole_secs(), u64::MAX as u128);
}

#[test]
fn the_interval_has_a_floor() {
    assert_eq!(base_interval(0), 60);
    assert_eq!(base_interval(59), 60);
    assert_eq!(base_interval(61), 61);
}

fn failed(reason: UnavailableReason, retry_after_secs: Option<u64>) -> FetchOutcome {
    FetchOutcome {
        state: TrayState::Unavailable { detail: String::new(), reason },
        retry_after_secs,
    }
}

fn good() -> FetchOutcome {
    let at = Instant::from_timestamp(1_700_000_000, 0).unwrap();
    FetchOutcome {
        state: TrayState::Available {
            five_hour_pct: 1,
            five_hour_resets: at,
            seven_day_pct: 2,
            seven_day_resets: at,
            extra_usage: None,
        },
        retry_after_secs: None,
    }
}

#[test]
fn rate_limiting_backs_off_slowly() {
    let mut w = PollWorker::new();
    let waits: Vec<u128> = (0..5)
        .map(|_| w.after_attempt(&failed(UnavailableReason::RateLimited, None), 60).wait.whole_secs())
        .collect();
    assert_eq!(waits, vec![60, 120, 240, 300, 300]);
    assert_eq!(w.consecutive_failures, 5);
    let step = w.after_attempt(&failed(UnavailableReason::RateLimited, Some(0)), 60);
    assert_eq!(step.wait, Duration::from_secs(300));
    let mut w = PollWorker::new();
    let step = w.after_attempt(&failed(UnavailableReason::RateLimited, Some(200)), 60);
    assert_eq!(
        step,
        PollStep { wait: Duration::from_secs(200), backing_off: true, rebuild_client: false, recovered_after: 0 }
    );
}

#[test]
fn hiccups_are_retried_fast() {
    let mut w = PollWorker::new();
    let waits: Vec<u128> = (0..5)
        .map(|_| w.after_attempt(&failed(UnavailableReason::NetworkError, Some(500)), 300).wait.whole_secs())
        .collect();
    assert_eq!(waits, vec![5, 10, 20, 40, 60]);
    let step = w.after_attempt(&failed(UnavailableReason::NetworkError, None), 300);
    assert!(step.rebuild_client);
    let step = w.after_attempt(&failed(UnavailableReason::Other, None), 300);
    assert!(!step.rebuild_client);
    assert_eq!(step.wait, Duration::from_secs(60));
    let step = w.after_attempt(&failed(UnavailableReason::TokenProblem, None), 300);
    assert!(!step.rebuild_client);
}

#[test]
fn a_success_goes_back_to_the_interval() {
    let mut w = PollWorker::new();
    w.after_attempt(&failed(UnavailableReason::RateLimited, None), 300);
    w.after_attempt(&failed(UnavailableReason::Other, None), 300);
    let step = w.after_attempt(&good(), 120);
    assert_eq!(
        step,
        PollStep { wait: Duration::from_secs(120), backing_off: false, rebuild_client: false, recovered_after: 2 }
    );
    assert_eq!(w.consecutive_failures, 0);
    assert_eq!(w.after_attempt(&good(), 5).wait, Duration::from_secs(60));
}

#[test]
fn the_first_failure_waits_the_chosen_interval() {
    for interval in [60, 120, 300] {
        let mut w = PollWorker::new();
        let step = w.after_attempt(&failed(UnavailableReason::RateLimited, None), interval);
        assert_eq!(step.wait, Duration::from_secs(interval));
    }
    // The cap holds from the first failure on.
    let mut w = PollWorker::new();
    let step = w.after_attempt(&failed(UnavailableReason::RateLimited, None), 600);
    assert_eq!(step.wait, Duration::from_secs(300));
}

#[test]
fn failures_are_counted_without_overflow() {
    let mut w = PollWorker { consecutive_failures: u32::MAX };
    w.after_attempt(&failed(UnavailableReason::Other, None), 300);
    assert_eq!(w.consecutive_failures, u32::MAX);
}

#[test]
fn a_refresh_is_swallowed_while_backing_off() {
    assert_eq!(on_wait_event(true, WaitEvent::Refresh), WaitAction::KeepWaiting);
    assert_eq!(on_wait_event(false, WaitEvent::Refresh), WaitAction::Fetch);
    assert_eq!(on_wait_event(true, WaitEvent::Elapsed), WaitAction::Fetch);
    assert_eq!(on_wait_event(false, WaitEvent::Elapsed), WaitAction::Fetch);
    assert_eq!(on_wait_event(true, WaitEvent::Disconnected), WaitAction::Stop);
}
