use usage_widget::double::Double;
use usage_widget::fetch::{
    authorization, decimal_places, fetch_state, fetch_usage, is_success, parse_extra_usage,
    parse_reset, parse_retry_after, read_access_token, state_with_resets, to_percent, to_state,
    CredentialsRead, ExtraUsage, FetchAttempt, FetchError, LimitWindow, UsageReply, UsageResponse,
};
use usage_widget::instant::Instant;
use usage_widget::usage::{TrayState, UnavailableReason};

fn double(x: f64) -> Double {
    Double { bits: x.to_bits() }
}

fn response(five_hour: f64, five: &str, seven_day: f64, seven: &str) -> UsageResponse {
    UsageResponse {
        five_hour: LimitWindow { utilization: double(five_hour), resets_at: five.to_string() },
        seven_day: LimitWindow { utilization: double(seven_day), resets_at: seven.to_string() },
        extra_usage: None,
    }
}

fn extra(enabled: bool, limit: f64, used_pct: f64) -> ExtraUsage {
    ExtraUsage {
        is_enabled: enabled,
        limit: double(limit),
        limit_text: format!("{limit:.2}"),
        used_text: "42.50".to_string(),
        used_pct: double(used_pct),
        currency: "EUR".to_string(),
    }
}

#[test]
fn percentages_are_rounded_and_kept_in_range() {
    let cases = [
        0.0, 0.4, 0.5, 0.49999999999999994, 1.5, 2.5, 49.4, 49.5, 99.4, 99.5, 100.0, 250.0, -3.0,
        -0.0, 1e300, 5e-324, f64::INFINITY, f64::NEG_INFINITY, f64::NAN, 4294967296.0, 12.34,
    ];
    for x in cases {
        assert_eq!(to_percent(double(x)), x.round().clamp(0.0, 100.0) as u32, "{x}");
    }
    assert_eq!(to_percent(double(53.5)), 54);
}

#[test]
fn a_higher_reading_is_no_lower_a_percentage() {
    let mut last = 0;
    for i in 0..1200 {
        let pct = to_percent(double(i as f64 * 0.1));
        assert!(pct >= last);
        last = pct;
    }
    assert_eq!(last, 100);
}

#[test]
fn decimal_places_are_bounded() {
    assert_eq!(decimal_places(2), 2);
    assert_eq!(decimal_places(10), 10);
    assert_eq!(decimal_places(4_000_000_000), 10);
}

#[test]
fn resets_are_read_from_rfc3339() {
    let r = parse_reset("2024-01-02T03:04:05.250+02:00").unwrap();
    assert_eq!(r.timestamp(), 1_704_157_445);
    assert_eq!(r.subsec_nanos(), 250_000_000);
    assert!(parse_reset("2024-01-02").is_none());
    assert!(parse_reset("soon").is_none());
}

#[test]
fn an_answer_becomes_a_state() {
    let state = to_state(response(41.6, "2024-01-02T03:04:05Z", 7.2, "2024-01-05T00:00:00Z")).unwrap();
    match state {
        TrayState::Available {
            five_hour_pct,
            five_hour_resets,
            seven_day_pct,
            seven_day_resets,
            extra_usage,
        } => {
            assert_eq!(five_hour_pct, 42);
            assert_eq!(five_hour_resets.timestamp(), 1_704_164_645);
            assert_eq!(seven_day_pct, 7);
            assert_eq!(seven_day_resets.timestamp(), 1_704_412_800);
            assert!(extra_usage.is_none());
        }
        TrayState::Unavailable { .. } => panic!("expected data"),
    }
    assert!(to_state(response(1.0, "soon", 2.0, "2024-01-05T00:00:00Z")).is_none());
    assert!(to_state(response(1.0, "2024-01-05T00:00:00Z", 2.0, "soon")).is_none());
}

#[test]
fn a_state_needs_both_resets() {
    let at = Instant::from_timestamp(1_700_000_000, 0);
    assert!(state_with_resets(double(1.0), at, double(2.0), at, None).is_some());
    assert!(state_with_resets(double(1.0), None, double(2.0), at, None).is_none());
    assert!(state_with_resets(double(1.0), at, double(2.0), None, None).is_none());
}

#[test]
fn extra_usage_is_shown_where_it_is_enabled() {
    assert!(parse_extra_usage(None).is_none());
    assert!(parse_extra_usage(Some(extra(false, 850.0, 5.0))).is_none());
    let info = parse_extra_usage(Some(extra(true, 850.0, 12.4))).unwrap();
    assert_eq!(info.pct, 12);
    assert_eq!(info.used, "42.50");
    assert_eq!(info.limit, "850.00");
    assert_eq!(info.currency, "EUR");
    assert_eq!(parse_extra_usage(Some(extra(true, 850.0, 300.0))).unwrap().pct, 100);
    assert_eq!(parse_extra_usage(Some(extra(true, 0.0, f64::NAN))).unwrap().pct, 0);
    assert_eq!(parse_extra_usage(Some(extra(true, -1.0, 80.0))).unwrap().pct, 0);
}

#[test]
fn the_token_is_read_without_white_space() {
    let read = |r| read_access_token("C:\\creds.json", r);
    assert_eq!(read(CredentialsRead::Token("  abc\n".to_string())), Ok("abc".to_string()));
    assert_eq!(
        read(CredentialsRead::Token(" \t\n".to_string())),
        Err("C:\\creds.json has an empty access token".to_string())
    );
    assert_eq!(
        read(CredentialsRead::NoProfile),
        Err("USERPROFILE environment variable is not set".to_string())
    );
    assert_eq!(
        read(CredentialsRead::Unreadable("gone".to_string())),
        Err("could not read C:\\creds.json: gone".to_string())
    );
    assert_eq!(
        read(CredentialsRead::Unparsable("bad".to_string())),
        Err("could not parse C:\\creds.json: bad".to_string())
    );
    assert_eq!(authorization("abc"), "Bearer abc");
}

#[test]
fn retry_after_is_a_number_of_seconds() {
    assert_eq!(parse_retry_after("120"), Some(120));
    assert_eq!(parse_retry_after(" 0 "), Some(0));
    assert_eq!(parse_retry_after("+7"), Some(7));
    assert_eq!(parse_retry_after("18446744073709551615"), Some(u64::MAX));
    assert_eq!(parse_retry_after("18446744073709551616"), None);
    assert_eq!(parse_retry_after("-1"), None);
    assert_eq!(parse_retry_after("+"), None);
    assert_eq!(parse_retry_after(""), None);
    assert_eq!(parse_retry_after("Wed, 21 Oct 2015 07:28:00 GMT"), None);
    for s in ["120", " 0 ", "+7", "-1", "+", "", "1 2", "\u{2003}5\u{3000}", "007", "१"] {
        assert_eq!(parse_retry_after(s), s.trim().parse::<u64>().ok(), "{s:?}");
    }
}

fn refused(code: u16, header: Option<&str>) -> FetchError {
    let reply = UsageReply::Refused {
        code,
        status: format!("{code} x"),
        retry_after: header.map(|h| h.to_string()),
    };
    match fetch_usage(reply) {
        Err(e) => e,
        Ok(_) => panic!("expected a failure"),
    }
}

#[test]
fn a_status_tells_its_reason() {
    assert!(is_success(200) && is_success(299));
    assert!(!is_success(199) && !is_success(300));
    let e = refused(429, Some("90"));
    assert_eq!(e.reason, UnavailableReason::RateLimited);
    assert_eq!(e.retry_after_secs, Some(90));
    assert_eq!(e.message, "usage endpoint returned HTTP 429 x");
    assert_eq!(refused(429, None).retry_after_secs, None);
    assert_eq!(refused(429, Some("later")).retry_after_secs, None);
    for code in [401, 403] {
        let e = refused(code, Some("90"));
        assert_eq!(e.reason, UnavailableReason::TokenProblem);
        assert_eq!(e.retry_after_secs, None);
    }
    let e = refused(500, Some("90"));
    assert_eq!(e.reason, UnavailableReason::Other);
    assert_eq!(e.retry_after_secs, None);
}

#[test]
fn other_failures_of_a_request() {
    match fetch_usage(UsageReply::NotSent("timeout".to_string())) {
        Err(e) => {
            assert_eq!(e.reason, UnavailableReason::NetworkError);
            assert_eq!(e.message, "network error calling usage endpoint: timeout");
            assert_eq!(e.retry_after_secs, None);
        }
        Ok(_) => panic!("expected a failure"),
    }
    match fetch_usage(UsageReply::Unparsable("eof".to_string())) {
        Err(e) => {
            assert_eq!(e.reason, UnavailableReason::Other);
            assert_eq!(e.message, "could not parse usage endpoint response: eof");
            assert_eq!(e.retry_after_secs, None);
        }
        Ok(_) => panic!("expected a failure"),
    }
    let answer = response(1.0, "2024-01-02T03:04:05Z", 2.0, "2024-01-05T00:00:00Z");
    assert!(fetch_usage(UsageReply::Answer(answer)).is_ok());
}

fn reason_of(attempt: FetchAttempt) -> (Option<UnavailableReason>, Option<u64>, String) {
    let outcome = fetch_state(attempt);
    let detail = match &outcome.state {
        TrayState::Unavailable { detail, .. } => detail.clone(),
        TrayState::Available { .. } => String::new(),
    };
    (outcome.state.unavailable_reason(), outcome.retry_after_secs, detail)
}

#[test]
fn every_attempt_ends_in_a_state() {
    assert_eq!(
        reason_of(FetchAttempt::NoToken("no file".to_string())),
        (Some(UnavailableReason::TokenProblem), None, "no file".to_string())
    );
    let e = refused(429, Some("30"));
    assert_eq!(
        reason_of(FetchAttempt::Fetched(Err(e))),
        (
            Some(UnavailableReason::RateLimited),
            Some(30),
            "usage endpoint returned HTTP 429 x".to_string()
        )
    );
    let broken = response(1.0, "never", 2.0, "2024-01-05T00:00:00Z");
    assert_eq!(
        reason_of(FetchAttempt::Fetched(Ok(broken))),
        (
            Some(UnavailableReason::Other),
            None,
            "usage response had an unparseable reset timestamp".to_string()
        )
    );
    let good = response(1.0, "2024-01-02T03:04:05Z", 2.0, "2024-01-05T00:00:00Z");
    assert_eq!(reason_of(FetchAttempt::Fetched(Ok(good))), (None, None, String::new()));
}
