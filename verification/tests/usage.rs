use usage_widget::instant::{Instant, WEEKLY_WINDOW_SECS};
use usage_widget::usage::{
    bar, fit_tooltip, format_relative, format_weekday_time, project_run_rate, project_weekly,
    relative_label, ExtraUsageInfo, Product, TrayState, UnavailableReason, WeeklyProjection,
    MIN_ELAPSED_SECS, TOOLTIP_MAX_CHARS,
};

fn resets_in(secs_from_now: i64, now: Instant) -> Instant {
    Instant::from_timestamp(now.timestamp() + secs_from_now, now.subsec_nanos()).unwrap()
}

#[test]
fn projection_scales_current_usage_by_time_remaining() {
    let now = Instant::now();
    let resets = resets_in(WEEKLY_WINDOW_SECS / 2, now);
    let p = project_weekly(40, resets, now);
    assert_eq!(p.projected_pct, 80);
    assert!(!p.over_limit);
    assert_eq!(p.tag(), "under");
}

#[test]
fn projection_flags_overuse_when_on_pace_to_exceed() {
    let now = Instant::now();
    let resets = resets_in(WEEKLY_WINDOW_SECS / 2, now);
    let p = project_weekly(70, resets, now);
    assert_eq!(p.projected_pct, 140);
    assert!(p.over_limit);
    assert_eq!(p.tag(), "over");
}

#[test]
fn projection_at_end_of_window_equals_current_usage() {
    let now = Instant::now();
    let resets = resets_in(1, now);
    let p = project_weekly(63, resets, now);
    assert_eq!(p.projected_pct, 63);
    assert!(!p.over_limit);
}

#[test]
fn first_hour_noise_is_capped_not_absurd() {
    let now = Instant::now();
    let resets = resets_in(WEEKLY_WINDOW_SECS - 300, now);
    let p = project_weekly(5, resets, now);
    assert_eq!(p.projected_pct, 840);
    assert!(p.over_limit);
}

#[test]
fn projection_is_clamped_to_999() {
    let now = Instant::now();
    let resets = resets_in(WEEKLY_WINDOW_SECS - 60, now);
    let p = project_weekly(100, resets, now);
    assert_eq!(p.projected_pct, 999);
}

#[test]
fn zero_usage_projects_to_zero() {
    let now = Instant::now();
    let resets = resets_in(WEEKLY_WINDOW_SECS / 4, now);
    let p = project_weekly(0, resets, now);
    assert_eq!(p.projected_pct, 0);
    assert!(!p.over_limit);
    assert_eq!(p.tag(), "under");
}

fn product() -> Product {
    Product { name: "Widget".to_string(), command: "widget".to_string() }
}

fn utf16_len(s: &str) -> usize {
    s.encode_utf16().count()
}

fn worst_case_ok_state() -> TrayState {
    let now = Instant::now();
    TrayState::Available {
        five_hour_pct: 100,
        five_hour_resets: resets_in((4 * 60 + 59) * 60, now),
        seven_day_pct: 100,
        seven_day_resets: resets_in(WEEKLY_WINDOW_SECS - MIN_ELAPSED_SECS, now),
        extra_usage: None,
    }
}

#[test]
fn tooltip_worst_case_fits_the_shell_limit() {
    let tip = worst_case_ok_state().tooltip(&product());
    assert!(
        utf16_len(&tip) <= TOOLTIP_MAX_CHARS,
        "tooltip is {} units, over the {TOOLTIP_MAX_CHARS} limit: {tip:?}",
        utf16_len(&tip)
    );
}

#[test]
fn tooltip_keeps_the_whole_projected_line() {
    let tip = worst_case_ok_state().tooltip(&product());
    assert!(tip.contains("Projected 999%"), "projected line missing: {tip:?}");
    assert!(tip.contains("Session"), "session line missing: {tip:?}");
    assert!(tip.contains("Weekly"), "weekly line missing: {tip:?}");
    assert_eq!(tip.lines().count(), 3, "expected 3 tooltip lines: {tip:?}");
}

#[test]
fn unavailable_tooltips_fit_the_shell_limit() {
    for reason in [
        UnavailableReason::TokenProblem,
        UnavailableReason::RateLimited,
        UnavailableReason::NetworkError,
        UnavailableReason::Other,
    ] {
        let tip = TrayState::Unavailable {
            detail: "irrelevant to the tooltip".to_string(),
            reason,
        }
        .tooltip(&product());
        assert!(
            utf16_len(&tip) <= TOOLTIP_MAX_CHARS,
            "{reason:?} tooltip is {} units, over the {TOOLTIP_MAX_CHARS} limit: {tip:?}",
            utf16_len(&tip)
        );
    }

    let tip = TrayState::Unavailable {
        detail: String::new(),
        reason: UnavailableReason::TokenProblem,
    }
    .tooltip(&product());
    assert!(tip.contains("Run `widget` once to refresh."), "{tip:?}");
}

#[test]
fn fit_tooltip_passes_short_text_through_untouched() {
    let short = "Session 42% 3h12m".to_string();
    assert_eq!(fit_tooltip(short.clone()), short);
}

#[test]
fn fit_tooltip_truncates_on_a_character_boundary() {
    let long = "é".repeat(100);
    let fitted = fit_tooltip(long);
    assert_eq!(utf16_len(&fitted), TOOLTIP_MAX_CHARS);
    assert!(fitted.chars().all(|c| c == 'é'));
}

#[test]
fn fit_tooltip_never_splits_a_surrogate_pair() {
    let fitted = fit_tooltip("\u{1f600}".repeat(40));
    assert_eq!(utf16_len(&fitted), 62);
    assert_eq!(fitted.chars().count(), 31);
    assert_eq!(fit_tooltip(fitted.clone()), fitted);
}

#[test]
fn run_rate_is_the_nearest_percentage() {
    // A day into the week, 12% used: 12 * 7 = 84.
    assert_eq!(project_run_rate(12, 86_400).projected_pct, 84);
    // Half of one percent is rounded up.
    assert_eq!(project_run_rate(1, 11_520).projected_pct, 53);
    // Before the week began, and after it has ended.
    assert_eq!(project_run_rate(3, -5).projected_pct, 504);
    assert_eq!(project_run_rate(63, 700_000).projected_pct, 63);
    assert!(!project_run_rate(100, 604_800).over_limit);
    assert!(project_run_rate(101, 604_800).over_limit);
}

#[test]
fn more_usage_and_an_earlier_hour_project_no_lower() {
    let p: WeeklyProjection = project_run_rate(20, 200_000);
    assert!(project_run_rate(21, 200_000).projected_pct >= p.projected_pct);
    assert!(project_run_rate(20, 199_000).projected_pct >= p.projected_pct);
}

#[test]
fn the_projection_never_rises_as_time_goes_on() {
    let now = Instant::from_timestamp(1_700_000_000, 0).unwrap();
    let reset = resets_in(400_000, now);
    let mut last = project_weekly(12, reset, now).projected_pct;
    for minutes in 0..7_000 {
        let p = project_weekly(12, reset, resets_in(minutes * 60, now)).projected_pct;
        assert!(p <= last);
        last = p;
    }
    assert_eq!(last, 12);
}

#[test]
fn relative_labels() {
    assert_eq!(relative_label(-10), "now");
    assert_eq!(relative_label(0), "now");
    assert_eq!(relative_label(1), "0m");
    assert_eq!(relative_label(59), "0m");
    assert_eq!(relative_label(60), "1m");
    assert_eq!(relative_label(2_400), "40m");
    assert_eq!(relative_label(3_600), "1h00m");
    assert_eq!(relative_label(13_200), "3h40m");
    assert_eq!(relative_label(360_060), "100h01m");
}

#[test]
fn relative_time_is_taken_between_two_instants() {
    let now = Instant::from_timestamp(1_700_000_000, 500_000_000).unwrap();
    let reset = Instant::from_timestamp(1_700_013_201, 0).unwrap();
    assert_eq!(format_relative(reset, now), "3h40m");
    assert_eq!(format_relative(now, reset), "now");
}

#[test]
fn weekday_time_has_its_shape() {
    let text = format_weekday_time(Instant::from_timestamp(1_700_000_000, 0).unwrap());
    let chars: Vec<char> = text.chars().collect();
    assert_eq!(chars.len(), 9, "{text}");
    let days = ["Sun", "Mon", "Tue", "Wed", "Thu", "Fri", "Sat"];
    assert!(days.contains(&&text[..3]), "{text}");
    assert_eq!(chars[3], ' ');
    assert_eq!(chars[6], ':');
    // A day later it is the next day at the same time, away from clock changes.
    let later = format_weekday_time(Instant::from_timestamp(1_700_000_000 + 7 * 86_400, 0).unwrap());
    assert_eq!(later, text);
}

#[test]
fn bars_are_filled_to_the_nearest_cell() {
    assert_eq!(bar(0, 10), "\u{2591}".repeat(10));
    assert_eq!(bar(12, 10), "\u{2588}\u{2591}\u{2591}\u{2591}\u{2591}\u{2591}\u{2591}\u{2591}\u{2591}\u{2591}");
    assert_eq!(bar(45, 10).chars().filter(|c| *c == '\u{2588}').count(), 5);
    assert_eq!(bar(54, 10).chars().filter(|c| *c == '\u{2588}').count(), 5);
    assert_eq!(bar(100, 10), "\u{2588}".repeat(10));
    assert_eq!(bar(250, 10), "\u{2588}".repeat(10));
    assert_eq!(bar(70, 0), "");
    for pct in 0..=120u32 {
        let float = (((pct.min(100) as f64) / 100.0) * 10.0).round() as usize;
        let filled = bar(pct, 10).chars().filter(|c| *c == '\u{2588}').count();
        assert_eq!(filled, float, "{pct}");
        assert_eq!(bar(pct, 10).chars().count(), 10);
    }
}

fn state(extra_usage: Option<ExtraUsageInfo>) -> TrayState {
    let now = Instant::now();
    TrayState::Available {
        five_hour_pct: 12,
        five_hour_resets: resets_in(13_230, now),
        seven_day_pct: 54,
        seven_day_resets: resets_in(WEEKLY_WINDOW_SECS / 2 + 30, now),
        extra_usage,
    }
}

#[test]
fn the_tooltip_has_a_line_for_each_window() {
    let s = state(None);
    let tip = s.tooltip(&product());
    let lines: Vec<&str> = tip.lines().collect();
    assert_eq!(lines.len(), 3);
    assert_eq!(lines[0], "Session 12% 3h40m");
    assert!(lines[1].starts_with("Weekly 54% "), "{tip}");
    assert_eq!(lines[2], "Projected 108% over");
}

#[test]
fn the_tooltip_at_a_given_moment() {
    let now = Instant::from_timestamp(1_700_000_000, 0).unwrap();
    let s = TrayState::Available {
        five_hour_pct: 12,
        five_hour_resets: Instant::from_timestamp(1_700_013_200, 0).unwrap(),
        seven_day_pct: 40,
        seven_day_resets: Instant::from_timestamp(1_700_302_400, 0).unwrap(),
        extra_usage: None,
    };
    assert_eq!(
        s.tooltip_at(&product(), now, "Wed 18:00"),
        "Session 12% 3h40m\nWeekly 40% Wed 18:00\nProjected 80% under"
    );
    assert_eq!(s.weekly_projection_at(now).unwrap().projected_pct, 80);
}

#[test]
fn the_tooltip_names_the_product_and_its_command() {
    let tip = |reason| {
        TrayState::Unavailable { detail: String::new(), reason }.tooltip(&product())
    };
    assert_eq!(
        tip(UnavailableReason::TokenProblem),
        "Widget usage: sign-in needed\nRun `widget` once to refresh."
    );
    assert_eq!(
        tip(UnavailableReason::RateLimited),
        "Widget usage: rate-limited\nClears on its own -- retrying."
    );
    assert_eq!(
        tip(UnavailableReason::NetworkError),
        "Widget usage: network error\nRetrying automatically."
    );
    assert_eq!(tip(UnavailableReason::Other), "Widget usage: unavailable\nRetrying automatically.");
    assert_eq!(UnavailableReason::TokenProblem.tooltip_label("x"), "sign-in needed\nRun `x` once to refresh.");
}

#[test]
fn menu_lines_of_the_windows() {
    let (session, weekly) = state(None).menu_lines(10);
    assert_eq!(
        session,
        "Session  [\u{2588}\u{2591}\u{2591}\u{2591}\u{2591}\u{2591}\u{2591}\u{2591}\u{2591}\u{2591}] 12%  resets 3h40m"
    );
    assert!(
        weekly.starts_with(
            "Weekly   [\u{2588}\u{2588}\u{2588}\u{2588}\u{2588}\u{2591}\u{2591}\u{2591}\u{2591}\u{2591}] 54%  resets "
        ),
        "{weekly}"
    );
    let line = state(None).projected_menu_line(10).unwrap();
    assert!(line.ends_with("] 108%  (over)"), "{line}");
    assert!(line.starts_with("Projected"), "{line}");
}

#[test]
fn the_extra_usage_line_is_shown_only_where_there_is_one() {
    assert_eq!(state(None).extra_usage_line(10), None);
    let extra = ExtraUsageInfo {
        pct: 12,
        used: "42.50".to_string(),
        limit: "850.00".to_string(),
        currency: "EUR".to_string(),
    };
    assert_eq!(
        state(Some(extra)).extra_usage_line(10).unwrap(),
        "Extra usage  [\u{2588}\u{2591}\u{2591}\u{2591}\u{2591}\u{2591}\u{2591}\u{2591}\u{2591}\u{2591}] 12%  42.50/850.00 EUR"
    );
}

#[test]
fn an_unavailable_state_tells_why() {
    let cases = [
        (UnavailableReason::TokenProblem, "sign-in needed"),
        (UnavailableReason::RateLimited, "rate-limited, retrying"),
        (UnavailableReason::NetworkError, "network error, retrying"),
        (UnavailableReason::Other, "unavailable, retrying"),
    ];
    for (reason, label) in cases {
        let s = TrayState::Unavailable { detail: String::new(), reason };
        assert_eq!(s.unavailable_reason(), Some(reason));
        assert_eq!(s.unavailable_short_label(), Some(label));
        assert_eq!(s.menu_lines(10), (format!("Session  {label}"), format!("Weekly   {label}")));
        assert_eq!(s.max_utilization(), None);
        assert!(s.windows().is_none());
        assert!(s.weekly_projection().is_none());
        assert!(s.projected_menu_line(10).is_none());
        assert!(s.extra_usage_line(10).is_none());
    }
}

#[test]
fn the_higher_utilization_counts() {
    let s = state(None);
    assert_eq!(s.max_utilization(), Some(54));
    assert_eq!(s.unavailable_reason(), None);
    assert_eq!(s.unavailable_short_label(), None);
    let (five_hour, seven_day) = s.windows().unwrap();
    assert_eq!((five_hour.pct, seven_day.pct), (12, 54));
    assert_eq!(five_hour.resets_label, "3h40m");
    assert_eq!(seven_day.resets_label.chars().count(), 9);
}
