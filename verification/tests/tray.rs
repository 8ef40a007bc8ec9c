use usage_widget::icon::{badge_rgba, build_rgba, BadgeShape, AMBER, GRAY, GREEN, RED};
use usage_widget::instant::{Instant, WEEKLY_WINDOW_SECS};
use usage_widget::log::needs_rotation;
use usage_widget::panel::PanelMode;
use usage_widget::registry::{panel_mode, panel_opacity_pct, poll_interval_secs};
use usage_widget::single_instance::{acquire, Guard, ERROR_ALREADY_EXISTS};
use usage_widget::tray::{
    crossed_threshold, icon_count, interval_label, menu_command, opacity_label,
    select_panel_mode, select_panel_opacity, select_poll_interval, temp_icon, temp_tooltip,
    usage_icon, ExtraChange, MenuCommand, TrayModel, PANEL_OPACITY_PRESETS_PCT,
    POLL_INTERVAL_PRESETS_SECS,
};
use usage_widget::usage::{ExtraUsageInfo, Product, TrayState, UnavailableReason, WindowUsage};
use windows_sys::Win32::Foundation;

#[test]
fn a_crossing_notifies_once() {
    let mut already = false;
    let readings = [10, 89, 90, 95, 100, 89, 90, 20];
    let notified: Vec<bool> =
        readings.iter().map(|p| crossed_threshold(&mut already, *p)).collect();
    assert_eq!(notified, vec![false, false, true, false, false, false, true, false]);
    assert!(!already);
}

#[test]
fn temperature_texts_and_icons() {
    assert_eq!(temp_tooltip(Some(61)), "CPU temperature: 61\u{00B0}C");
    assert_eq!(temp_tooltip(None), "CPU temperature: unavailable");
    assert!(temp_tooltip(Some(u32::MAX)).encode_utf16().count() <= 63);
    assert_eq!(temp_icon(None), badge_rgba(GRAY, None, BadgeShape::RoundedSquare));
    assert_eq!(temp_icon(Some(61)), badge_rgba(GREEN, Some(61), BadgeShape::RoundedSquare));
    assert_eq!(temp_icon(Some(85)), badge_rgba(RED, Some(85), BadgeShape::RoundedSquare));
    assert_eq!(icon_count(true), 2);
    assert_eq!(icon_count(false), 1);
}

fn product() -> Product {
    Product { name: "Widget".to_string(), command: "widget".to_string() }
}

fn unavailable() -> TrayState {
    TrayState::Unavailable { detail: String::new(), reason: UnavailableReason::NetworkError }
}

fn available(five_hour_pct: u32, seven_day_pct: u32, extra: bool) -> TrayState {
    let now = Instant::now().timestamp();
    let extra_usage = if extra {
        Some(ExtraUsageInfo {
            pct: 12,
            used: "1.00".to_string(),
            limit: "8.00".to_string(),
            currency: "EUR".to_string(),
        })
    } else {
        None
    };
    TrayState::Available {
        five_hour_pct,
        five_hour_resets: Instant::from_timestamp(now + 4_830, 0).unwrap(),
        seven_day_pct,
        seven_day_resets: Instant::from_timestamp(now + WEEKLY_WINDOW_SECS / 2, 0).unwrap(),
        extra_usage,
    }
}

#[test]
fn the_two_icons_differ_even_without_data() {
    assert_eq!(usage_icon(&unavailable()), build_rgba(GRAY, None));
    assert_eq!(usage_icon(&available(20, 60, false)), build_rgba(AMBER, Some(60)));
    assert_ne!(usage_icon(&unavailable()), temp_icon(None));
    assert_ne!(usage_icon(&available(20, 40, false)), temp_icon(Some(40)));
}

#[test]
fn a_usage_state_updates_the_tray() {
    let mut model = TrayModel::new();
    let update = model.on_usage(&available(92, 54, true), &product());
    assert_eq!(update.rgba, build_rgba(RED, Some(92)));
    assert!(update.tooltip.starts_with("Session 92% 1h20m\nWeekly 54% "));
    assert!(update.session.ends_with("92%  resets 1h20m"), "{}", update.session);
    assert!(update.weekly.starts_with("Weekly   ["));
    assert!(update.projected.ends_with("] 108%  (over)"), "{}", update.projected);
    assert!(matches!(update.extra, ExtraChange::Insert(_)));
    assert_eq!(update.session_balloon.unwrap(), "Session at 92%, resets in 1h20m");
    assert!(update.weekly_balloon.is_none());
    assert!(model.extra_item_shown && model.notified_five_hour && !model.notified_seven_day);

    let update = model.on_usage(&available(93, 95, true), &product());
    assert!(matches!(update.extra, ExtraChange::Update(_)));
    assert!(update.session_balloon.is_none());
    assert!(update.weekly_balloon.unwrap().starts_with("Weekly at 95%, resets "));

    let update = model.on_usage(&unavailable(), &product());
    assert_eq!(update.rgba, build_rgba(GRAY, None));
    assert_eq!(update.session, "Session  network error, retrying");
    assert_eq!(update.weekly, "Weekly   network error, retrying");
    assert_eq!(update.projected, "Projected  unavailable");
    assert!(matches!(update.extra, ExtraChange::Remove));
    assert!(update.session_balloon.is_none() && update.weekly_balloon.is_none());
    assert!(model.notified_five_hour && model.notified_seven_day);

    let update = model.on_usage(&available(91, 10, false), &product());
    assert!(matches!(update.extra, ExtraChange::Keep));
    assert!(update.session_balloon.is_none());
    assert!(!model.notified_seven_day);
}

#[test]
fn balloons_of_given_windows() {
    let mut model = TrayModel::new();
    let windows = Some((
        WindowUsage { pct: 92, resets_label: "1h20m".to_string() },
        WindowUsage { pct: 90, resets_label: "Wed 18:00".to_string() },
    ));
    let (session, weekly) = model.balloons(&windows);
    assert_eq!(session.unwrap(), "Session at 92%, resets in 1h20m");
    assert_eq!(weekly.unwrap(), "Weekly at 90%, resets Wed 18:00");
    assert!(matches!(model.balloons(&windows), (None, None)));
    assert!(matches!(model.balloons(&None), (None, None)));
}

#[test]
fn choices_tick_one_item() {
    let (ticks, stored) = select_panel_mode(PanelMode::WeeklyOnly);
    assert_eq!(ticks, [false, false, true, false]);
    assert_eq!(stored, "weekly");
    assert_eq!(select_panel_opacity(70), ([false, false, true, false, false], 70));
    assert_eq!(select_panel_opacity(5), ([false; 5], 20));
    assert_eq!(select_poll_interval(600), ([false, false, false, true], 600));
    assert_eq!(select_poll_interval(10), ([false; 4], 60));
    let labels: Vec<&str> = (0..4).map(interval_label).collect();
    assert_eq!(labels, vec!["1 minute", "2 minutes", "5 minutes", "10 minutes"]);
    let labels: Vec<&str> = (0..5).map(opacity_label).collect();
    assert_eq!(labels, vec!["30%", "50%", "70% (default)", "85%", "100%"]);
    assert_eq!(POLL_INTERVAL_PRESETS_SECS, [60, 120, 300, 600]);
    assert_eq!(PANEL_OPACITY_PRESETS_PCT, [30, 50, 70, 85, 100]);
}

#[test]
fn the_defaults_are_among_the_choices() {
    assert!(POLL_INTERVAL_PRESETS_SECS.contains(&poll_interval_secs(None)));
    assert!(PANEL_OPACITY_PRESETS_PCT.contains(&panel_opacity_pct(None)));
    assert_eq!(select_panel_mode(panel_mode(None)).0, [true, false, false, false]);
}

#[test]
fn menu_items_are_found_by_their_id() {
    let items = vec![
        ("1".to_string(), MenuCommand::Refresh),
        ("2".to_string(), MenuCommand::SelectMode(PanelMode::Both)),
        ("2".to_string(), MenuCommand::Quit),
    ];
    assert_eq!(menu_command(&items, "1"), Some(MenuCommand::Refresh));
    assert_eq!(menu_command(&items, "2"), Some(MenuCommand::SelectMode(PanelMode::Both)));
    assert_eq!(menu_command(&items, "3"), None);
}

#[test]
fn only_one_copy_runs() {
    assert_eq!(ERROR_ALREADY_EXISTS, Foundation::ERROR_ALREADY_EXISTS);
    assert_eq!(acquire(true, 0), Ok(Guard::Held));
    assert_eq!(acquire(true, ERROR_ALREADY_EXISTS), Err(()));
    assert_eq!(acquire(false, 5), Ok(Guard::Unguarded));
    assert_eq!(acquire(false, ERROR_ALREADY_EXISTS), Ok(Guard::Unguarded));
}

#[test]
fn a_long_log_is_rotated() {
    assert!(!needs_rotation(None));
    assert!(!needs_rotation(Some(1024 * 1024)));
    assert!(needs_rotation(Some(1024 * 1024 + 1)));
}
