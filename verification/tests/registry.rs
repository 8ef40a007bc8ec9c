use usage_widget::panel::PanelMode;
use usage_widget::registry::{
    clear_panel_position, current_exe_value, deletion_ok, is_cpu_temp_visible, is_panel_visible,
    is_startup_enabled, panel_mode, panel_opacity_pct, panel_position, poll_interval_secs,
    promote_tray_icon_async, set_cpu_temp_visible, set_panel_opacity_pct, set_panel_position,
    set_panel_visible, set_poll_interval_secs, set_startup_enabled, try_promote_tray_icon, Deleted,
    IconEntry, PromoteOutcome, PromoteStep, StartupChange, DEFAULT_PANEL_OPACITY_PCT,
};

#[test]
fn the_run_entry_is_the_quoted_path() {
    let exe = "C:\\Program Files\\w.exe";
    assert_eq!(current_exe_value(exe), "\"C:\\Program Files\\w.exe\"");
    assert!(is_startup_enabled(Some(exe), Some("\"C:\\Program Files\\w.exe\"")));
    assert!(!is_startup_enabled(Some(exe), Some(exe)));
    assert!(!is_startup_enabled(Some(exe), Some("\"C:\\old\\w.exe\"")));
    assert!(!is_startup_enabled(Some(exe), None));
    assert!(!is_startup_enabled(None, Some("\"\"")));
}

#[test]
fn starting_with_windows_is_written_or_deleted() {
    match set_startup_enabled(true, Some("w.exe")) {
        Some(StartupChange::Write(v)) => {
            assert_eq!(v, "\"w.exe\"");
            assert!(is_startup_enabled(Some("w.exe"), Some(&v)));
        }
        _ => panic!("expected a write"),
    }
    assert!(matches!(set_startup_enabled(false, None), Some(StartupChange::Delete)));
    assert!(set_startup_enabled(true, None).is_none());
    assert!(deletion_ok(Deleted::Done));
    assert!(deletion_ok(Deleted::NotFound));
    assert!(!deletion_ok(Deleted::Failed));
}

#[test]
fn the_panel_is_off_and_the_temperature_on_by_default() {
    assert!(!is_panel_visible(None));
    assert!(!is_panel_visible(Some(0)));
    assert!(is_panel_visible(Some(1)));
    assert!(is_panel_visible(Some(set_panel_visible(true))));
    assert!(!is_panel_visible(Some(set_panel_visible(false))));
    assert!(is_cpu_temp_visible(None));
    assert!(!is_cpu_temp_visible(Some(0)));
    assert!(is_cpu_temp_visible(Some(set_cpu_temp_visible(true))));
    assert!(!is_cpu_temp_visible(Some(set_cpu_temp_visible(false))));
}

#[test]
fn an_unknown_mode_is_the_full_one() {
    assert_eq!(panel_mode(None), PanelMode::Both);
    assert_eq!(panel_mode(Some("bogus")), PanelMode::Both);
    assert_eq!(panel_mode(Some("weekly")), PanelMode::WeeklyOnly);
}

#[test]
fn opacity_stays_readable() {
    assert_eq!(panel_opacity_pct(None), DEFAULT_PANEL_OPACITY_PCT);
    assert_eq!(panel_opacity_pct(None), 70);
    assert_eq!(panel_opacity_pct(Some(0)), 20);
    assert_eq!(panel_opacity_pct(Some(85)), 85);
    assert_eq!(panel_opacity_pct(Some(u32::MAX)), 100);
    assert_eq!(set_panel_opacity_pct(3), 20);
    assert_eq!(set_panel_opacity_pct(101), 100);
    assert_eq!(panel_opacity_pct(Some(set_panel_opacity_pct(55))), 55);
}

#[test]
fn positions_round_trip_also_negative_ones() {
    for (x, y) in [(0, 0), (-1920, 35), (i32::MIN, i32::MAX), (-1, -1)] {
        let (sx, sy) = set_panel_position(x, y);
        assert_eq!((sx, sy), (x as u32, y as u32));
        assert_eq!(panel_position(Some(sx), Some(sy)), Some((x, y)));
    }
    assert_eq!(panel_position(Some(1), None), None);
    assert_eq!(panel_position(None, Some(1)), None);
    assert!(clear_panel_position(Deleted::NotFound, Some(Deleted::Done)));
    assert!(!clear_panel_position(Deleted::Failed, None));
    assert!(!clear_panel_position(Deleted::Done, Some(Deleted::Failed)));
}

#[test]
fn the_poll_interval_keeps_its_floor() {
    assert_eq!(poll_interval_secs(None), 300);
    assert_eq!(poll_interval_secs(Some(1)), 60);
    assert_eq!(poll_interval_secs(Some(600)), 600);
    assert_eq!(set_poll_interval_secs(0), 60);
    assert_eq!(set_poll_interval_secs(120), 120);
    assert_eq!(set_poll_interval_secs(u64::MAX), u32::MAX);
    assert_eq!(poll_interval_secs(Some(set_poll_interval_secs(90))), 90);
}

fn entry(exe: Option<&str>, promoted: bool) -> IconEntry {
    IconEntry { exe: exe.map(|s| s.to_string()), promoted }
}

#[test]
fn every_icon_of_ours_is_promoted() {
    let entries = vec![
        entry(Some("C:\\other.exe"), false),
        entry(Some("C:\\WIDGET.exe"), false),
        entry(None, false),
        entry(Some("c:\\widget.EXE"), true),
        entry(Some("c:\\widget.exe"), false),
    ];
    let (places, outcome) = try_promote_tray_icon(&entries, "C:\\Widget.exe", 2);
    assert_eq!(places, vec![1, 4]);
    assert_eq!(outcome, PromoteOutcome::Promoted);
    let (places, outcome) = try_promote_tray_icon(&entries, "C:\\Widget.exe", 4);
    assert_eq!(places, vec![1, 4]);
    assert_eq!(outcome, PromoteOutcome::NotFound);
}

#[test]
fn nothing_to_promote() {
    let entries = vec![entry(Some("w.exe"), true), entry(Some("W.EXE"), true)];
    let (places, outcome) = try_promote_tray_icon(&entries, "w.exe", 2);
    assert!(places.is_empty());
    assert_eq!(outcome, PromoteOutcome::AlreadySet);
    let (places, outcome) = try_promote_tray_icon(&Vec::new(), "w.exe", 0);
    assert!(places.is_empty());
    assert_eq!(outcome, PromoteOutcome::NotFound);
}

#[test]
fn looking_for_the_icons_ends() {
    let missing = Some(PromoteOutcome::NotFound);
    assert_eq!(promote_tray_icon_async(1, missing), PromoteStep::Retry);
    assert_eq!(promote_tray_icon_async(9, missing), PromoteStep::Retry);
    assert_eq!(promote_tray_icon_async(10, missing), PromoteStep::GiveUp);
    assert_eq!(promote_tray_icon_async(1, None), PromoteStep::GiveUp);
    assert_eq!(promote_tray_icon_async(1, Some(PromoteOutcome::Promoted)), PromoteStep::Finished);
    assert_eq!(promote_tray_icon_async(3, Some(PromoteOutcome::AlreadySet)), PromoteStep::Finished);
}
