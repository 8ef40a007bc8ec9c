use usage_widget::icon::{GREEN, RED};
use usage_widget::instant::Instant;
use usage_widget::panel::{
    apply_opacity, create_window, default_corner, draw_bar_row, fill_width, has_corner, hit_answer,
    is_paintable, is_reachable, origin_for, paint, panel_data, position_and_size, reset_position,
    rgb, rows_shown, save_position, set_mode, set_opacity, set_visible, update_data, wndproc,
    work_area, BarInfo, DrawOp, PanelData, PanelMode, PanelState, Placement, Reaction, Rect, Row,
    VirtualScreen, HTCAPTION, HTCLIENT, MAX_ROWS, MIN_VISIBLE_PX, PANEL_WIDTH, ROTATE_TIMER_ID,
    ROW_HEIGHT, WM_ERASEBKGND, WM_EXITSIZEMOVE, WM_NCHITTEST, WM_NCLBUTTONDBLCLK, WM_PAINT,
    WM_TIMER,
};
use usage_widget::usage::{Product, TrayState, UnavailableReason, WeeklyProjection, WindowUsage};
use windows_sys::Win32::UI::WindowsAndMessaging;

#[test]
fn panel_mode_registry_round_trips() {
    for mode in [
        PanelMode::Both,
        PanelMode::FiveHourOnly,
        PanelMode::WeeklyOnly,
        PanelMode::Rotating,
    ] {
        let s = mode.as_registry_str();
        assert_eq!(PanelMode::from_registry_str(s), Some(mode));
    }
    assert_eq!(PanelMode::from_registry_str("bogus"), None);
}

fn screen() -> VirtualScreen {
    VirtualScreen { x: 0, y: 0, width: 1920, height: 1080 }
}

#[test]
fn work_area_is_non_degenerate() {
    let area = work_area(None);
    assert!(area.right > area.left);
    assert!(area.bottom > area.top);
    assert_eq!(area, Rect { left: 0, top: 0, right: 1920, bottom: 1040 });
    let read = Rect { left: 1, top: 2, right: 3, bottom: 4 };
    assert_eq!(work_area(Some(read)), read);
}

fn full_height() -> i32 {
    MAX_ROWS * ROW_HEIGHT
}

#[test]
fn the_default_corner_is_reachable() {
    let (x, y) = default_corner(work_area(None), full_height());
    assert!(is_reachable(x, y, PANEL_WIDTH, full_height(), screen()));
}

#[test]
fn no_saved_position_uses_the_default_corner() {
    assert_eq!(
        origin_for(None, full_height(), work_area(None), screen()),
        default_corner(work_area(None), full_height())
    );
}

#[test]
fn a_reachable_saved_position_is_honored() {
    assert_eq!(
        origin_for(Some((100, 100)), full_height(), work_area(None), screen()),
        (100, 100)
    );
}

#[test]
fn an_unreachable_saved_position_falls_back_to_the_corner() {
    let far_away = Some((-30_000, -30_000));
    assert_eq!(
        origin_for(far_away, full_height(), work_area(None), screen()),
        default_corner(work_area(None), full_height())
    );
    assert!(!is_reachable(-30_000, -30_000, PANEL_WIDTH, full_height(), screen()));
}

#[test]
fn a_barely_visible_saved_position_falls_back_to_the_corner() {
    let area = work_area(None);
    let sliver = Some((area.right - (MIN_VISIBLE_PX / 2), 100));
    assert_eq!(
        origin_for(sliver, full_height(), area, screen()),
        default_corner(area, full_height())
    );
}

fn at(secs: i64) -> Instant {
    Instant::from_timestamp(secs, 0).unwrap()
}

#[test]
fn create_show_hide_and_cycle_modes() {
    let area = work_area(None);
    let mut state = PanelState::new(70, None);
    let (place, alpha) = create_window(&state, area, screen());
    assert_eq!(place, Placement { x: 1648, y: 893, width: 260, height: 135 });
    assert_eq!(alpha, 179);

    assert!(!state.visible);
    assert_eq!(set_visible(&mut state, true, true), Some(false));
    assert!(state.visible);

    for pct in [30, 70, 100] {
        assert!(set_opacity(&mut state, true, pct).is_some());
        assert_eq!(state.opacity_pct, pct);
    }

    for mode in [
        PanelMode::Both,
        PanelMode::FiveHourOnly,
        PanelMode::WeeklyOnly,
        PanelMode::Rotating,
    ] {
        let (place, timer) = set_mode(&mut state, true, mode, area, screen()).unwrap();
        assert_eq!(state.mode, mode);
        assert_eq!(place.height, mode.row_count() * ROW_HEIGHT);
        assert_eq!(timer, mode == PanelMode::Rotating);
    }

    update_data(
        &mut state,
        &TrayState::Available {
            five_hour_pct: 42,
            five_hour_resets: Instant::now(),
            seven_day_pct: 7,
            seven_day_resets: Instant::now(),
            extra_usage: None,
        },
    );
    assert!(matches!(state.data, PanelData::Available { .. }));

    update_data(
        &mut state,
        &TrayState::Unavailable {
            detail: "test".to_string(),
            reason: UnavailableReason::RateLimited,
        },
    );
    assert!(matches!(state.data, PanelData::Unavailable(_)));

    assert_eq!(set_visible(&mut state, true, false), Some(false));
    assert!(!state.visible);
}

#[test]
fn the_kept_opacity_can_always_be_read() {
    let mut state = PanelState::new(5, None);
    assert_eq!(state.opacity_pct, 20);
    assert_eq!(set_opacity(&mut state, true, 101), Some(255));
    assert_eq!(state.opacity_pct, 100);
    assert_eq!(set_opacity(&mut state, true, 5), Some(51));
    assert_eq!(state.opacity_pct, 20);
    assert_eq!(PanelState::new(85, None).opacity_pct, 85);
}

#[test]
fn without_a_window_there_is_nothing_to_move() {
    let mut state = PanelState::new(70, Some((5, 5)));
    assert_eq!(set_visible(&mut state, false, true), None);
    assert!(!state.visible);
    assert_eq!(set_opacity(&mut state, false, 50), None);
    assert_eq!(state.opacity_pct, 50);
    assert_eq!(apply_opacity(false, 50), None);
    let area = work_area(None);
    assert_eq!(position_and_size(false, PanelMode::Both, None, area, screen()), None);
    assert_eq!(set_mode(&mut state, false, PanelMode::WeeklyOnly, area, screen()), None);
    assert_eq!(state.mode, PanelMode::WeeklyOnly);
    assert_eq!(save_position(&mut state, false, Some(area)), None);
    assert_eq!(state.custom_pos, Some((5, 5)));
    assert_eq!(reset_position(&mut state, false, area, screen()), None);
    assert_eq!(state.custom_pos, None);
}

#[test]
fn a_screen_without_a_size_condemns_no_place() {
    let none = VirtualScreen { x: 0, y: 0, width: 0, height: 1080 };
    assert!(is_reachable(-30_000, -30_000, PANEL_WIDTH, 45, none));
    let none = VirtualScreen { x: 0, y: 0, width: 1920, height: -1 };
    assert!(is_reachable(-30_000, -30_000, PANEL_WIDTH, 45, none));
}

#[test]
fn exactly_enough_of_the_panel_is_enough() {
    assert!(is_reachable(1880, 100, PANEL_WIDTH, 45, screen()));
    assert!(!is_reachable(1881, 100, PANEL_WIDTH, 45, screen()));
    assert!(is_reachable(-220, 1040, PANEL_WIDTH, 45, screen()));
    assert!(!is_reachable(-221, 1040, PANEL_WIDTH, 45, screen()));
    assert!(!is_reachable(0, 1041, PANEL_WIDTH, 45, screen()));
    assert!(!is_reachable(i32::MAX, i32::MIN, PANEL_WIDTH, 45, screen()));
    let left = VirtualScreen { x: -1920, y: 0, width: 3840, height: 1080 };
    assert!(is_reachable(-1900, 10, PANEL_WIDTH, 45, left));
}

#[test]
fn corners_outside_of_all_coordinates() {
    assert!(has_corner(work_area(None), 135));
    let far = Rect { left: 0, top: 0, right: i32::MIN + 271, bottom: 0 };
    assert!(!has_corner(far, 135));
    let far = Rect { left: 0, top: 0, right: i32::MIN + 272, bottom: 0 };
    assert!(has_corner(far, 135));
    let low = Rect { left: 0, top: 0, right: 0, bottom: i32::MIN };
    assert!(!has_corner(low, 135));
}

#[test]
fn a_dragged_panel_is_remembered_and_can_be_sent_back() {
    let area = work_area(None);
    let mut state = PanelState::new(70, None);
    let rect = Rect { left: 300, top: 200, right: 560, bottom: 335 };
    assert_eq!(save_position(&mut state, true, Some(rect)), Some((300, 200)));
    assert_eq!(save_position(&mut state, true, None), None);
    assert_eq!(state.custom_pos, Some((300, 200)));
    let (place, _) = set_mode(&mut state, true, PanelMode::FiveHourOnly, area, screen()).unwrap();
    assert_eq!(place, Placement { x: 300, y: 200, width: 260, height: 45 });
    let place = reset_position(&mut state, true, area, screen()).unwrap();
    assert_eq!(place, Placement { x: 1648, y: 983, width: 260, height: 45 });
}

#[test]
fn opacity_is_rounded_to_an_alpha_value() {
    for pct in 0..=120u32 {
        let clamped = pct.clamp(20, 100);
        let float = ((clamped as f32 / 100.0) * 255.0).round().clamp(0.0, 255.0) as u8;
        assert_eq!(apply_opacity(true, pct), Some(float), "{pct}");
    }
    assert_eq!(apply_opacity(true, 100), Some(255));
    assert_eq!(apply_opacity(true, 0), Some(51));
}

#[test]
fn messages_have_the_numbers_of_the_window_system() {
    assert_eq!(WM_PAINT, WindowsAndMessaging::WM_PAINT);
    assert_eq!(WM_ERASEBKGND, WindowsAndMessaging::WM_ERASEBKGND);
    assert_eq!(WM_NCHITTEST, WindowsAndMessaging::WM_NCHITTEST);
    assert_eq!(WM_NCLBUTTONDBLCLK, WindowsAndMessaging::WM_NCLBUTTONDBLCLK);
    assert_eq!(WM_TIMER, WindowsAndMessaging::WM_TIMER);
    assert_eq!(WM_EXITSIZEMOVE, WindowsAndMessaging::WM_EXITSIZEMOVE);
    assert_eq!(HTCLIENT, WindowsAndMessaging::HTCLIENT as isize);
    assert_eq!(HTCAPTION, WindowsAndMessaging::HTCAPTION as isize);
}

#[test]
fn the_window_reacts_to_its_messages() {
    let mut state = PanelState::new(70, None);
    assert_eq!(wndproc(&mut state, WM_ERASEBKGND, 0), Reaction::Answer(1));
    assert_eq!(wndproc(&mut state, WM_NCHITTEST, 0), Reaction::HitTest);
    assert_eq!(wndproc(&mut state, WM_NCLBUTTONDBLCLK, 0), Reaction::Answer(0));
    assert_eq!(wndproc(&mut state, WM_EXITSIZEMOVE, 0), Reaction::SavePosition);
    assert_eq!(wndproc(&mut state, WM_PAINT, 0), Reaction::Paint);
    assert_eq!(wndproc(&mut state, 0x0001, 0), Reaction::Default);
    assert_eq!(wndproc(&mut state, WM_TIMER, 7), Reaction::Answer(0));
    assert_eq!(state.rotate_index, 0);
    for expected in [1, 2, 0, 1] {
        assert_eq!(wndproc(&mut state, WM_TIMER, ROTATE_TIMER_ID), Reaction::Repaint);
        assert_eq!(state.rotate_index, expected);
    }
    assert_eq!(hit_answer(HTCLIENT), HTCAPTION);
    assert_eq!(hit_answer(17), 17);
}

#[test]
fn modes_show_their_rows() {
    assert_eq!(rows_shown(PanelMode::Both, 1), vec![Row::Session, Row::Weekly, Row::Projected]);
    assert_eq!(rows_shown(PanelMode::FiveHourOnly, 1), vec![Row::Session]);
    assert_eq!(rows_shown(PanelMode::WeeklyOnly, 0), vec![Row::Weekly, Row::Projected]);
    assert_eq!(rows_shown(PanelMode::Rotating, 0), vec![Row::Session]);
    assert_eq!(rows_shown(PanelMode::Rotating, 1), vec![Row::Weekly]);
    assert_eq!(rows_shown(PanelMode::Rotating, 2), vec![Row::Projected]);
    for mode in [
        PanelMode::Both,
        PanelMode::FiveHourOnly,
        PanelMode::WeeklyOnly,
        PanelMode::Rotating,
    ] {
        for index in 0..3 {
            assert_eq!(rows_shown(mode, index).len() as i32, mode.row_count());
        }
    }
}

#[test]
fn bars_fill_to_the_nearest_pixel() {
    for pct in 0..=150u32 {
        let float = (240f32 * (pct.min(100) as f32 / 100.0)).round() as i32;
        assert_eq!(fill_width(240, pct), float, "{pct}");
    }
    assert_eq!(fill_width(0, 50), 0);
    assert_eq!(fill_width(-20, 50), 0);
    assert_eq!(fill_width(i32::MAX, 100), i32::MAX);
    assert_eq!(fill_width(240, 999), 240);
    assert_eq!(rgb(1, 2, 3), 0x030201);
}

fn window(pct: u32, label: &str) -> WindowUsage {
    WindowUsage { pct, resets_label: label.to_string() }
}

#[test]
fn windows_become_bars() {
    let p = WeeklyProjection { projected_pct: 123, over_limit: true };
    let data = panel_data(Some((window(42, "3h40m"), window(7, "Wed 18:00"))), Some(p), None);
    match data {
        PanelData::Available { five_hour, seven_day, projected } => {
            assert_eq!((five_hour.pct, five_hour.color), (42, GREEN));
            assert_eq!(five_hour.detail, "resets 3h40m");
            assert_eq!((seven_day.pct, seven_day.color), (7, GREEN));
            assert_eq!(seven_day.detail, "resets Wed 18:00");
            assert_eq!((projected.pct, projected.color), (123, RED));
            assert_eq!(projected.detail, "over");
        }
        _ => panic!("expected bars"),
    }
    match panel_data(Some((window(42, "a"), window(7, "b"))), None, None) {
        PanelData::Available { projected, .. } => {
            assert_eq!((projected.pct, projected.color), (0, GREEN));
            assert_eq!(projected.detail, "--");
        }
        _ => panic!("expected bars"),
    }
    assert!(matches!(panel_data(None, None, Some("why")), PanelData::Unavailable("why")));
    assert!(matches!(panel_data(None, None, None), PanelData::Unavailable("unavailable")));
}

fn product() -> Product {
    Product { name: "Widget".to_string(), command: "widget".to_string() }
}

fn fill(op: &DrawOp) -> (Rect, u32) {
    match op {
        DrawOp::Fill { rect, color } => (*rect, *color),
        _ => panic!("expected a fill"),
    }
}

fn text(op: &DrawOp) -> (i32, i32, &str, u32) {
    match op {
        DrawOp::Text { x, y, text, color } => (*x, *y, text.as_str(), *color),
        _ => panic!("expected a text"),
    }
}

#[test]
fn a_row_has_a_label_and_a_bar() {
    let client = Rect { left: 0, top: 0, right: 260, bottom: 45 };
    let bar = BarInfo { pct: 50, color: [1, 2, 3], detail: "resets now".to_string() };
    let mut ops = Vec::new();
    draw_bar_row(&mut ops, client, 0, 45, "Session", &bar);
    assert_eq!(ops.len(), 4);
    assert_eq!(text(&ops[0]), (10, 4, "Session  50%  resets now", rgb(230, 230, 230)));
    let track = Rect { left: 10, top: 22, right: 250, bottom: 37 };
    assert_eq!(fill(&ops[1]), (track, rgb(60, 60, 60)));
    assert_eq!(fill(&ops[2]), (Rect { right: 130, ..track }, rgb(1, 2, 3)));
    match &ops[3] {
        DrawOp::Frame { rect, color } => assert_eq!((*rect, *color), (track, rgb(90, 90, 90))),
        _ => panic!("expected a frame"),
    }
    let empty = BarInfo { pct: 0, color: [1, 2, 3], detail: String::new() };
    let mut ops = Vec::new();
    draw_bar_row(&mut ops, client, 0, 10, "Weekly", &empty);
    assert_eq!(ops.len(), 3);
    assert_eq!(fill(&ops[1]).0.bottom, 28);
}

#[test]
fn the_panel_is_painted_row_by_row() {
    let client = Rect { left: 0, top: 0, right: 260, bottom: 135 };
    assert!(is_paintable(client));
    assert!(!is_paintable(Rect { left: i32::MAX, ..client }));
    assert!(!is_paintable(Rect { top: i32::MIN, ..client }));
    let mut state = PanelState::new(70, None);
    let ops = paint(&state, client, &product());
    assert_eq!(ops.len(), 2);
    assert_eq!(fill(&ops[0]), (client, rgb(24, 24, 24)));
    assert_eq!(text(&ops[1]), (10, 10, "Widget usage: loading...", rgb(200, 200, 200)));

    state.data = PanelData::Unavailable("sign-in needed");
    assert_eq!(text(&paint(&state, client, &product())[1]).2, "Widget usage: sign-in needed");

    let p = WeeklyProjection { projected_pct: 80, over_limit: false };
    state.data = panel_data(Some((window(42, "3h40m"), window(0, "Wed 18:00"))), Some(p), None);
    let ops = paint(&state, client, &product());
    assert_eq!(ops.len(), 1 + 4 + 3 + 4);
    assert_eq!(text(&ops[1]).2, "Session  42%  resets 3h40m");
    assert_eq!((text(&ops[5]).1, text(&ops[5]).2), (49, "Weekly  0%  resets Wed 18:00"));
    assert_eq!((text(&ops[8]).1, text(&ops[8]).2), (94, "Projected  80%  under"));

    state.mode = PanelMode::Rotating;
    state.rotate_index = 2;
    let ops = paint(&state, Rect { bottom: 45, ..client }, &product());
    assert_eq!(ops.len(), 5);
    assert_eq!((text(&ops[1]).1, text(&ops[1]).2), (4, "Projected  80%  under"));
}

#[test]
fn fresh_data_is_put_on_the_panel() {
    let mut state = PanelState::new(70, None);
    let now = Instant::now().timestamp();
    update_data(
        &mut state,
        &TrayState::Available {
            five_hour_pct: 42,
            five_hour_resets: at(now + 13_230),
            seven_day_pct: 81,
            seven_day_resets: at(now + 30),
            extra_usage: None,
        },
    );
    match &state.data {
        PanelData::Available { five_hour, seven_day, projected } => {
            assert_eq!(five_hour.detail, "resets 3h40m");
            assert_eq!(seven_day.color, RED);
            assert!(seven_day.detail.starts_with("resets "));
            assert_eq!(projected.pct, 81);
            assert_eq!(projected.detail, "under");
        }
        _ => panic!("expected bars"),
    }
}
