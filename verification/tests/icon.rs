use usage_widget::icon::{
    badge_rgba, build_rgba, color_for, color_for_pct, color_for_temp_c, digit_box_for_count,
    digits_of, draw_percentage, draw_seven_segment_digit, fill_rect, text_color_for, BadgeShape,
    AMBER, GRAY, GREEN, RED, RGBA_LEN, SEGMENTS, SIZE,
};
use usage_widget::instant::Instant;
use usage_widget::usage::{TrayState, UnavailableReason};

#[test]
fn digit_boxes_fit_within_the_canvas() {
    for len in 1..=3usize {
        let (w, h, gap) = digit_box_for_count(len);
        let total_w = len as i32 * w + (len as i32 - 1) * gap;
        assert!(total_w <= SIZE as i32, "{len}-digit total width {total_w} exceeds canvas {SIZE}");
        assert!(h <= SIZE as i32, "{len}-digit height {h} exceeds canvas {SIZE}");
    }
}

#[test]
fn segment_thickness_leaves_room_for_a_middle_gap() {
    for len in 1..=3usize {
        let (w, h, _gap) = digit_box_for_count(len);
        let t = (w / 4).max(5);
        let mid_y = h / 2 - t / 2;
        let upper_h = mid_y - t;
        let lower_h = (h - t) - (mid_y + t);
        assert!(upper_h > 0, "{len}-digit upper vertical segment has non-positive height");
        assert!(lower_h > 0, "{len}-digit lower vertical segment has non-positive height");
    }
}

fn pixel(rgba: &[u8], x: usize, y: usize) -> (u8, u8, u8, u8) {
    let i = (y * 96 + x) * 4;
    (rgba[i], rgba[i + 1], rgba[i + 2], rgba[i + 3])
}

#[test]
fn the_circle_is_antialiased_over_one_pixel() {
    let rgba = build_rgba(GREEN, None);
    assert_eq!(rgba.len(), RGBA_LEN);
    let center = (96f32 - 1.0) / 2.0;
    let radius = 96f32 / 2.0 - 2.0;
    for y in 0..96usize {
        for x in 0..96usize {
            let dx = x as f32 - center;
            let dy = y as f32 - center;
            let dist = (dx * dx + dy * dy).sqrt();
            let coverage = (radius + 0.5 - dist).clamp(0.0, 1.0);
            let expected = if coverage <= 0.0 {
                (0, 0, 0, 0)
            } else {
                (GREEN[0], GREEN[1], GREEN[2], (coverage * 255.0) as u8)
            };
            assert_eq!(pixel(&rgba, x, y), expected, "({x},{y})");
        }
    }
}

#[test]
fn the_square_has_rounded_corners() {
    let rgba = badge_rgba(GRAY, None, BadgeShape::RoundedSquare);
    assert_eq!(pixel(&rgba, 0, 0), (0, 0, 0, 0));
    assert_eq!(pixel(&rgba, 2, 2), (0, 0, 0, 0));
    assert_eq!(pixel(&rgba, 8, 8), (140, 140, 140, 255));
    assert_eq!(pixel(&rgba, 48, 2), (140, 140, 140, 255));
    assert_eq!(pixel(&rgba, 93, 48), (140, 140, 140, 255));
    assert_eq!(pixel(&rgba, 94, 48), (0, 0, 0, 0));
    let round = build_rgba(GRAY, None);
    assert_eq!(pixel(&round, 8, 8), (0, 0, 0, 0));
}

#[test]
fn digits_are_drawn_over_the_badge() {
    let plain = build_rgba(AMBER, None);
    for (pct, len) in [(7u32, 1usize), (42, 2), (87, 2), (100, 3), (5000, 3)] {
        let rgba = build_rgba(AMBER, Some(pct));
        let (w, h, gap) = digit_box_for_count(len);
        let total = len as i32 * w + (len as i32 - 1) * gap;
        let (left, top) = ((96 - total) / 2, (96 - h) / 2);
        let digits = digits_of(pct);
        assert_eq!(digits.len(), len);
        let t = (w / 4).max(5);
        let mid = h / 2 - t / 2;
        for y in 0..96i32 {
            for x in 0..96i32 {
                let mut lit = false;
                for (i, d) in digits.iter().enumerate() {
                    let (px, py) = (x - left - i as i32 * (w + gap), y - top);
                    let segs = SEGMENTS[*d as usize];
                    let inside = |x0: i32, y0: i32, w: i32, h: i32| {
                        px >= x0 && px < x0 + w && py >= y0 && py < y0 + h
                    };
                    lit |= segs[0] && inside(0, 0, w, t);
                    lit |= segs[3] && inside(0, h - t, w, t);
                    lit |= segs[6] && inside(0, mid, w, t);
                    lit |= segs[5] && inside(0, t, t, mid - t);
                    lit |= segs[1] && inside(w - t, t, t, mid - t);
                    lit |= segs[4] && inside(0, mid + t, t, h - t - (mid + t));
                    lit |= segs[2] && inside(w - t, mid + t, t, h - t - (mid + t));
                }
                let expected = if lit {
                    (0, 0, 0, 255)
                } else {
                    pixel(&plain, x as usize, y as usize)
                };
                assert_eq!(pixel(&rgba, x as usize, y as usize), expected, "{pct} ({x},{y})");
            }
        }
    }
}

#[test]
fn digits_fit_the_circle() {
    for len in 1..=3i32 {
        let (w, h, gap) = digit_box_for_count(len as usize);
        let total = len * w + (len - 1) * gap;
        assert!(total * total + h * h <= 92 * 92, "{len}");
    }
    for shape in [BadgeShape::Circle, BadgeShape::RoundedSquare] {
        let plain = badge_rgba(GREEN, None, shape);
        for pct in [0, 8, 60, 88, 100, 888] {
            let rgba = badge_rgba(GREEN, Some(pct), shape);
            for y in 0..96 {
                for x in 0..96 {
                    if pixel(&rgba, x, y) == (255, 255, 255, 255) {
                        assert_eq!(pixel(&plain, x, y).3, 255, "{pct} ({x},{y})");
                    }
                }
            }
        }
    }
}

#[test]
fn rectangles_are_clipped_to_the_canvas() {
    let mut rgba = vec![0u8; RGBA_LEN];
    fill_rect(&mut rgba, -5, 90, 10, 100, [1, 2, 3]);
    assert_eq!(pixel(&rgba, 0, 90), (1, 2, 3, 255));
    assert_eq!(pixel(&rgba, 4, 95), (1, 2, 3, 255));
    assert_eq!(pixel(&rgba, 5, 95), (0, 0, 0, 0));
    assert_eq!(pixel(&rgba, 0, 89), (0, 0, 0, 0));
    let before = rgba.clone();
    fill_rect(&mut rgba, 200, 10, 10, 10, [9, 9, 9]);
    fill_rect(&mut rgba, 10, 10, -4, 10, [9, 9, 9]);
    fill_rect(&mut rgba, i32::MAX, i32::MAX, i32::MAX, i32::MAX, [9, 9, 9]);
    assert_eq!(rgba, before);
}

#[test]
fn a_digit_lights_its_segments() {
    let mut rgba = vec![0u8; RGBA_LEN];
    draw_seven_segment_digit(&mut rgba, 10, 10, 36, 72, 1, [7, 7, 7]);
    // The right uprights of a 1, and nothing on the left or in the middle.
    assert_eq!(pixel(&rgba, 45, 20), (7, 7, 7, 255));
    assert_eq!(pixel(&rgba, 45, 60), (7, 7, 7, 255));
    assert_eq!(pixel(&rgba, 10, 20), (0, 0, 0, 0));
    assert_eq!(pixel(&rgba, 20, 45), (0, 0, 0, 0));
    let mut number = vec![0u8; RGBA_LEN];
    draw_percentage(&mut number, 8, RED);
    assert_eq!(pixel(&number, 26, 8), (255, 255, 255, 255));
}

#[test]
fn numbers_are_split_into_digits() {
    assert_eq!(digits_of(0), vec![0]);
    assert_eq!(digits_of(7), vec![7]);
    assert_eq!(digits_of(10), vec![1, 0]);
    assert_eq!(digits_of(42), vec![4, 2]);
    assert_eq!(digits_of(100), vec![1, 0, 0]);
    assert_eq!(digits_of(999), vec![9, 9, 9]);
    assert_eq!(digits_of(1000), vec![9, 9, 9]);
    assert_eq!(digit_box_for_count(1), (44, 80, 0));
    assert_eq!(digit_box_for_count(2), (32, 56, 8));
    assert_eq!(digit_box_for_count(3), (24, 44, 4));
}

#[test]
fn no_two_digits_look_alike() {
    for a in 0..10 {
        for b in 0..10 {
            assert_eq!(a == b, SEGMENTS[a] == SEGMENTS[b]);
        }
    }
}

#[test]
fn colours_follow_their_thresholds() {
    assert_eq!(color_for_pct(0), GREEN);
    assert_eq!(color_for_pct(49), GREEN);
    assert_eq!(color_for_pct(50), AMBER);
    assert_eq!(color_for_pct(80), AMBER);
    assert_eq!(color_for_pct(81), RED);
    assert_eq!(color_for_temp_c(69), GREEN);
    assert_eq!(color_for_temp_c(70), AMBER);
    assert_eq!(color_for_temp_c(84), AMBER);
    assert_eq!(color_for_temp_c(85), RED);
    let at = Instant::from_timestamp(1_700_000_000, 0).unwrap();
    let state = TrayState::Available {
        five_hour_pct: 20,
        five_hour_resets: at,
        seven_day_pct: 90,
        seven_day_resets: at,
        extra_usage: None,
    };
    assert_eq!(color_for(&state), RED);
    let none = TrayState::Unavailable { detail: String::new(), reason: UnavailableReason::Other };
    assert_eq!(color_for(&none), GRAY);
}

#[test]
fn digits_contrast_with_their_badge() {
    let black = [0, 0, 0];
    let white = [255, 255, 255];
    assert_eq!(text_color_for(GREEN), white);
    assert_eq!(text_color_for(AMBER), black);
    assert_eq!(text_color_for(RED), white);
    assert_eq!(text_color_for(GRAY), white);
    assert_eq!(text_color_for(white), black);
    assert_eq!(text_color_for(black), white);
    for r in (0..256).step_by(5) {
        for g in (0..256).step_by(7) {
            for b in (0..256).step_by(9) {
                let light = 0.299 * r as f32 + 0.587 * g as f32 + 0.114 * b as f32;
                if (light - 140.0).abs() > 0.001 {
                    let c = text_color_for([r as u8, g as u8, b as u8]);
                    assert_eq!(c, if light > 140.0 { black } else { white });
                }
            }
        }
    }
}
