use usage_widget::double::Double;
use usage_widget::instant::Instant;
use usage_widget::notify::{copy_wide_into, show_balloon, BalloonStep};
use usage_widget::text::{
    chars_of, decode_utf16, len_utf16, parse_u64, push_decimal, push_decimal2, push_repeated, trim, wide_null,
    wide_to_string,
};

#[test]
fn decimal_numbers() {
    for n in [0u64, 7, 10, 42, 100, 999, 1000, 4_294_967_295, u64::MAX] {
        let mut s = String::from("x");
        push_decimal(&mut s, n);
        assert_eq!(s, format!("x{n}"));
        assert_eq!(parse_u64(&s[1..]), Some(n));
    }
    for n in [0u64, 5, 10, 59, 123] {
        let mut s = String::new();
        push_decimal2(&mut s, n);
        assert_eq!(s, format!("{n:02}"));
    }
    let mut s = String::from("a");
    push_repeated(&mut s, '\u{2588}', 3);
    assert_eq!(s, "a\u{2588}\u{2588}\u{2588}");
}

#[test]
fn white_space_is_trimmed_as_unicode_has_it() {
    for s in ["", " ", "a", " a ", "\t\r\na b\u{b}\u{c}", "\u{85}x\u{a0}", "\u{2028}y\u{200b}", "\u{feff}z"] {
        assert_eq!(trim(s), s.trim(), "{s:?}");
    }
}

#[test]
fn utf16_with_its_nul() {
    for s in ["", "abc", "é", "\u{1f600}x", "\u{ffff}\u{10000}\u{10ffff}"] {
        let expected: Vec<u16> = s.encode_utf16().chain(std::iter::once(0)).collect();
        assert_eq!(wide_null(s), expected, "{s:?}");
        assert_eq!(wide_to_string(&wide_null(s)), s);
        let units: usize = s.chars().map(len_utf16).sum();
        assert_eq!(units + 1, expected.len());
        assert_eq!(chars_of(s), s.chars().collect::<Vec<char>>());
    }
    assert_eq!(wide_to_string(&vec![0x41, 0x42]), "AB");
    assert_eq!(wide_to_string(&vec![0x41, 0, 0x42]), "A");
    assert_eq!(wide_to_string(&vec![0x41, 0xd800, 0x42]), "A\u{fffd}B");
    assert_eq!(wide_to_string(&vec![]), "");
}

#[test]
fn ill_formed_utf16_is_replaced() {
    let cases: Vec<Vec<u16>> = vec![
        vec![0xd800],
        vec![0xdc00],
        vec![0xdc00, 0xd800],
        vec![0xd800, 0xd800, 0xdc00],
        vec![0xd83d, 0xde00, 0x41],
        vec![0xd83d, 0x41, 0xde00],
        vec![0xd7ff, 0xe000, 0xffff, 0xdbff, 0xdfff],
        vec![],
    ];
    for units in cases {
        assert_eq!(decode_utf16(&units), String::from_utf16_lossy(&units), "{units:x?}");
    }
}

#[test]
fn texts_are_cut_to_their_buffer() {
    let mut buffer = [9u16; 6];
    copy_wide_into(&mut buffer, "ab");
    assert_eq!(buffer, [0x61, 0x62, 0, 9, 9, 9]);
    copy_wide_into(&mut buffer, "abcde");
    assert_eq!(buffer, [0x61, 0x62, 0x63, 0x64, 0x65, 0]);
    copy_wide_into(&mut buffer, "uvwxyz!");
    assert_eq!(buffer, [0x75, 0x76, 0x77, 0x78, 0x79, 0]);
    let mut none: [u16; 0] = [];
    copy_wide_into(&mut none, "abc");
    let mut one = [9u16];
    copy_wide_into(&mut one, "abc");
    assert_eq!(one, [0]);
}

#[test]
fn balloons_are_shown_and_taken_down() {
    let mut steps = vec![BalloonStep::CreateWindow];
    while *steps.last().unwrap() != BalloonStep::Finished {
        let next = show_balloon(*steps.last().unwrap(), true);
        steps.push(next);
    }
    assert_eq!(
        steps,
        vec![
            BalloonStep::CreateWindow,
            BalloonStep::AddIcon,
            BalloonStep::Linger,
            BalloonStep::RemoveIcon,
            BalloonStep::DestroyWindow,
            BalloonStep::Finished,
        ]
    );
    assert_eq!(show_balloon(BalloonStep::CreateWindow, false), BalloonStep::Finished);
    assert_eq!(show_balloon(BalloonStep::AddIcon, false), BalloonStep::DestroyWindow);
    assert_eq!(show_balloon(BalloonStep::Finished, true), BalloonStep::Finished);
}

#[test]
fn doubles_are_rounded_and_compared_by_their_bits() {
    let cases = [
        0.0, 0.25, 0.5, 0.75, 1.0, 1.5, 2.5, 61.05, 4294967294.4, 4294967294.5, 4294967295.0,
        4294967295.5, 1e10, 1e300, -0.5, -7.0, f64::NAN, f64::INFINITY, 2147483648.5,
        4503599627370497.5,
    ];
    for x in cases {
        let d = Double { bits: f64::to_bits(x) };
        assert_eq!(d.round_to_u32(), x.round().max(0.0) as u32, "{x}");
        assert_eq!(d.is_positive(), x > 0.0, "{x}");
        let (low, high) = (1.5f64, 100.0f64);
        let between = d.is_between(Double { bits: low.to_bits() }, Double { bits: high.to_bits() });
        assert_eq!(between, (low..=high).contains(&x), "{x}");
    }
}

#[test]
fn instants_hold_moments_of_the_calendar() {
    let i = Instant::from_timestamp(1_700_000_000, 999_999_999).unwrap();
    assert_eq!((i.timestamp(), i.subsec_nanos()), (1_700_000_000, 999_999_999));
    assert!(Instant::from_timestamp(1_700_000_000, 2_000_000_000).is_none());
    assert!(Instant::from_timestamp(i64::MAX, 0).is_none());
    assert!(Instant::from_timestamp(i64::MIN, 0).is_none());
    assert!(Instant::from_timestamp(8_210_266_876_799, 0).is_some());
    assert!(Instant::from_timestamp(8_210_266_876_800, 0).is_none());
}

#[test]
fn time_between_instants() {
    let a = Instant::from_timestamp(1_000, 250_000_000).unwrap();
    let b = Instant::from_timestamp(1_010, 0).unwrap();
    assert_eq!(b.seconds_since(&a), 9);
    assert_eq!(a.seconds_since(&b), -9);
    // A week's start lies seven days before its reset.
    let reset = Instant::from_timestamp(604_800 + 1_000, 250_000_000).unwrap();
    assert_eq!(a.seconds_into_week(&reset), 0);
    assert_eq!(b.seconds_into_week(&reset), 9);
    let now = Instant::now();
    assert!(now.timestamp() > 1_700_000_000);
}

#[test]
fn timestamps_are_parsed() {
    let i = Instant::parse_rfc3339("1970-01-01T00:00:10.5Z").unwrap();
    assert_eq!((i.timestamp(), i.subsec_nanos()), (10, 500_000_000));
    let i = Instant::parse_rfc3339("2016-12-31T23:59:60Z").unwrap();
    assert_eq!((i.timestamp(), i.subsec_nanos()), (1_483_228_799, 1_000_000_000));
    assert!(Instant::parse_rfc3339("1970-01-01 00:00").is_none());
}
