//! The tray icons, drawn into memory: a badge coloured by how high a value is,
//! with the value on it in seven-segment digits.

use crate::usage::TrayState;
use vstd::prelude::*;

verus! {

pub const GREEN: [u8; 3] = [45, 164, 78];

pub const AMBER: [u8; 3] = [222, 163, 30];

pub const RED: [u8; 3] = [216, 59, 59];

pub const GRAY: [u8; 3] = [140, 140, 140];

/// Width and height of the canvas. Windows scales it down to what the tray needs.
pub const SIZE: u32 = 96;

/// Bytes of the canvas: four for each pixel.
pub const RGBA_LEN: usize = 36_864;

// ---------------------------------------------------------------------------
// Colours
// ---------------------------------------------------------------------------

/// The colour of a percentage: green under 50, amber up to 80, red above.
pub open spec fn pct_color(pct: int) -> [u8; 3] {
    if pct > 80 {
        RED
    } else if pct >= 50 {
        AMBER
    } else {
        GREEN
    }
}

/// The colour of a percentage.
pub fn color_for_pct(pct: u32) -> (c: [u8; 3])
    ensures
        c == pct_color(pct as int),
{
    if pct > 80 {
        RED
    } else if pct >= 50 {
        AMBER
    } else {
        GREEN
    }
}

/// The colour of a usage state: that of the higher of its two utilizations, or
/// gray where there is none.
pub fn color_for(state: &TrayState) -> (c: [u8; 3])
    ensures
        c == match *state {
            TrayState::Available { five_hour_pct, seven_day_pct, .. } => pct_color(
                if five_hour_pct >= seven_day_pct {
                    five_hour_pct as int
                } else {
                    seven_day_pct as int
                },
            ),
            TrayState::Unavailable { .. } => GRAY,
        },
{
    match state.max_utilization() {
        None => GRAY,
        Some(pct) => color_for_pct(pct),
    }
}

/// The colour of a temperature in degrees Celsius: green under 70, amber from
/// there, red from 85.
pub open spec fn temp_color(celsius: int) -> [u8; 3] {
    if celsius >= 85 {
        RED
    } else if celsius >= 70 {
        AMBER
    } else {
        GREEN
    }
}

/// The colour of a temperature in degrees Celsius.
pub fn color_for_temp_c(celsius: u32) -> (c: [u8; 3])
    ensures
        c == temp_color(celsius as int),
{
    if celsius >= 85 {
        RED
    } else if celsius >= 70 {
        AMBER
    } else {
        GREEN
    }
}

/// How alarming a colour is.
pub open spec fn alarm(c: [u8; 3]) -> int {
    if c == RED {
        2
    } else if c == AMBER {
        1
    } else {
        0
    }
}

/// A higher utilization, or a higher temperature, never looks less alarming.
pub proof fn higher_values_look_no_less_alarming(less: int, more: int)
    requires
        less <= more,
    ensures
        alarm(pct_color(less)) <= alarm(pct_color(more)),
        alarm(temp_color(less)) <= alarm(temp_color(more)),
{
    assert(GREEN[0] == 45 && AMBER[0] == 222 && RED[0] == 216);
}

/// A thousand times the luminance of a colour, by the broadcast weights.
pub open spec fn luminance(c: [u8; 3]) -> int {
    299 * c[0] + 587 * c[1] + 114 * c[2]
}

/// The colour of digits on a background: black on a light one, white on a dark
/// one.
pub open spec fn digit_color(bg: [u8; 3]) -> [u8; 3] {
    if luminance(bg) > 140_000 {
        [0u8, 0u8, 0u8]
    } else {
        [255u8, 255u8, 255u8]
    }
}

/// The colour of digits on a background.
pub fn text_color_for(bg: [u8; 3]) -> (c: [u8; 3])
    ensures
        c == digit_color(bg),
{
    let light: u32 = 299 * bg[0] as u32 + 587 * bg[1] as u32 + 114 * bg[2] as u32;
    if light > 140_000 {
        [0, 0, 0]
    } else {
        [255, 255, 255]
    }
}

// ---------------------------------------------------------------------------
// The canvas
// ---------------------------------------------------------------------------

/// A pixel: red, green, blue and opacity.
pub type Pixel = (u8, u8, u8, u8);

/// Where the pixel at `(x, y)` starts in the canvas.
pub open spec fn pixel_at(x: int, y: int) -> int {
    (y * 96 + x) * 4
}

/// The pixel at `(x, y)` of a canvas.
pub open spec fn pixel(rgba: Seq<u8>, x: int, y: int) -> Pixel {
    (
        rgba[pixel_at(x, y)],
        rgba[pixel_at(x, y) + 1],
        rgba[pixel_at(x, y) + 2],
        rgba[pixel_at(x, y) + 3],
    )
}

/// Whether `(x, y)` lies on the canvas.
pub open spec fn on_canvas(x: int, y: int) -> bool {
    0 <= x < SIZE && 0 <= y < SIZE
}

/// An opaque pixel of a colour.
pub open spec fn opaque(color: [u8; 3]) -> Pixel {
    (color[0], color[1], color[2], 255u8)
}

/// Whether `(x, y)` lies in the rectangle of width `w` and height `h` whose upper
/// left corner is `(x0, y0)`.
pub open spec fn in_rect(x: int, y: int, x0: int, y0: int, w: int, h: int) -> bool {
    x0 <= x < x0 + w && y0 <= y < y0 + h
}

/// Sets the pixel at `(x, y)`.
fn set_pixel(rgba: &mut [u8], x: usize, y: usize, color: [u8; 3], alpha: u8)
    requires
        old(rgba)@.len() == RGBA_LEN,
        x < SIZE,
        y < SIZE,
    ensures
        final(rgba)@.len() == RGBA_LEN,
        pixel(final(rgba)@, x as int, y as int) == (color[0], color[1], color[2], alpha),
        forall|i: int, j: int|
            on_canvas(i, j) && (i != x || j != y) ==> #[trigger] pixel(final(rgba)@, i, j) == pixel(
                old(rgba)@,
                i,
                j,
            ),
{
    let at: usize = (y * 96 + x) * 4;
    rgba[at] = color[0];
    rgba[at + 1] = color[1];
    rgba[at + 2] = color[2];
    rgba[at + 3] = alpha;
}

/// The greater of two numbers.
fn greater(a: i64, b: i64) -> (r: i64)
    ensures
        r == if a >= b {
            a
        } else {
            b
        },
{
    if a >= b {
        a
    } else {
        b
    }
}

/// Fills a rectangle, as far as it lies on the canvas.
fn fill_area(rgba: &mut [u8], x0: i64, y0: i64, w: i64, h: i64, color: [u8; 3])
    requires
        old(rgba)@.len() == RGBA_LEN,
        i64::MIN <= x0 + w <= i64::MAX,
        i64::MIN <= y0 + h <= i64::MAX,
    ensures
        final(rgba)@.len() == RGBA_LEN,
        forall|x: int, y: int|
            on_canvas(x, y) ==> #[trigger] pixel(final(rgba)@, x, y) == if in_rect(
                x,
                y,
                x0 as int,
                y0 as int,
                w as int,
                h as int,
            ) {
                opaque(color)
            } else {
                pixel(old(rgba)@, x, y)
            },
{
    let left: i64 = greater(x0, 0);
    let right: i64 = if x0 + w < 96 {
        x0 + w
    } else {
        96
    };
    let top: i64 = greater(y0, 0);
    let bottom: i64 = if y0 + h < 96 {
        y0 + h
    } else {
        96
    };
    let ghost before = rgba@;
    let mut y: i64 = top;
    while y < bottom
        invariant
            rgba@.len() == RGBA_LEN,
            0 <= left,
            right <= 96,
            0 <= top <= y,
            bottom <= 96,
            y <= bottom || y == top,
            forall|i: int, j: int|
                on_canvas(i, j) ==> #[trigger] pixel(rgba@, i, j) == if left <= i < right && top
                    <= j < y {
                    opaque(color)
                } else {
                    pixel(before, i, j)
                },
        decreases bottom - y,
    {
        let mut x: i64 = left;
        while x < right
            invariant
                rgba@.len() == RGBA_LEN,
                0 <= left <= x,
                right <= 96,
                0 <= top <= y < 96,
                x <= right || x == left,
                forall|i: int, j: int|
                    on_canvas(i, j) ==> #[trigger] pixel(rgba@, i, j) == if left <= i < right && (
                    top <= j < y || j == y && i < x) {
                        opaque(color)
                    } else {
                        pixel(before, i, j)
                    },
            decreases right - x,
        {
            set_pixel(rgba, x as usize, y as usize, color, 255);
            x = x + 1;
        }
        y = y + 1;
    }
}

/// Fills a rectangle, as far as it lies on the canvas.
pub fn fill_rect(rgba: &mut [u8], x0: i32, y0: i32, w: i32, h: i32, color: [u8; 3])
    requires
        old(rgba)@.len() == RGBA_LEN,
    ensures
        final(rgba)@.len() == RGBA_LEN,
        forall|x: int, y: int|
            on_canvas(x, y) ==> #[trigger] pixel(final(rgba)@, x, y) == if in_rect(
                x,
                y,
                x0 as int,
                y0 as int,
                w as int,
                h as int,
            ) {
                opaque(color)
            } else {
                pixel(old(rgba)@, x, y)
            },
{
    fill_area(rgba, x0 as i64, y0 as i64, w as i64, h as i64, color);
}

// ---------------------------------------------------------------------------
// Digits
// ---------------------------------------------------------------------------

/// Which of the seven segments each digit lights: top, upper right, lower right,
/// bottom, lower left, upper left, middle.
pub const SEGMENTS: [[bool; 7]; 10] = [
    [true, true, true, true, true, true, false],
    [false, true, true, false, false, false, false],
    [true, true, false, true, true, false, true],
    [true, true, true, true, false, false, true],
    [false, true, true, false, false, true, true],
    [true, false, true, true, false, true, true],
    [true, false, true, true, true, true, true],
    [true, true, true, false, false, false, false],
    [true, true, true, true, true, true, true],
    [true, true, true, true, false, true, true],
];

/// Whether a digit lights a segment.
pub open spec fn lights(digit: int, segment: int) -> bool {
    SEGMENTS[digit][segment]
}

/// No two digits light the same segments.
pub proof fn digits_are_told_apart(a: int, b: int)
    requires
        0 <= a < 10,
        0 <= b < 10,
        forall|s: int| 0 <= s < 7 ==> lights(a, s) == lights(b, s),
    ensures
        a == b,
{
    assert(lights(a, 0) == lights(b, 0));
    assert(lights(a, 1) == lights(b, 1));
    assert(lights(a, 2) == lights(b, 2));
    assert(lights(a, 3) == lights(b, 3));
    assert(lights(a, 4) == lights(b, 4));
    assert(lights(a, 5) == lights(b, 5));
    assert(lights(a, 6) == lights(b, 6));
}

/// The thickness of the segments of a digit of width `w`: a quarter of it.
pub open spec fn thickness(w: int) -> int {
    if w / 4 > 5 {
        w / 4
    } else {
        5
    }
}

/// Half of a number, towards zero.
pub open spec fn half(n: int) -> int {
    if n >= 0 {
        n / 2
    } else {
        -((-n) / 2)
    }
}

/// How far under the upper edge of a digit its middle segment starts.
pub open spec fn middle(w: int, h: int) -> int {
    half(h) - thickness(w) / 2
}

/// The rectangle of a segment in a digit of width `w` and height `h`: its left and
/// its upper edge, counted from the digit's upper left corner, its width and its
/// height. Three bars go over the whole width; between them stand the uprights, at
/// both sides.
pub open spec fn segment_rect(segment: int, w: int, h: int) -> (int, int, int, int) {
    let t = thickness(w);
    let m = middle(w, h);
    if segment == 0 {
        (0, 0, w, t)
    } else if segment == 1 {
        (w - t, t, t, m - t)
    } else if segment == 2 {
        (w - t, m + t, t, h - t - (m + t))
    } else if segment == 3 {
        (0, h - t, w, t)
    } else if segment == 4 {
        (0, m + t, t, h - t - (m + t))
    } else if segment == 5 {
        (0, t, t, m - t)
    } else {
        (0, m, w, t)
    }
}

/// Whether `(x, y)`, counted from the upper left corner of a digit, lies in one of
/// its segments.
pub open spec fn in_segment(segment: int, x: int, y: int, w: int, h: int) -> bool {
    let r = segment_rect(segment, w, h);
    in_rect(x, y, r.0, r.1, r.2, r.3)
}

/// Whether one of the first `n` segments of a digit lights `(x, y)`, counted from
/// the digit's upper left corner.
pub open spec fn lit_by_first(n: int, digit: int, x: int, y: int, w: int, h: int) -> bool {
    exists|s: int| 0 <= s < n && lights(digit, s) && #[trigger] in_segment(s, x, y, w, h)
}

/// Whether a digit lights `(x, y)`, counted from its upper left corner.
pub open spec fn lit(digit: int, x: int, y: int, w: int, h: int) -> bool {
    lit_by_first(7, digit, x, y, w, h)
}

/// The rectangle of a segment.
fn segment_area(segment: usize, w: i64, h: i64) -> (r: (i64, i64, i64, i64))
    requires
        i32::MIN <= w <= i32::MAX,
        i32::MIN <= h <= i32::MAX,
    ensures
        (r.0 as int, r.1 as int, r.2 as int, r.3 as int) == segment_rect(
            segment as int,
            w as int,
            h as int,
        ),
{
    let t: i64 = greater(w / 4, 5);
    assert(t == thickness(w as int));
    let half_h: i64 = h / 2;
    assert(half_h == half(h as int));
    let m: i64 = half_h - t / 2;
    match segment {
        0 => (0, 0, w, t),
        1 => (w - t, t, t, m - t),
        2 => (w - t, m + t, t, h - t - (m + t)),
        3 => (0, h - t, w, t),
        4 => (0, m + t, t, h - t - (m + t)),
        5 => (0, t, t, m - t),
        _ => (0, m, w, t),
    }
}

/// Draws a digit of width `w` and height `h` with its upper left corner at
/// `(x0, y0)`, as far as it lies on the canvas.
pub fn draw_seven_segment_digit(
    rgba: &mut [u8],
    x0: i32,
    y0: i32,
    w: i32,
    h: i32,
    digit: u8,
    color: [u8; 3],
)
    requires
        old(rgba)@.len() == RGBA_LEN,
        digit < 10,
    ensures
        final(rgba)@.len() == RGBA_LEN,
        forall|x: int, y: int|
            on_canvas(x, y) ==> #[trigger] pixel(final(rgba)@, x, y) == if lit(
                digit as int,
                x - x0,
                y - y0,
                w as int,
                h as int,
            ) {
                opaque(color)
            } else {
                pixel(old(rgba)@, x, y)
            },
{
    let segs = SEGMENTS[digit as usize];
    let ghost before = rgba@;
    for s in 0..7
        invariant
            rgba@.len() == RGBA_LEN,
            digit < 10,
            segs == SEGMENTS[digit as int],
            forall|x: int, y: int|
                on_canvas(x, y) ==> #[trigger] pixel(rgba@, x, y) == if lit_by_first(
                    s as int,
                    digit as int,
                    x - x0,
                    y - y0,
                    w as int,
                    h as int,
                ) {
                    opaque(color)
                } else {
                    pixel(before, x, y)
                },
    {
        let area = segment_area(s, w as i64, h as i64);
        let ghost mid = rgba@;
        if segs[s] {
            fill_area(rgba, x0 as i64 + area.0, y0 as i64 + area.1, area.2, area.3, color);
        }
        proof {
            assert forall|x: int, y: int| on_canvas(x, y) implies #[trigger] pixel(rgba@, x, y)
                == if lit_by_first(s + 1, digit as int, x - x0, y - y0, w as int, h as int) {
                opaque(color)
            } else {
                pixel(before, x, y)
            } by {
                let (dx, dy) = (x - x0, y - y0);
                assert(pixel(mid, x, y) == if lit_by_first(
                    s as int,
                    digit as int,
                    dx,
                    dy,
                    w as int,
                    h as int,
                ) {
                    opaque(color)
                } else {
                    pixel(before, x, y)
                });
                assert(lights(digit as int, s as int) == segs[s as int]);
                assert(in_segment(s as int, dx, dy, w as int, h as int) == in_rect(
                    x,
                    y,
                    x0 + area.0,
                    y0 + area.1,
                    area.2 as int,
                    area.3 as int,
                ));
                if lit_by_first(s as int, digit as int, dx, dy, w as int, h as int) {
                    let k = choose|k: int|
                        0 <= k < s && lights(digit as int, k) && #[trigger] in_segment(
                            k,
                            dx,
                            dy,
                            w as int,
                            h as int,
                        );
                    assert(0 <= k < s + 1);
                }
            }
        }
    }
}

/// The decimal digits of a number, the most significant one first.
pub open spec fn digits(n: nat) -> Seq<u8>
    decreases n,
{
    if n < 10 {
        seq![n as u8]
    } else {
        digits(n / 10).push((n % 10) as u8)
    }
}

/// The highest number that is drawn.
pub open spec fn drawn_number(pct: u32) -> nat {
    if pct > 999 {
        999
    } else {
        pct as nat
    }
}

/// The digits that are drawn for a number: those of 999 where it is higher.
pub fn digits_of(pct: u32) -> (r: Vec<u8>)
    ensures
        r@ == digits(drawn_number(pct)),
        1 <= r@.len() <= 3,
        forall|i: int| 0 <= i < r@.len() ==> r@[i] < 10,
{
    let n: u32 = if pct > 999 {
        999
    } else {
        pct
    };
    proof {
        reveal_with_fuel(digits, 3);
    }
    let mut r: Vec<u8> = Vec::new();
    if n >= 100 {
        r.push((n / 100) as u8);
    }
    if n >= 10 {
        r.push((n / 10 % 10) as u8);
    }
    r.push((n % 10) as u8);
    proof {
        let k = n as nat;
        if n >= 100 {
            assert(digits(k / 100) =~= seq![(k / 100) as u8]);
            assert((k / 10) / 10 == k / 100);
            assert(digits(k / 10) =~= seq![(k / 100) as u8, (k / 10 % 10) as u8]);
        } else if n >= 10 {
            assert(digits(k / 10) =~= seq![(k / 10) as u8]);
        }
        assert(r@ =~= digits(k));
    }
    r
}

/// The width and the height of a digit and the gap between two, for a number of
/// so many digits. The fewer there are, the bigger; all of them fit the circle, not
/// only the canvas, so that no corner is drawn beside the badge.
pub open spec fn digit_box(len: nat) -> (int, int, int) {
    if len == 1 {
        (44, 80, 0)
    } else if len == 2 {
        (32, 56, 8)
    } else {
        (24, 44, 4)
    }
}

/// The width and the height of a digit and the gap between two.
pub fn digit_box_for_count(len: usize) -> (r: (i32, i32, i32))
    ensures
        (r.0 as int, r.1 as int, r.2 as int) == digit_box(len as nat),
{
    match len {
        1 => (44, 80, 0),
        2 => (32, 56, 8),
        _ => (24, 44, 4),
    }
}

/// The width of a number of so many digits, with the gaps between them.
pub open spec fn number_width(len: nat) -> int {
    len * digit_box(len).0 + (len - 1) * digit_box(len).2
}

/// A number of one to three digits fits the canvas in both directions, its diagonal
/// is no longer than the circle is wide, and its segments leave room between the
/// bars, so that no digit turns into a block.
pub proof fn digit_boxes_fit(len: nat)
    requires
        1 <= len <= 3,
    ensures
        number_width(len) <= SIZE,
        digit_box(len).1 <= SIZE,
        number_width(len) * number_width(len) + digit_box(len).1 * digit_box(len).1 <= 92 * 92,
        middle(digit_box(len).0, digit_box(len).1) - thickness(digit_box(len).0) > 0,
        digit_box(len).1 - thickness(digit_box(len).0) - (middle(
            digit_box(len).0,
            digit_box(len).1,
        ) + thickness(digit_box(len).0)) > 0,
{
    assert(len == 1 || len == 2 || len == 3);
    assert(number_width(1) == 44 && number_width(2) == 72 && number_width(3) == 80);
    let (w, h) = (number_width(len), digit_box(len).1);
    assert(w * w + h * h <= 92 * 92) by (nonlinear_arith)
        requires
            w == 44 && h == 80 || w == 72 && h == 56 || w == 80 && h == 44,
    ;
}

/// Where digit `i` of a number of so many digits starts: the number stands in the
/// middle.
pub open spec fn digit_left(len: nat, i: int) -> int {
    (SIZE - number_width(len)) / 2 + i * (digit_box(len).0 + digit_box(len).2)
}

/// Where the digits of a number of so many digits start, from the top.
pub open spec fn digit_top(len: nat) -> int {
    (SIZE - digit_box(len).1) / 2
}

/// Whether digit `i` of `ds` lights `(x, y)`.
pub open spec fn digit_lights(ds: Seq<u8>, i: int, x: int, y: int) -> bool {
    lit(
        ds[i] as int,
        x - digit_left(ds.len(), i),
        y - digit_top(ds.len()),
        digit_box(ds.len()).0,
        digit_box(ds.len()).1,
    )
}

/// Whether the number of the digits `ds` lights `(x, y)`.
pub open spec fn number_lights(ds: Seq<u8>, x: int, y: int) -> bool {
    exists|i: int| 0 <= i < ds.len() && #[trigger] digit_lights(ds, i, x, y)
}

/// Nothing of a number is cut off at the edge of the canvas: all that its digits
/// light lies on it.
pub proof fn numbers_stay_on_the_canvas(ds: Seq<u8>, x: int, y: int)
    requires
        1 <= ds.len() <= 3,
        number_lights(ds, x, y),
    ensures
        on_canvas(x, y),
{
    let i = choose|i: int| 0 <= i < ds.len() && #[trigger] digit_lights(ds, i, x, y);
    lit_is_inside_the_box(ds, i, x, y);
    digit_places();
    let len = ds.len();
    assert(len == 1 || len == 2 || len == 3);
    assert(i == 0 || i == 1 || i == 2);
}

/// Where the digits of the numbers of one to three digits start.
proof fn digit_places()
    ensures
        digit_left(1, 0) == 26,
        digit_left(2, 0) == 12,
        digit_left(2, 1) == 52,
        digit_left(3, 0) == 8,
        digit_left(3, 1) == 36,
        digit_left(3, 2) == 64,
{
}

/// What a digit lights lies inside of its box.
proof fn lit_is_inside_the_box(ds: Seq<u8>, i: int, x: int, y: int)
    requires
        1 <= ds.len() <= 3,
        digit_lights(ds, i, x, y),
    ensures
        0 <= x - digit_left(ds.len(), i) < digit_box(ds.len()).0,
        0 <= y - digit_top(ds.len()) < digit_box(ds.len()).1,
{
    let len = ds.len();
    let (dx, dy) = (x - digit_left(len, i), y - digit_top(len));
    let (w, h) = (digit_box(len).0, digit_box(len).1);
    let s = choose|s: int|
        0 <= s < 7 && lights(ds[i] as int, s) && #[trigger] in_segment(s, dx, dy, w, h);
    assert(len == 1 || len == 2 || len == 3);
    assert(in_segment(s, dx, dy, w, h));
}

/// Draws a number in the middle of the canvas, in the colour that contrasts with
/// the background `bg`.
pub fn draw_percentage(rgba: &mut [u8], pct: u32, bg: [u8; 3])
    requires
        old(rgba)@.len() == RGBA_LEN,
    ensures
        final(rgba)@.len() == RGBA_LEN,
        forall|x: int, y: int|
            on_canvas(x, y) ==> #[trigger] pixel(final(rgba)@, x, y) == if number_lights(
                digits(drawn_number(pct)),
                x,
                y,
            ) {
                opaque(digit_color(bg))
            } else {
                pixel(old(rgba)@, x, y)
            },
{
    let ds = digits_of(pct);
    let len: usize = ds.len();
    let (w, h, gap) = digit_box_for_count(len);
    assert(len == 1 || len == 2 || len == 3);
    proof {
        let (n, wide, apart) = (len as int, w as int, gap as int);
        assert(0 <= n * wide <= 72) by (nonlinear_arith)
            requires
                n == 1 && wide == 44 || n == 2 && wide == 32 || n == 3 && wide == 24,
        ;
        assert(0 <= (n - 1) * apart <= 8) by (nonlinear_arith)
            requires
                n == 1 && apart == 0 || n == 2 && apart == 8 || n == 3 && apart == 4,
        ;
    }
    let total: i32 = len as i32 * w + (len as i32 - 1) * gap;
    let start_x: i32 = (96 - total) / 2;
    let start_y: i32 = (96 - h) / 2;
    let color = text_color_for(bg);
    let ghost before = rgba@;
    for i in 0..len
        invariant
            rgba@.len() == RGBA_LEN,
            len == ds@.len(),
            1 <= len <= 3,
            forall|k: int| 0 <= k < ds@.len() ==> ds@[k] < 10,
            (w as int, h as int, gap as int) == digit_box(ds@.len()),
            start_x == digit_left(ds@.len(), 0),
            start_y == digit_top(ds@.len()),
            color == digit_color(bg),
            forall|x: int, y: int|
                on_canvas(x, y) ==> #[trigger] pixel(rgba@, x, y) == if (exists|k: int|
                    0 <= k < i && #[trigger] digit_lights(ds@, k, x, y)) {
                    opaque(color)
                } else {
                    pixel(before, x, y)
                },
    {
        assert(len == 1 || len == 2 || len == 3);
        assert(i == 0 || i == 1 || i == 2);
        proof {
            digit_places();
            let (k, pitch) = (i as int, w + gap);
            assert(0 <= k * pitch <= 88) by (nonlinear_arith)
                requires
                    0 <= k <= 2,
                    0 <= pitch <= 44,
            ;
        }
        let x0: i32 = start_x + i as i32 * (w + gap);
        assert(x0 == digit_left(ds@.len(), i as int));
        let ghost mid = rgba@;
        draw_seven_segment_digit(rgba, x0, start_y, w, h, ds[i], color);
        proof {
            assert forall|x: int, y: int| on_canvas(x, y) implies #[trigger] pixel(rgba@, x, y)
                == if (exists|k: int| 0 <= k < i + 1 && #[trigger] digit_lights(ds@, k, x, y)) {
                opaque(color)
            } else {
                pixel(before, x, y)
            } by {
                assert(pixel(mid, x, y) == if (exists|k: int|
                    0 <= k < i && #[trigger] digit_lights(ds@, k, x, y)) {
                    opaque(color)
                } else {
                    pixel(before, x, y)
                });
                assert(digit_lights(ds@, i as int, x, y) == lit(
                    ds@[i as int] as int,
                    x - x0,
                    y - start_y,
                    w as int,
                    h as int,
                ));
                if exists|k: int| 0 <= k < i && #[trigger] digit_lights(ds@, k, x, y) {
                    let k = choose|k: int| 0 <= k < i && #[trigger] digit_lights(ds@, k, x, y);
                    assert(0 <= k < i + 1);
                }
            }
        }
    }
}

// ---------------------------------------------------------------------------
// The badge
// ---------------------------------------------------------------------------

/// The shape of a badge. Usage is shown on a circle and temperature on a square:
/// they share their colours, so it is the shape that tells them apart.
#[derive(Clone, Copy, PartialEq, Eq, Structural, Debug)]
pub enum BadgeShape {
    Circle,
    RoundedSquare,
}

impl BadgeShape {
    /// Twice the distance from the centre of the canvas, in either direction, at
    /// which the rounding of a corner begins. A circle is all rounding.
    pub open spec fn flat(self) -> int {
        match self {
            BadgeShape::Circle => 0,
            BadgeShape::RoundedSquare => 52,
        }
    }

    fn flat_part(self) -> (r: i64)
        ensures
            r == self.flat(),
    {
        match self {
            BadgeShape::Circle => 0,
            BadgeShape::RoundedSquare => 52,
        }
    }
}

/// By how much twice the distance of a pixel from the centre, in one direction,
/// goes beyond the flat part of a shape.
pub open spec fn overhang(shape: BadgeShape, at: int) -> int {
    let d = if 2 * at >= 95 {
        2 * at - 95
    } else {
        95 - 2 * at
    };
    if d > shape.flat() {
        d - shape.flat()
    } else {
        0
    }
}

/// The square of twice the distance of a pixel from the flat part of a shape.
pub open spec fn distance2(shape: BadgeShape, x: int, y: int) -> int {
    overhang(shape, x) * overhang(shape, x) + overhang(shape, y) * overhang(shape, y)
}

/// Twice the distance from its flat part at which a shape ends.
pub open spec fn reach(shape: BadgeShape) -> int {
    93 - shape.flat()
}

/// Whether a pixel at a distance is covered to at least `k` parts in 255. The edge
/// falls off over one pixel, so a pixel that lies `k` parts of 255 inside of it is
/// covered that far.
pub open spec fn covered(dist2: int, reach: int, k: int) -> bool {
    65_025 * dist2 <= (255 * reach - 2 * k) * (255 * reach - 2 * k)
}

/// The greatest number of parts in 255, up to `k`, that a pixel at a distance is
/// covered to.
pub open spec fn greatest_cover(dist2: int, reach: int, k: nat) -> nat
    decreases k,
{
    if k == 0 || covered(dist2, reach, k as int) {
        k
    } else {
        greatest_cover(dist2, reach, (k - 1) as nat)
    }
}

/// The pixel of a badge without a number.
pub open spec fn badge_pixel(color: [u8; 3], shape: BadgeShape, x: int, y: int) -> Pixel {
    if distance2(shape, x, y) < reach(shape) * reach(shape) {
        (
            color[0],
            color[1],
            color[2],
            greatest_cover(distance2(shape, x, y), reach(shape), 255) as u8,
        )
    } else {
        (0, 0, 0, 0)
    }
}

/// The pixel of a badge with the number `pct`, where there is one.
pub open spec fn icon_pixel(
    color: [u8; 3],
    pct: Option<u32>,
    shape: BadgeShape,
    x: int,
    y: int,
) -> Pixel {
    if pct is Some && number_lights(digits(drawn_number(pct->0)), x, y) {
        opaque(digit_color(color))
    } else {
        badge_pixel(color, shape, x, y)
    }
}

/// The cover of a pixel is a number of parts that it is covered to, and it is not
/// covered to any more.
pub proof fn cover_is_the_greatest(dist2: int, reach: int, k: nat, cover: nat)
    requires
        cover <= k,
        cover > 0 ==> covered(dist2, reach, cover as int),
        forall|j: int| cover < j <= k ==> !#[trigger] covered(dist2, reach, j),
    ensures
        greatest_cover(dist2, reach, k) == cover,
    decreases k,
{
    if k > cover {
        assert(!covered(dist2, reach, k as int));
        cover_is_the_greatest(dist2, reach, (k - 1) as nat, cover);
    }
}

/// A pixel at least a pixel inside the edge is opaque.
pub proof fn the_inside_is_opaque(shape: BadgeShape, x: int, y: int)
    requires
        distance2(shape, x, y) <= (reach(shape) - 2) * (reach(shape) - 2),
    ensures
        greatest_cover(distance2(shape, x, y), reach(shape), 255) == 255,
{
    let d = distance2(shape, x, y);
    let r = reach(shape);
    assert(65_025 * ((r - 2) * (r - 2)) == (255 * r - 2 * 255) * (255 * r - 2 * 255))
        by (nonlinear_arith);
}

/// Nothing of a number hangs over its badge: all that its digits light lies at least
/// a pixel inside the edge, where the badge is opaque.
pub proof fn numbers_stay_on_the_badge(ds: Seq<u8>, shape: BadgeShape, x: int, y: int)
    requires
        1 <= ds.len() <= 3,
        number_lights(ds, x, y),
    ensures
        distance2(shape, x, y) <= (reach(shape) - 2) * (reach(shape) - 2),
        greatest_cover(distance2(shape, x, y), reach(shape), 255) == 255,
        forall|color: [u8; 3]| #[trigger] badge_pixel(color, shape, x, y) == opaque(color),
{
    let i = choose|i: int| 0 <= i < ds.len() && #[trigger] digit_lights(ds, i, x, y);
    lit_is_inside_the_box(ds, i, x, y);
    digit_places();
    let len = ds.len();
    assert(len == 1 || len == 2 || len == 3);
    assert(i == 0 || i == 1 || i == 2);
    let (u, v) = (overhang(shape, x), overhang(shape, y));
    let (wide, high): (int, int) = if len == 1 {
        (43, 79)
    } else if len == 2 {
        (71, 55)
    } else {
        (79, 43)
    };
    let flat = shape.flat();
    assert(0 <= u && (u <= wide - flat || u == 0));
    assert(0 <= v && (v <= high - flat || v == 0));
    let r = reach(shape);
    assert(u * u + v * v <= (r - 2) * (r - 2)) by (nonlinear_arith)
        requires
            0 <= u,
            0 <= v,
            flat == 0 && r == 93 && (u <= 43 && v <= 79 || u <= 71 && v <= 55 || u <= 79 && v <= 43)
                || flat == 52 && r == 41 && u <= 27 && v <= 27,
    ;
    the_inside_is_opaque(shape, x, y);
    assert((r - 2) * (r - 2) < r * r) by (nonlinear_arith)
        requires
            r > 2,
    ;
}

proof fn overhang_bound(shape: BadgeShape, at: int)
    requires
        0 <= at < 96,
    ensures
        0 <= overhang(shape, at) <= 95,
        0 <= overhang(shape, at) * overhang(shape, at) <= 9025,
{
    let o = overhang(shape, at);
    assert(o * o <= 9025) by (nonlinear_arith)
        requires
            0 <= o <= 95,
    ;
    assert(o * o >= 0) by (nonlinear_arith);
}

fn overhang_of(shape: BadgeShape, at: i64) -> (r: i64)
    requires
        0 <= at < 96,
    ensures
        r == overhang(shape, at as int),
{
    let d: i64 = if 2 * at >= 95 {
        2 * at - 95
    } else {
        95 - 2 * at
    };
    let flat: i64 = shape.flat_part();
    if d > flat {
        d - flat
    } else {
        0
    }
}

/// How many parts in 255 a pixel at a distance is covered to.
fn cover(dist2: i64, reach: i64) -> (k: u8)
    requires
        0 <= dist2 <= 18_050,
        0 <= reach <= 93,
    ensures
        k == greatest_cover(dist2 as int, reach as int, 255),
{
    let mut k: i64 = 255;
    while k > 0
        invariant
            0 <= dist2 <= 18_050,
            0 <= reach <= 93,
            0 <= k <= 255,
            greatest_cover(dist2 as int, reach as int, 255) == greatest_cover(
                dist2 as int,
                reach as int,
                k as nat,
            ),
        decreases k,
    {
        let side: i64 = 255 * reach - 2 * k;
        assert(-510 <= side <= 23_715);
        assert(side * side <= 562_401_225) by (nonlinear_arith)
            requires
                -510 <= side <= 23_715,
        ;
        assert(side * side >= 0) by (nonlinear_arith);
        if 65_025 * dist2 <= side * side {
            assert(covered(dist2 as int, reach as int, k as int));
            return k as u8;
        }
        assert(!covered(dist2 as int, reach as int, k as int));
        k = k - 1;
    }
    0
}

/// Draws a badge in a colour and shape, with a number on it where there is one.
pub fn badge_rgba(color: [u8; 3], pct: Option<u32>, shape: BadgeShape) -> (rgba: Vec<u8>)
    ensures
        rgba@.len() == RGBA_LEN,
        forall|x: int, y: int|
            on_canvas(x, y) ==> #[trigger] pixel(rgba@, x, y) == icon_pixel(
                color,
                pct,
                shape,
                x,
                y,
            ),
{
    let mut rgba: Vec<u8> = vec![0u8; RGBA_LEN];
    let reach_len: i64 = 93 - shape.flat_part();
    let mut y: usize = 0;
    while y < 96
        invariant
            y <= 96,
            reach_len == reach(shape),
            0 <= reach_len <= 93,
            rgba@.len() == RGBA_LEN,
            forall|i: int, j: int|
                on_canvas(i, j) ==> #[trigger] pixel(rgba@, i, j) == if j < y {
                    badge_pixel(color, shape, i, j)
                } else {
                    (0u8, 0u8, 0u8, 0u8)
                },
        decreases 96 - y,
    {
        let mut x: usize = 0;
        let dy: i64 = overhang_of(shape, y as i64);
        while x < 96
            invariant
                x <= 96,
                y < 96,
                reach_len == reach(shape),
                0 <= reach_len <= 93,
                dy == overhang(shape, y as int),
                rgba@.len() == RGBA_LEN,
                forall|i: int, j: int|
                    on_canvas(i, j) ==> #[trigger] pixel(rgba@, i, j) == if j < y || j == y && i
                        < x {
                        badge_pixel(color, shape, i, j)
                    } else {
                        (0u8, 0u8, 0u8, 0u8)
                    },
            decreases 96 - x,
        {
            let dx: i64 = overhang_of(shape, x as i64);
            proof {
                overhang_bound(shape, x as int);
                overhang_bound(shape, y as int);
                assert(reach_len * reach_len <= 8649) by (nonlinear_arith)
                    requires
                        0 <= reach_len <= 93,
                ;
                assert(reach_len * reach_len >= 0) by (nonlinear_arith);
            }
            let dist2: i64 = dx * dx + dy * dy;
            assert(dist2 == distance2(shape, x as int, y as int));
            if dist2 < reach_len * reach_len {
                let alpha: u8 = cover(dist2, reach_len);
                set_pixel(rgba.as_mut_slice(), x, y, color, alpha);
            }
            x = x + 1;
        }
        y = y + 1;
    }
    if let Some(pct) = pct {
        draw_percentage(rgba.as_mut_slice(), pct, color);
    }
    rgba
}

/// Draws the round badge that shows usage.
pub fn build_rgba(color: [u8; 3], pct: Option<u32>) -> (rgba: Vec<u8>)
    ensures
        rgba@.len() == RGBA_LEN,
        forall|x: int, y: int|
            on_canvas(x, y) ==> #[trigger] pixel(rgba@, x, y) == icon_pixel(
                color,
                pct,
                BadgeShape::Circle,
                x,
                y,
            ),
{
    badge_rgba(color, pct, BadgeShape::Circle)
}

/// The shape of a badge can be told whatever its colour and number: the upper left
/// part of its outline is empty on a circle, and on a square it is not.
pub proof fn shapes_are_told_apart(color: [u8; 3], pct: Option<u32>)
    ensures
        icon_pixel(color, pct, BadgeShape::Circle, 8, 8) == (0u8, 0u8, 0u8, 0u8),
        icon_pixel(color, pct, BadgeShape::RoundedSquare, 8, 8) == opaque(color),
{
    if pct is Some {
        let ds = digits(drawn_number(pct->0));
        reveal_with_fuel(digits, 4);
        assert(1 <= ds.len() <= 3);
        if number_lights(ds, 8, 8) {
            let i = choose|i: int| 0 <= i < ds.len() && #[trigger] digit_lights(ds, i, 8, 8);
            lit_is_inside_the_box(ds, i, 8, 8);
            digit_places();
            assert(ds.len() == 1 || ds.len() == 2 || ds.len() == 3);
            assert(i == 0 || i == 1 || i == 2);
        }
    }
    let square = overhang(BadgeShape::RoundedSquare, 8);
    let circle = overhang(BadgeShape::Circle, 8);
    assert(square * square == 729) by (nonlinear_arith)
        requires
            square == 27,
    ;
    assert(circle * circle == 6241) by (nonlinear_arith)
        requires
            circle == 79,
    ;
    let inside = reach(BadgeShape::RoundedSquare) - 2;
    assert(inside * inside == 1521) by (nonlinear_arith)
        requires
            inside == 39,
    ;
    the_inside_is_opaque(BadgeShape::RoundedSquare, 8, 8);
}

// ---------------------------------------------------------------------------
// What a badge shows
// ---------------------------------------------------------------------------

/// The colours are green, amber, red and gray; a percentage is green under 50, amber
/// from 50 to 80 and red above, and a temperature is green under 70, amber from 70 to
/// 84 and red from 85 on.
pub proof fn values_have_their_colors(value: int)
    ensures
        value < 50 ==> opaque(pct_color(value)) == (45u8, 164u8, 78u8, 255u8),
        50 <= value <= 80 ==> opaque(pct_color(value)) == (222u8, 163u8, 30u8, 255u8),
        value > 80 ==> opaque(pct_color(value)) == (216u8, 59u8, 59u8, 255u8),
        value < 70 ==> opaque(temp_color(value)) == (45u8, 164u8, 78u8, 255u8),
        70 <= value < 85 ==> opaque(temp_color(value)) == (222u8, 163u8, 30u8, 255u8),
        value >= 85 ==> opaque(temp_color(value)) == (216u8, 59u8, 59u8, 255u8),
        opaque(GRAY) == (140u8, 140u8, 140u8, 255u8),
{
}

/// Digits are black on a light background and white on a dark one, so that they never
/// have the colour they stand on.
pub proof fn digits_contrast(bg: [u8; 3])
    ensures
        299 * bg[0] + 587 * bg[1] + 114 * bg[2] > 140_000 ==> opaque(digit_color(bg)) == (
            0u8,
            0u8,
            0u8,
            255u8,
        ),
        299 * bg[0] + 587 * bg[1] + 114 * bg[2] <= 140_000 ==> opaque(digit_color(bg)) == (
            255u8,
            255u8,
            255u8,
            255u8,
        ),
        opaque(digit_color(bg)) != opaque(bg),
{
}

/// Each digit lights the segments of its shape: all of them light the top but for 1 and
/// 4, the upper right but for 5 and 6, the lower right but for 2, the bottom but for 1,
/// 4 and 7, the lower left in 0, 2, 6 and 8 alone, the upper left but for 1, 2, 3 and 7,
/// and the middle but for 0, 1 and 7.
pub proof fn digits_have_their_segments(d: int)
    requires
        0 <= d < 10,
    ensures
        lights(d, 0) <==> d != 1 && d != 4,
        lights(d, 1) <==> d != 5 && d != 6,
        lights(d, 2) <==> d != 2,
        lights(d, 3) <==> d != 1 && d != 4 && d != 7,
        lights(d, 4) <==> d == 0 || d == 2 || d == 6 || d == 8,
        lights(d, 5) <==> d != 1 && d != 2 && d != 3 && d != 7,
        lights(d, 6) <==> d != 0 && d != 1 && d != 7,
{
}

/// What a digit lights, for every size: bars as wide as the digit at its top, its bottom
/// and its middle, and between them uprights at its sides, all of them a quarter of the
/// width thick and at least five pixels; of these, the ones that its shape has.
pub proof fn a_digit_is_made_of_bars(d: int, x: int, y: int, w: int, h: int, t: int, m: int)
    requires
        0 <= d < 10,
        t == if w >= 24 {
            w / 4
        } else {
            5
        },
        m == (if h >= 0 {
            h / 2
        } else {
            -((-h) / 2)
        }) - t / 2,
    ensures
        lit(d, x, y, w, h) <==> {
            ||| 0 <= x < w && 0 <= y < t && d != 1 && d != 4
            ||| 0 <= x < w && m <= y < m + t && d != 0 && d != 1 && d != 7
            ||| 0 <= x < w && h - t <= y < h && d != 1 && d != 4 && d != 7
            ||| w - t <= x < w && t <= y < m && d != 5 && d != 6
            ||| w - t <= x < w && m + t <= y < h - t && d != 2
            ||| 0 <= x < t && t <= y < m && d != 1 && d != 2 && d != 3 && d != 7
            ||| 0 <= x < t && m + t <= y < h - t && (d == 0 || d == 2 || d == 6 || d == 8)
        },
{
    digits_have_their_segments(d);
    assert(thickness(w) == t);
    assert(middle(w, h) == m);
    assert(in_segment(0, x, y, w, h) == (0 <= x < w && 0 <= y < t));
    assert(in_segment(1, x, y, w, h) == (w - t <= x < w && t <= y < m));
    assert(in_segment(2, x, y, w, h) == (w - t <= x < w && m + t <= y < h - t));
    assert(in_segment(3, x, y, w, h) == (0 <= x < w && h - t <= y < h));
    assert(in_segment(4, x, y, w, h) == (0 <= x < t && m + t <= y < h - t));
    assert(in_segment(5, x, y, w, h) == (0 <= x < t && t <= y < m));
    assert(in_segment(6, x, y, w, h) == (0 <= x < w && m <= y < m + t));
    if lit(d, x, y, w, h) {
        let s = choose|s: int| 0 <= s < 7 && lights(d, s) && #[trigger] in_segment(s, x, y, w, h);
        assert(s == 0 || s == 1 || s == 2 || s == 3 || s == 4 || s == 5 || s == 6);
    }
}

/// The digits that are drawn spell the number, without leading zeros; a number over 999
/// is drawn as 999.
pub proof fn drawn_digits_spell_the_number(pct: u32)
    ensures
        ({
            let n: int = if pct < 999 {
                pct as int
            } else {
                999
            };
            let ds = digits(drawn_number(pct));
            &&& forall|i: int| 0 <= i < ds.len() ==> #[trigger] ds[i] < 10
            &&& n < 10 ==> ds.len() == 1 && n == ds[0]
            &&& 10 <= n < 100 ==> ds.len() == 2 && n == 10 * ds[0] + ds[1]
            &&& 100 <= n ==> ds.len() == 3 && n == 100 * ds[0] + 10 * ds[1] + ds[2]
        }),
{
    reveal_with_fuel(digits, 4);
    let k = drawn_number(pct);
    assert((k / 10) / 10 == k / 100);
}

/// A number stands in the middle of the canvas, with as much room to its left as to its
/// right and above as below; its digits stand side by side, one gap apart, and are the
/// bigger the fewer there are.
pub proof fn numbers_stand_in_the_middle(len: nat, i: int)
    requires
        1 <= len <= 3,
    ensures
        digit_left(len, 0) == 96 - (digit_left(len, len - 1) + digit_box(len).0),
        digit_top(len) == 96 - (digit_top(len) + digit_box(len).1),
        0 <= i < len - 1 ==> digit_left(len, i + 1) == digit_left(len, i) + digit_box(len).0
            + digit_box(len).2,
        digit_box(1) == (44int, 80int, 0int),
        digit_box(2) == (32int, 56int, 8int),
        digit_box(3) == (24int, 44int, 4int),
{
    digit_places();
    assert(len == 1 || len == 2 || len == 3);
    if 0 <= i < len - 1 {
        assert(i == 0 || i == 1);
    }
}

/// The cover that is drawn is one that the pixel has, and one more it has not.
proof fn greatest_cover_is_exact(dist2: int, reach: int, k: nat)
    ensures
        ({
            let c = greatest_cover(dist2, reach, k);
            &&& c <= k
            &&& c > 0 ==> covered(dist2, reach, c as int)
            &&& c < k ==> !covered(dist2, reach, c as int + 1)
        }),
    decreases k,
{
    if k != 0 && !covered(dist2, reach, k as int) {
        greatest_cover_is_exact(dist2, reach, (k - 1) as nat);
    }
}

/// A badge without a number has the colour asked for inside of its edge and nothing
/// outside. A circle reaches 46 and a half pixels from the centre; a square is flat for
/// 26 pixels from the centre in each direction, and rounded by 20 and a half from there.
/// All distances are taken twice. The edge falls off over one pixel: the opacity is the
/// highest number of parts in 255 that the pixel lies inside of it.
pub proof fn badges_have_their_shape(color: [u8; 3], shape: BadgeShape, x: int, y: int, u: int, v: int)
    requires
        on_canvas(x, y),
        2 * x - 95 == u || 95 - 2 * x == u,
        2 * y - 95 == v || 95 - 2 * y == v,
        0 <= u,
        0 <= v,
    ensures
        ({
            let (flat, r): (int, int) = match shape {
                BadgeShape::Circle => (0, 93),
                BadgeShape::RoundedSquare => (52, 41),
            };
            let du: int = if u < flat {
                0
            } else {
                u - flat
            };
            let dv: int = if v < flat {
                0
            } else {
                v - flat
            };
            let p = icon_pixel(color, None, shape, x, y);
            &&& p == badge_pixel(color, shape, x, y)
            &&& du * du + dv * dv >= r * r ==> p == (0u8, 0u8, 0u8, 0u8)
            &&& du * du + dv * dv <= (r - 2) * (r - 2) ==> p == (color[0], color[1], color[2], 255u8)
            &&& du * du + dv * dv < r * r ==> {
                &&& (p.0, p.1, p.2) == (color[0], color[1], color[2])
                &&& p.3 > 0 ==> 65_025 * (du * du + dv * dv) <= (255 * r - 2 * p.3) * (255 * r - 2
                    * p.3)
                &&& p.3 < 255 ==> 65_025 * (du * du + dv * dv) > (255 * r - 2 * (p.3 + 1)) * (255
                    * r - 2 * (p.3 + 1))
            }
        }),
{
    let r = reach(shape);
    let d = distance2(shape, x, y);
    greatest_cover_is_exact(d, r, 255);
    if d <= (r - 2) * (r - 2) {
        the_inside_is_opaque(shape, x, y);
        assert((r - 2) * (r - 2) < r * r) by (nonlinear_arith)
            requires
                r > 2,
        ;
    }
}

/// On every badge, of whatever colour and shape, a number is drawn in the colour that
/// contrasts with it, and beside its digits the badge looks as it does without one.
pub proof fn numbers_show_on_every_badge(color: [u8; 3], pct: u32, shape: BadgeShape, x: int, y: int)
    ensures
        number_lights(digits(drawn_number(pct)), x, y) ==> icon_pixel(color, Some(pct), shape, x, y)
            == opaque(digit_color(color)),
        number_lights(digits(drawn_number(pct)), x, y) ==> icon_pixel(color, Some(pct), shape, x, y)
            != icon_pixel(color, None, shape, x, y),
        !number_lights(digits(drawn_number(pct)), x, y) ==> icon_pixel(
            color,
            Some(pct),
            shape,
            x,
            y,
        ) == icon_pixel(color, None, shape, x, y),
{
    let ds = digits(drawn_number(pct));
    drawn_digits_spell_the_number(pct);
    if number_lights(ds, x, y) {
        numbers_stay_on_the_badge(ds, shape, x, y);
        assert(badge_pixel(color, shape, x, y) == opaque(color));
        digits_contrast(color);
    }
}

/// A place in a digit of a drawn size that only one of its segments covers.
spec fn probe(segment: int, len: nat) -> (int, int) {
    let (w, h) = (digit_box(len).0, digit_box(len).1);
    let (t, m) = (thickness(w), middle(w, h));
    if segment == 0 {
        (w / 2, 0)
    } else if segment == 1 {
        (w - 1, t)
    } else if segment == 2 {
        (w - 1, m + t)
    } else if segment == 3 {
        (w / 2, h - 1)
    } else if segment == 4 {
        (0, m + t)
    } else if segment == 5 {
        (0, t)
    } else {
        (w / 2, m)
    }
}

/// At its place in a digit, a segment alone decides.
proof fn the_probe_shows_the_segment(d: int, segment: int, len: nat)
    requires
        0 <= d < 10,
        0 <= segment < 7,
        1 <= len <= 3,
    ensures
        lit(d, probe(segment, len).0, probe(segment, len).1, digit_box(len).0, digit_box(len).1)
            == lights(d, segment),
        0 <= probe(segment, len).0 < digit_box(len).0,
        0 <= probe(segment, len).1 < digit_box(len).1,
{
    let (w, h) = (digit_box(len).0, digit_box(len).1);
    let (x, y) = probe(segment, len);
    assert(len == 1 || len == 2 || len == 3);
    digits_have_their_segments(d);
    a_digit_is_made_of_bars(d, x, y, w, h, thickness(w), middle(w, h));
    assert(segment == 0 || segment == 1 || segment == 2 || segment == 3 || segment == 4 || segment
        == 5 || segment == 6);
}

/// What a number lights in the box of one of its digits, that digit lights.
proof fn each_digit_has_its_box(ds: Seq<u8>, i: int, x: int, y: int)
    requires
        1 <= ds.len() <= 3,
        0 <= i < ds.len(),
        0 <= x - digit_left(ds.len(), i) < digit_box(ds.len()).0,
    ensures
        number_lights(ds, x, y) == digit_lights(ds, i, x, y),
{
    if number_lights(ds, x, y) {
        let k = choose|k: int| 0 <= k < ds.len() && #[trigger] digit_lights(ds, k, x, y);
        lit_is_inside_the_box(ds, k, x, y);
        digit_places();
        assert(ds.len() == 1 || ds.len() == 2 || ds.len() == 3);
        assert(i == 0 || i == 1 || i == 2);
        assert(k == 0 || k == 1 || k == 2);
        assert(k == i);
    }
}

/// A number lights something where a number with fewer digits, or one with more, lights
/// nothing.
proof fn lengths_are_told_apart(a: Seq<u8>, b: Seq<u8>) -> (at: (int, int))
    requires
        1 <= a.len() <= 3,
        1 <= b.len() <= 3,
        a.len() == 1 && b.len() > 1 || a.len() == 3 && b.len() == 2,
        forall|i: int| 0 <= i < a.len() ==> #[trigger] a[i] < 10,
    ensures
        number_lights(a, at.0, at.1),
        !number_lights(b, at.0, at.1),
        on_canvas(at.0, at.1),
{
    digit_places();
    let last = a.len() - 1;
    let d = a[last] as int;
    let (x, y): (int, int) = if a.len() == 1 {
        if d == 2 {
            (26, 76)
        } else {
            (69, 76)
        }
    } else {
        if d == 5 || d == 6 {
            (86, 51)
        } else {
            (86, 32)
        }
    };
    let (w, h) = (digit_box(a.len()).0, digit_box(a.len()).1);
    a_digit_is_made_of_bars(
        d,
        x - digit_left(a.len(), last),
        y - digit_top(a.len()),
        w,
        h,
        thickness(w),
        middle(w, h),
    );
    assert(digit_lights(a, last, x, y));
    if number_lights(b, x, y) {
        let k = choose|k: int| 0 <= k < b.len() && #[trigger] digit_lights(b, k, x, y);
        lit_is_inside_the_box(b, k, x, y);
        assert(b.len() == 2 || b.len() == 3);
        assert(k == 0 || k == 1 || k == 2);
    }
    (x, y)
}

/// Two different numbers of up to 999 look different, on a badge of any colour and
/// shape.
pub proof fn different_numbers_look_different(color: [u8; 3], shape: BadgeShape, a: u32, b: u32)
    requires
        a <= 999,
        b <= 999,
        a != b,
    ensures
        exists|x: int, y: int|
            on_canvas(x, y) && #[trigger] icon_pixel(color, Some(a), shape, x, y) != icon_pixel(
                color,
                Some(b),
                shape,
                x,
                y,
            ),
{
    let (da, db) = (digits(drawn_number(a)), digits(drawn_number(b)));
    drawn_digits_spell_the_number(a);
    drawn_digits_spell_the_number(b);
    let (x, y) = if da.len() != db.len() {
        if da.len() == 1 || da.len() == 3 && db.len() == 2 {
            lengths_are_told_apart(da, db)
        } else {
            lengths_are_told_apart(db, da)
        }
    } else {
        let i: int = if da[0] != db[0] {
            0
        } else if da[1] != db[1] {
            1
        } else {
            2
        };
        assert(0 <= i < da.len() && da[i] != db[i]);
        let (p, q) = (da[i] as int, db[i] as int);
        assert(exists|s: int| 0 <= s < 7 && #[trigger] lights(p, s) != lights(q, s)) by {
            if forall|s: int| 0 <= s < 7 ==> #[trigger] lights(p, s) == lights(q, s) {
                digits_are_told_apart(p, q);
            }
        }
        let s = choose|s: int| 0 <= s < 7 && #[trigger] lights(p, s) != lights(q, s);
        let len = da.len();
        the_probe_shows_the_segment(p, s, len);
        the_probe_shows_the_segment(q, s, len);
        let (x, y) = (digit_left(len, i) + probe(s, len).0, digit_top(len) + probe(s, len).1);
        each_digit_has_its_box(da, i, x, y);
        each_digit_has_its_box(db, i, x, y);
        (x, y)
    };
    if number_lights(da, x, y) {
        numbers_stay_on_the_canvas(da, x, y);
    } else {
        numbers_stay_on_the_canvas(db, x, y);
    }
    numbers_show_on_every_badge(color, a, shape, x, y);
    numbers_show_on_every_badge(color, b, shape, x, y);
    assert(icon_pixel(color, Some(a), shape, x, y) != icon_pixel(color, Some(b), shape, x, y));
}

/// A canvas is 96 pixels wide and high, and holds them row by row, four bytes each: red,
/// green, blue and opacity.
pub proof fn pixels_lie_row_by_row(rgba: Seq<u8>, x: int, y: int)
    ensures
        on_canvas(x, y) <==> 0 <= x < 96 && 0 <= y < 96,
        pixel(rgba, x, y) == (
            rgba[384 * y + 4 * x],
            rgba[384 * y + 4 * x + 1],
            rgba[384 * y + 4 * x + 2],
            rgba[384 * y + 4 * x + 3],
        ),
        RGBA_LEN == 96 * 96 * 4,
{
}

/// The colour of a badge can be seen whatever its shape and number: no number reaches up
/// to the middle of its upper edge.
pub proof fn the_top_shows_the_color(color: [u8; 3], pct: Option<u32>, shape: BadgeShape)
    ensures
        icon_pixel(color, pct, shape, 48, 4) == opaque(color),
{
    if pct is Some {
        let ds = digits(drawn_number(pct->0));
        drawn_digits_spell_the_number(pct->0);
        if number_lights(ds, 48, 4) {
            let i = choose|i: int| 0 <= i < ds.len() && #[trigger] digit_lights(ds, i, 48, 4);
            lit_is_inside_the_box(ds, i, 48, 4);
            assert(ds.len() == 1 || ds.len() == 2 || ds.len() == 3);
        }
    }
    let (u, v, r) = (overhang(shape, 48), overhang(shape, 4), reach(shape));
    assert(u * u + v * v <= (r - 2) * (r - 2) < r * r) by (nonlinear_arith)
        requires
            u == 1 && v == 87 && r == 93 || u == 0 && v == 35 && r == 41,
    ;
    the_inside_is_opaque(shape, 48, 4);
}

/// A number lights what its digits light, each in its own box and at its own place, for
/// numbers of one, two and three digits.
pub proof fn numbers_are_made_of_their_digits(ds: Seq<u8>, x: int, y: int)
    ensures
        ds.len() == 1 ==> (number_lights(ds, x, y) <==> lit(ds[0] as int, x - 26, y - 8, 44, 80)),
        ds.len() == 2 ==> (number_lights(ds, x, y) <==> lit(ds[0] as int, x - 12, y - 20, 32, 56)
            || lit(ds[1] as int, x - 52, y - 20, 32, 56)),
        ds.len() == 3 ==> (number_lights(ds, x, y) <==> lit(ds[0] as int, x - 8, y - 26, 24, 44)
            || lit(ds[1] as int, x - 36, y - 26, 24, 44) || lit(
            ds[2] as int,
            x - 64,
            y - 26,
            24,
            44,
        )),
{
    digit_places();
    if 1 <= ds.len() <= 3 {
        let (w, h) = (digit_box(ds.len()).0, digit_box(ds.len()).1);
        let top = digit_top(ds.len());
        assert(ds.len() == 1 || ds.len() == 2 || ds.len() == 3);
        assert(digit_lights(ds, 0, x, y) == lit(
            ds[0] as int,
            x - digit_left(ds.len(), 0),
            y - top,
            w,
            h,
        ));
        assert(digit_lights(ds, 1, x, y) == lit(
            ds[1] as int,
            x - digit_left(ds.len(), 1),
            y - top,
            w,
            h,
        ));
        assert(digit_lights(ds, 2, x, y) == lit(
            ds[2] as int,
            x - digit_left(ds.len(), 2),
            y - top,
            w,
            h,
        ));
        if number_lights(ds, x, y) {
            let i = choose|i: int| 0 <= i < ds.len() && #[trigger] digit_lights(ds, i, x, y);
            assert(i == 0 || i == 1 || i == 2);
        }
    }
}

/// A rectangle has the pixels from its upper left corner on, as many as it is wide and high,
/// and none where it is neither.
pub proof fn rectangles_have_their_pixels(x: int, y: int, x0: int, y0: int, w: int, h: int)
    ensures
        in_rect(x, y, x0, y0, w, h) <==> 0 <= x - x0 < w && 0 <= y - y0 < h,
{
}

} // verus!
