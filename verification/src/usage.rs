//! The usage state that drives the tray icon, the tooltip and the menu, and the
//! texts that show it.

use crate::instant::{
    clock_reading, is_local_time, is_weekday_time, seconds_between, seconds_into_week,
    the_week_runs_forward, Instant, NANOS_PER_SEC,
};
use crate::text::{
    chars_of, decimal, decimal2, len_utf16, push_decimal, push_decimal2, push_repeated, repeated,
    utf16_len,
};
use vstd::prelude::*;
use vstd::string::*;

pub use crate::instant::WEEKLY_WINDOW_SECS;

verus! {

/// Floor for the seconds that count as elapsed of the weekly window. In the
/// first minutes of a fresh window a run rate taken over almost no time would be
/// absurdly high and change with every poll; the floor of an hour caps its
/// factor at 168.
pub const MIN_ELAPSED_SECS: i64 = 3600;

/// The highest projection that is shown.
pub const MAX_PROJECTED_PCT: u32 = 999;

/// Budget for the whole tray tooltip, in UTF-16 code units. The shell cuts off
/// whatever is longer, silently and at any place.
pub const TOOLTIP_MAX_CHARS: usize = 63;

// ---------------------------------------------------------------------------
// Fitting the tooltip
// ---------------------------------------------------------------------------

/// The longest beginning of `s` that fits the tooltip budget.
pub open spec fn fitted(s: Seq<char>) -> Seq<char>
    decreases s.len(),
{
    if s.len() == 0 || utf16_len(s) <= TOOLTIP_MAX_CHARS {
        s
    } else {
        fitted(s.drop_last())
    }
}

proof fn utf16_len_of_prefix(s: Seq<char>, n: int)
    requires
        0 <= n <= s.len(),
    ensures
        utf16_len(s.take(n)) <= utf16_len(s),
    decreases s.len(),
{
    if n == s.len() {
        assert(s.take(n) =~= s);
    } else {
        utf16_len_of_prefix(s.drop_last(), n);
        assert(s.drop_last().take(n) =~= s.take(n));
    }
}

/// A beginning that fits, and would not with one character more, is the fitted
/// text.
proof fn fitted_is_the_longest(s: Seq<char>, n: int)
    requires
        0 <= n <= s.len(),
        utf16_len(s.take(n)) <= TOOLTIP_MAX_CHARS,
        n < s.len() ==> utf16_len(s.take(n + 1)) > TOOLTIP_MAX_CHARS,
    ensures
        fitted(s) == s.take(n),
    decreases s.len(),
{
    if n == s.len() {
        assert(s.take(n) =~= s);
    } else {
        utf16_len_of_prefix(s, n + 1);
        let t = s.drop_last();
        assert(t.take(n) =~= s.take(n));
        if n < t.len() {
            assert(t.take(n + 1) =~= s.take(n + 1));
        }
        fitted_is_the_longest(t, n);
    }
}

/// Cuts a text to the tooltip budget, at a character boundary.
pub fn fit_tooltip(text: String) -> (r: String)
    ensures
        r@ == fitted(text@),
{
    let chars = chars_of(text.as_str());
    let n: usize = chars.len();
    let mut out = String::new();
    let mut units: usize = 0;
    let mut i: usize = 0;
    proof {
        assert(text@.take(0) =~= Seq::<char>::empty());
    }
    while i < n && units + len_utf16(chars[i]) <= TOOLTIP_MAX_CHARS
        invariant
            i <= n == chars@.len(),
            chars@ == text@,
            out@ == text@.take(i as int),
            units == utf16_len(text@.take(i as int)),
            units <= TOOLTIP_MAX_CHARS,
        decreases n - i,
    {
        proof {
            assert(text@.take(i + 1).drop_last() =~= text@.take(i as int));
        }
        out.push(chars[i]);
        units = units + len_utf16(chars[i]);
        proof {
            assert(out@ =~= text@.take(i + 1));
        }
        i = i + 1;
    }
    proof {
        if i < n {
            assert(text@.take(i + 1).drop_last() =~= text@.take(i as int));
        }
        fitted_is_the_longest(text@, i as int);
    }
    out
}

/// A fitted text is within the budget, is a beginning of the text it came from, the
/// longest that fits, and is the whole of it where that fits.
pub proof fn fitted_text_fits(s: Seq<char>)
    ensures
        utf16_len(fitted(s)) <= TOOLTIP_MAX_CHARS,
        fitted(s).len() <= s.len(),
        fitted(s) == s.take(fitted(s).len() as int),
        utf16_len(s) <= TOOLTIP_MAX_CHARS ==> fitted(s) == s,
        fitted(s).len() < s.len() ==> utf16_len(s.take(fitted(s).len() as int + 1))
            > TOOLTIP_MAX_CHARS,
    decreases s.len(),
{
    if s.len() == 0 || utf16_len(s) <= TOOLTIP_MAX_CHARS {
        assert(s =~= s.take(s.len() as int));
    } else {
        let t = s.drop_last();
        fitted_text_fits(t);
        let n = fitted(s).len() as int;
        assert(fitted(s) =~= s.take(n));
        if n < t.len() {
            assert(t.take(n + 1) =~= s.take(n + 1));
        } else {
            assert(s.take(n + 1) =~= s);
        }
    }
}

/// Fitting a text that has been fitted changes nothing.
pub proof fn fitting_twice_is_fitting_once(s: Seq<char>)
    ensures
        fitted(fitted(s)) == fitted(s),
{
    fitted_text_fits(s);
}

// ---------------------------------------------------------------------------
// Why data is missing
// ---------------------------------------------------------------------------

/// Why a fetch attempt failed.
#[derive(Clone, Copy, PartialEq, Eq, Structural, Debug)]
pub enum UnavailableReason {
    /// The credentials file is missing, unreadable or holds no token, or the
    /// server refused the token. The one case that needs the user to act.
    TokenProblem,
    /// The usage endpoint answered that requests come too often.
    RateLimited,
    /// The request could not be sent or completed.
    NetworkError,
    /// Anything else.
    Other,
}

/// What the widget shows the usage of: the name that stands in its texts, and the
/// command that signs in to it.
pub struct Product {
    pub name: String,
    pub command: String,
}

impl UnavailableReason {
    /// The text of [`UnavailableReason::tooltip_label`].
    pub open spec fn tooltip_text(self, command: Seq<char>) -> Seq<char> {
        match self {
            UnavailableReason::TokenProblem => "sign-in needed\nRun `"@ + command
                + "` once to refresh."@,
            UnavailableReason::RateLimited => "rate-limited\nClears on its own -- retrying."@,
            UnavailableReason::NetworkError => "network error\nRetrying automatically."@,
            UnavailableReason::Other => "unavailable\nRetrying automatically."@,
        }
    }

    /// The text of [`UnavailableReason::short_label`].
    pub open spec fn short_text(self) -> Seq<char> {
        match self {
            UnavailableReason::TokenProblem => "sign-in needed"@,
            UnavailableReason::RateLimited => "rate-limited, retrying"@,
            UnavailableReason::NetworkError => "network error, retrying"@,
            UnavailableReason::Other => "unavailable, retrying"@,
        }
    }

    /// Tooltip text for this reason, worded to fit the tooltip budget together
    /// with what stands in front of it.
    pub fn tooltip_label(self, command: &str) -> (r: String)
        ensures
            r@ == self.tooltip_text(command@),
    {
        match self {
            UnavailableReason::TokenProblem => {
                let mut out = String::new();
                out.append("sign-in needed\nRun `");
                out.append(command);
                out.append("` once to refresh.");
                proof {
                    assert(out@ =~= self.tooltip_text(command@));
                }
                out
            },
            UnavailableReason::RateLimited => String::from_str(
                "rate-limited\nClears on its own -- retrying.",
            ),
            UnavailableReason::NetworkError => String::from_str(
                "network error\nRetrying automatically.",
            ),
            UnavailableReason::Other => String::from_str("unavailable\nRetrying automatically."),
        }
    }

    /// The reason in a few words, for a menu line.
    pub fn short_label(self) -> (r: &'static str)
        ensures
            r@ == self.short_text(),
    {
        match self {
            UnavailableReason::TokenProblem => "sign-in needed",
            UnavailableReason::RateLimited => "rate-limited, retrying",
            UnavailableReason::NetworkError => "network error, retrying",
            UnavailableReason::Other => "unavailable, retrying",
        }
    }
}

// ---------------------------------------------------------------------------
// The weekly projection
// ---------------------------------------------------------------------------

/// Where weekly utilization lands at the reset if it goes on at the average rate
/// seen so far. It may pass 100: that is what it is shown for.
#[derive(Clone, Copy, PartialEq, Eq, Structural, Debug)]
pub struct WeeklyProjection {
    /// Projected utilization at the reset, in percent.
    pub projected_pct: u32,
    /// Whether the weekly limit is on course to be passed.
    pub over_limit: bool,
}

impl WeeklyProjection {
    /// The text of [`WeeklyProjection::tag`].
    pub open spec fn tag_text(self) -> Seq<char> {
        if self.over_limit {
            "over"@
        } else {
            "under"@
        }
    }

    /// The projection in one word.
    pub fn tag(self) -> (r: &'static str)
        ensures
            r@ == self.tag_text(),
    {
        if self.over_limit {
            "over"
        } else {
            "under"
        }
    }
}

/// The seconds that count as elapsed of the weekly window.
pub open spec fn counted_elapsed(elapsed: int) -> int {
    if elapsed < MIN_ELAPSED_SECS {
        MIN_ELAPSED_SECS as int
    } else if elapsed > WEEKLY_WINDOW_SECS {
        WEEKLY_WINDOW_SECS as int
    } else {
        elapsed
    }
}

/// The run rate carried on to the end of the window, in percent: current
/// utilization over the elapsed part of the window, rounded to the nearest whole
/// number, halves upward, and shown as 999 at most.
pub open spec fn run_rate_pct(current_pct: int, elapsed: int) -> int {
    let e = counted_elapsed(elapsed);
    let pct = (2 * current_pct * WEEKLY_WINDOW_SECS + e) / (2 * e);
    if pct > MAX_PROJECTED_PCT {
        MAX_PROJECTED_PCT as int
    } else {
        pct
    }
}

/// The projection for a utilization and a time elapsed.
pub open spec fn projection(current_pct: u32, elapsed: int) -> WeeklyProjection {
    let pct = run_rate_pct(current_pct as int, elapsed);
    WeeklyProjection { projected_pct: pct as u32, over_limit: pct > 100 }
}

/// The projection for a weekly window that ends at `reset`, as seen at `now`.
pub open spec fn projection_at(current_pct: u32, reset: Instant, now: Instant) -> WeeklyProjection {
    projection(current_pct, seconds_into_week(now, reset))
}

proof fn run_rate_in_range(current_pct: int, elapsed: int)
    requires
        0 <= current_pct,
    ensures
        0 <= run_rate_pct(current_pct, elapsed) <= MAX_PROJECTED_PCT,
{
    let e = counted_elapsed(elapsed);
    vstd::arithmetic::div_mod::lemma_div_pos_is_pos(
        2 * current_pct * WEEKLY_WINDOW_SECS + e,
        2 * e,
    );
}

/// The projection for `current_pct` used when `elapsed` seconds of the weekly
/// window have passed.
pub fn project_run_rate(current_pct: u32, elapsed: i64) -> (p: WeeklyProjection)
    ensures
        p == projection(current_pct, elapsed as int),
{
    let counted: i64 = if elapsed < MIN_ELAPSED_SECS {
        MIN_ELAPSED_SECS
    } else if elapsed > WEEKLY_WINDOW_SECS {
        WEEKLY_WINDOW_SECS
    } else {
        elapsed
    };
    let e: u64 = counted as u64;
    let window: u64 = WEEKLY_WINDOW_SECS as u64;
    let pct: u64 = (2 * (current_pct as u64) * window + e) / (2 * e);
    proof {
        run_rate_in_range(current_pct as int, elapsed as int);
    }
    let shown: u32 = if pct > MAX_PROJECTED_PCT as u64 {
        MAX_PROJECTED_PCT
    } else {
        pct as u32
    };
    WeeklyProjection { projected_pct: shown, over_limit: shown > 100 }
}

/// Extrapolates weekly utilization to the end of its window, from the current
/// utilization and how far the window has run.
pub fn project_weekly(current_pct: u32, seven_day_resets: Instant, now: Instant) -> (p:
    WeeklyProjection)
    ensures
        p == projection_at(current_pct, seven_day_resets, now),
{
    project_run_rate(current_pct, now.seconds_into_week(&seven_day_resets))
}

/// The projection is the whole percentage nearest to the run rate, up to the
/// highest value that is shown: `pct` is it where the run rate lies less than
/// half a percent above, or at most half a percent below.
pub proof fn projection_is_the_nearest_percentage(current_pct: u32, elapsed: int, pct: int)
    requires
        0 <= pct <= MAX_PROJECTED_PCT,
        (2 * pct - 1) * counted_elapsed(elapsed) <= 2 * current_pct * WEEKLY_WINDOW_SECS,
        2 * current_pct * WEEKLY_WINDOW_SECS < (2 * pct + 1) * counted_elapsed(elapsed),
    ensures
        projection(current_pct, elapsed).projected_pct == pct,
{
    let e = counted_elapsed(elapsed);
    let x = 2 * current_pct * WEEKLY_WINDOW_SECS + e;
    assert((2 * pct - 1) * e + e == pct * (2 * e)) by (nonlinear_arith);
    assert((2 * pct + 1) * e + e == pct * (2 * e) + 2 * e) by (nonlinear_arith);
    vstd::arithmetic::div_mod::lemma_fundamental_div_mod_converse(
        x,
        2 * e,
        pct,
        x - pct * (2 * e),
    );
}

/// Once the window has run out, the projection is the current utilization.
pub proof fn projection_at_the_end_is_current(current_pct: u32, elapsed: int)
    requires
        elapsed >= WEEKLY_WINDOW_SECS,
        current_pct <= MAX_PROJECTED_PCT,
    ensures
        projection(current_pct, elapsed).projected_pct == current_pct,
        projection(current_pct, elapsed).over_limit == (current_pct > 100),
{
    let w = WEEKLY_WINDOW_SECS as int;
    let c = current_pct as int;
    assert(2 * c * w + w == c * (2 * w) + w) by (nonlinear_arith);
    vstd::arithmetic::div_mod::lemma_fundamental_div_mod_converse(2 * c * w + w, 2 * w, c, w);
}

/// Nothing used projects to nothing.
pub proof fn no_usage_projects_to_zero(elapsed: int)
    ensures
        projection(0, elapsed) == (WeeklyProjection { projected_pct: 0, over_limit: false }),
{
    let e = counted_elapsed(elapsed);
    vstd::arithmetic::div_mod::lemma_fundamental_div_mod_converse(e, 2 * e, 0, e);
}

/// A projection is never under the current utilization, up to the highest value
/// that is shown, and never over 168 times it.
pub proof fn projection_bounds(current_pct: u32, elapsed: int)
    ensures
        projection(current_pct, elapsed).projected_pct <= MAX_PROJECTED_PCT,
        current_pct <= MAX_PROJECTED_PCT ==> projection(current_pct, elapsed).projected_pct
            >= current_pct,
        projection(current_pct, elapsed).projected_pct <= 168 * current_pct,
        projection(current_pct, elapsed).over_limit == (projection(
            current_pct,
            elapsed,
        ).projected_pct > 100),
{
    let c = current_pct as int;
    let e = counted_elapsed(elapsed);
    let w = WEEKLY_WINDOW_SECS as int;
    run_rate_in_range(c, elapsed);
    assert(2 * c * w + e >= c * (2 * e)) by (nonlinear_arith)
        requires
            c >= 0,
            0 < e <= w,
    ;
    vstd::arithmetic::div_mod::lemma_div_is_ordered(c * (2 * e), 2 * c * w + e, 2 * e);
    vstd::arithmetic::div_mod::lemma_div_by_multiple(c, 2 * e);
    assert(2 * c * w + e <= (168 * c) * (2 * e) + e) by (nonlinear_arith)
        requires
            c >= 0,
            w == 604_800,
            e >= 3600,
    ;
    vstd::arithmetic::div_mod::lemma_div_is_ordered(
        2 * c * w + e,
        (168 * c) * (2 * e) + e,
        2 * e,
    );
    vstd::arithmetic::div_mod::lemma_fundamental_div_mod_converse(
        (168 * c) * (2 * e) + e,
        2 * e,
        168 * c,
        e,
    );
}

/// More usage at the same moment never projects to less, and the same usage
/// later in the window never projects to more.
pub proof fn projection_is_monotone(less: u32, more: u32, early: int, late: int)
    requires
        less <= more,
        early <= late,
    ensures
        projection(less, late).projected_pct <= projection(more, early).projected_pct,
{
    let a = counted_elapsed(early);
    let b = counted_elapsed(late);
    let l = less as int;
    let m = more as int;
    let w = WEEKLY_WINDOW_SECS as int;
    run_rate_in_range(l, late);
    run_rate_in_range(m, early);
    vstd::arithmetic::div_mod::lemma_div_is_ordered(2 * l * w + b, 2 * m * w + b, 2 * b);
    // The half that rounding adds is the same for both divisors.
    let q = (2 * m * w + b) / (2 * b);
    vstd::arithmetic::div_mod::lemma_fundamental_div_mod(2 * m * w + b, 2 * b);
    assert(2 * m * w + a >= q * (2 * a)) by (nonlinear_arith)
        requires
            2 * m * w + b >= (2 * b) * q,
            0 < a <= b,
            m >= 0,
            w >= 0,
    ;
    vstd::arithmetic::div_mod::lemma_div_is_ordered(q * (2 * a), 2 * m * w + a, 2 * a);
    vstd::arithmetic::div_mod::lemma_div_by_multiple(q, 2 * a);
}

/// As time goes on with the same utilization, the projection never rises: of two
/// moments away from leap seconds, the later one projects to no more.
pub proof fn projection_never_rises(current_pct: u32, reset: Instant, earlier: Instant, later: Instant)
    requires
        0 <= earlier.nanos() < NANOS_PER_SEC,
        0 <= later.nanos() < NANOS_PER_SEC,
        reset.nanos() < 2 * NANOS_PER_SEC,
        earlier.secs() < later.secs() || earlier.secs() == later.secs() && earlier.nanos()
            <= later.nanos(),
    ensures
        projection_at(current_pct, reset, later).projected_pct <= projection_at(
            current_pct,
            reset,
            earlier,
        ).projected_pct,
{
    the_week_runs_forward(earlier, later, reset);
    projection_is_monotone(
        current_pct,
        current_pct,
        seconds_into_week(earlier, reset),
        seconds_into_week(later, reset),
    );
}


// ---------------------------------------------------------------------------
// Labels
// ---------------------------------------------------------------------------

/// A time left, such as `3h40m` or `40m`, or `now` where none is left.
pub open spec fn relative_text(secs: int) -> Seq<char> {
    if secs <= 0 {
        "now"@
    } else {
        let minutes = secs / 60;
        if minutes / 60 > 0 {
            decimal((minutes / 60) as nat) + "h"@ + decimal2((minutes % 60) as nat) + "m"@
        } else {
            decimal((minutes % 60) as nat) + "m"@
        }
    }
}

/// The text of a time left of `secs` seconds.
pub fn relative_label(secs: i64) -> (r: String)
    ensures
        r@ == relative_text(secs as int),
{
    let mut out = String::new();
    if secs <= 0 {
        out.append("now");
        proof {
            assert(out@ =~= relative_text(secs as int));
        }
        return out;
    }
    let total_minutes: u64 = (secs as u64) / 60;
    let hours: u64 = total_minutes / 60;
    let minutes: u64 = total_minutes % 60;
    if hours > 0 {
        push_decimal(&mut out, hours);
        out.append("h");
        push_decimal2(&mut out, minutes);
        out.append("m");
    } else {
        push_decimal(&mut out, minutes);
        out.append("m");
    }
    proof {
        assert(out@ =~= relative_text(secs as int));
    }
    out
}

/// The time left until `reset`, as seen at `now`.
pub fn format_relative(reset: Instant, now: Instant) -> (r: String)
    ensures
        r@ == relative_text(seconds_between(reset, now)),
{
    relative_label(reset.seconds_since(&now))
}

/// The weekday and time of a reset in the machine's time zone, such as
/// `Wed 18:00`.
pub fn format_weekday_time(reset: Instant) -> (r: String)
    ensures
        is_local_time(r@, reset),
{
    reset.local_weekday_time()
}

/// How many of the `width` cells of a bar are filled: the nearest whole number to
/// the percentage of them, halves upward, all of them from 100 on.
pub open spec fn filled_cells(pct: int, width: int) -> int {
    if pct >= 100 {
        width
    } else {
        (pct * width + 50) / 100
    }
}

/// A progress bar of block characters, such as `██████░░░░`.
pub open spec fn bar_text(pct: int, width: int) -> Seq<char> {
    repeated('\u{2588}', filled_cells(pct, width) as nat) + repeated(
        '\u{2591}',
        (width - filled_cells(pct, width)) as nat,
    )
}

proof fn filled_cells_in_range(pct: int, width: int)
    requires
        0 <= pct,
        0 <= width,
    ensures
        0 <= filled_cells(pct, width) <= width,
{
    if pct < 100 {
        assert(0 <= pct * width <= 99 * width) by (nonlinear_arith)
            requires
                0 <= pct < 100,
                0 <= width,
        ;
    }
}

/// Renders a progress bar.
pub fn bar(pct: u32, width: usize) -> (r: String)
    ensures
        r@ == bar_text(pct as int, width as int),
{
    proof {
        filled_cells_in_range(pct as int, width as int);
    }
    let filled: usize = if pct >= 100 {
        width
    } else {
        assert(0 <= pct * width <= 99 * 0x1_0000_0000_0000_0000) by (nonlinear_arith)
            requires
                0 <= pct < 100,
                0 <= width < 0x1_0000_0000_0000_0000,
        ;
        ((pct as u128 * width as u128 + 50) / 100) as usize
    };
    let mut out = String::new();
    push_repeated(&mut out, '\u{2588}', filled);
    push_repeated(&mut out, '\u{2591}', width - filled);
    proof {
        assert(out@ =~= bar_text(pct as int, width as int));
    }
    out
}

/// A bar has exactly the width asked for, is empty at 0 percent and full from
/// 100 on.
pub proof fn bar_has_its_width(pct: u32, width: usize)
    ensures
        bar_text(pct as int, width as int).len() == width,
        filled_cells(0, width as int) == 0,
        pct >= 100 ==> filled_cells(pct as int, width as int) == width,
{
    filled_cells_in_range(pct as int, width as int);
}

/// A higher percentage never fills fewer cells.
pub proof fn bar_is_monotone(less: u32, more: u32, width: usize)
    requires
        less <= more,
    ensures
        filled_cells(less as int, width as int) <= filled_cells(more as int, width as int),
{
    filled_cells_in_range(less as int, width as int);
    if more < 100 {
        assert(less * width <= more * width) by (nonlinear_arith)
            requires
                less <= more,
        ;
    }
}


// ---------------------------------------------------------------------------
// The tray state
// ---------------------------------------------------------------------------

/// Extra usage on top of the plan, ready to be shown.
#[derive(Clone)]
pub struct ExtraUsageInfo {
    /// Part of the limit that is used, in percent.
    pub pct: u32,
    /// Amount used, with two decimals.
    pub used: String,
    /// Limit, with two decimals.
    pub limit: String,
    pub currency: String,
}

/// Utilization of one usage window and when it resets.
pub struct WindowUsage {
    pub pct: u32,
    pub resets_label: String,
}

/// The state that drives the tray icon, the tooltip and the menu.
#[derive(Clone)]
pub enum TrayState {
    Available {
        five_hour_pct: u32,
        five_hour_resets: Instant,
        seven_day_pct: u32,
        seven_day_resets: Instant,
        extra_usage: Option<ExtraUsageInfo>,
    },
    /// Data could not be obtained. `detail` is for the log; `reason` decides what
    /// is shown.
    Unavailable { detail: String, reason: UnavailableReason },
}

/// The tooltip that tells why there is no data.
pub open spec fn unavailable_tooltip_text(reason: UnavailableReason, product: Product) -> Seq<char> {
    product.name@ + " usage: "@ + reason.tooltip_text(product.command@)
}

/// The three lines of the tooltip: a window each, and the projection.
pub open spec fn usage_tooltip_text(
    five_hour_pct: u32,
    five_hour_label: Seq<char>,
    seven_day_pct: u32,
    seven_day_label: Seq<char>,
    projection: WeeklyProjection,
) -> Seq<char> {
    "Session "@ + decimal(five_hour_pct as nat) + "% "@ + five_hour_label + "\nWeekly "@ + decimal(
        seven_day_pct as nat,
    ) + "% "@ + seven_day_label + "\nProjected "@ + decimal(projection.projected_pct as nat)
        + "% "@ + projection.tag_text()
}

/// The session line of the menu.
pub open spec fn session_line_text(pct: u32, width: usize, label: Seq<char>) -> Seq<char> {
    "Session  ["@ + bar_text(pct as int, width as int) + "] "@ + decimal(pct as nat) + "%  resets "@
        + label
}

/// The weekly line of the menu.
pub open spec fn weekly_line_text(pct: u32, width: usize, label: Seq<char>) -> Seq<char> {
    "Weekly   ["@ + bar_text(pct as int, width as int) + "] "@ + decimal(pct as nat) + "%  resets "@
        + label
}

/// The projection line of the menu.
pub open spec fn projected_line_text(projection: WeeklyProjection, width: usize) -> Seq<char> {
    "Projected ["@ + bar_text(projection.projected_pct as int, width as int) + "] "@ + decimal(
        projection.projected_pct as nat,
    ) + "%  ("@ + projection.tag_text() + ")"@
}

/// The extra usage line of the menu.
pub open spec fn extra_line_text(extra: ExtraUsageInfo, width: usize) -> Seq<char> {
    "Extra usage  ["@ + bar_text(extra.pct as int, width as int) + "] "@ + decimal(extra.pct as nat)
        + "%  "@ + extra.used@ + "/"@ + extra.limit@ + " "@ + extra.currency@
}

/// The tooltip for two windows and a projection, before it is cut to the budget.
pub fn usage_tooltip(
    five_hour_pct: u32,
    five_hour_label: &str,
    seven_day_pct: u32,
    seven_day_label: &str,
    projection: WeeklyProjection,
) -> (r: String)
    ensures
        r@ == usage_tooltip_text(
            five_hour_pct,
            five_hour_label@,
            seven_day_pct,
            seven_day_label@,
            projection,
        ),
{
    let mut out = String::new();
    out.append("Session ");
    push_decimal(&mut out, five_hour_pct as u64);
    out.append("% ");
    out.append(five_hour_label);
    out.append("\nWeekly ");
    push_decimal(&mut out, seven_day_pct as u64);
    out.append("% ");
    out.append(seven_day_label);
    out.append("\nProjected ");
    push_decimal(&mut out, projection.projected_pct as u64);
    out.append("% ");
    out.append(projection.tag());
    proof {
        assert(out@ =~= usage_tooltip_text(
            five_hour_pct,
            five_hour_label@,
            seven_day_pct,
            seven_day_label@,
            projection,
        ));
    }
    out
}

/// The tooltip that tells why there is no data, before it is cut to the budget.
pub fn unavailable_tooltip(reason: UnavailableReason, product: &Product) -> (r: String)
    ensures
        r@ == unavailable_tooltip_text(reason, *product),
{
    let mut out = String::from_str(product.name.as_str());
    out.append(" usage: ");
    out.append(reason.tooltip_label(product.command.as_str()).as_str());
    proof {
        assert(out@ =~= unavailable_tooltip_text(reason, *product));
    }
    out
}

/// One window's menu line, after its name and the opening bracket in `head`.
fn window_line(head: &str, pct: u32, width: usize, label: &str) -> (r: String)
    ensures
        r@ == head@ + bar_text(pct as int, width as int) + "] "@ + decimal(pct as nat)
            + "%  resets "@ + label@,
{
    let mut out = String::new();
    out.append(head);
    out.append(bar(pct, width).as_str());
    out.append("] ");
    push_decimal(&mut out, pct as u64);
    out.append("%  resets ");
    out.append(label);
    proof {
        assert(out@ =~= head@ + bar_text(pct as int, width as int) + "] "@ + decimal(pct as nat)
            + "%  resets "@ + label@);
    }
    out
}

/// The session line of the menu.
pub fn session_line(pct: u32, width: usize, label: &str) -> (r: String)
    ensures
        r@ == session_line_text(pct, width, label@),
{
    window_line("Session  [", pct, width, label)
}

/// The weekly line of the menu.
pub fn weekly_line(pct: u32, width: usize, label: &str) -> (r: String)
    ensures
        r@ == weekly_line_text(pct, width, label@),
{
    window_line("Weekly   [", pct, width, label)
}

/// The projection line of the menu.
pub fn projected_line(projection: WeeklyProjection, width: usize) -> (r: String)
    ensures
        r@ == projected_line_text(projection, width),
{
    let mut out = String::new();
    out.append("Projected [");
    out.append(bar(projection.projected_pct, width).as_str());
    out.append("] ");
    push_decimal(&mut out, projection.projected_pct as u64);
    out.append("%  (");
    out.append(projection.tag());
    out.append(")");
    proof {
        assert(out@ =~= projected_line_text(projection, width));
    }
    out
}

/// Whether two windows are those of a state, with the session reset as seen at some
/// reading of the clock and the weekly one in some time zone.
pub open spec fn are_windows_of(state: TrayState, r: Option<(WindowUsage, WindowUsage)>) -> bool {
    match state {
        TrayState::Unavailable { .. } => r is None,
        TrayState::Available {
            five_hour_pct,
            five_hour_resets,
            seven_day_pct,
            seven_day_resets,
            ..
        } => {
            &&& r is Some
            &&& (r->0).0.pct == five_hour_pct
            &&& exists|now: Instant| #[trigger]
                clock_reading(now) && (r->0).0.resets_label@ == relative_text(
                    seconds_between(five_hour_resets, now),
                )
            &&& (r->0).1.pct == seven_day_pct
            &&& is_local_time((r->0).1.resets_label@, seven_day_resets)
        },
    }
}

/// Whether a text is the projection line of a state as seen at some reading of the
/// clock.
pub open spec fn is_projected_line_of(
    state: TrayState,
    bar_width: usize,
    r: Option<Seq<char>>,
) -> bool {
    match state {
        TrayState::Available { seven_day_pct, seven_day_resets, .. } => r is Some && exists|
            now: Instant,
        |
            clock_reading(now) && r->0 == projected_line_text(
                #[trigger] projection_at(seven_day_pct, seven_day_resets, now),
                bar_width,
            ),
        TrayState::Unavailable { .. } => r is None,
    }
}

/// Whether a text is the tooltip of a state as seen at some reading of the clock, in
/// some time zone.
pub open spec fn is_tooltip_of(state: TrayState, product: Product, r: Seq<char>) -> bool {
    match state {
        TrayState::Unavailable { reason, .. } => r == fitted(
            unavailable_tooltip_text(reason, product),
        ),
        TrayState::Available { seven_day_resets, .. } => exists|now: Instant, label: Seq<char>|
            clock_reading(now) && is_local_time(label, seven_day_resets) && r == fitted(
                #[trigger] state.tooltip_text(product, now, label),
            ),
    }
}

/// Whether two texts are the session and the weekly line of a state as seen at some
/// reading of the clock, in some time zone.
pub open spec fn are_menu_lines_of(
    state: TrayState,
    bar_width: usize,
    session: Seq<char>,
    weekly: Seq<char>,
) -> bool {
    match state {
        TrayState::Unavailable { reason, .. } => {
            &&& session == "Session  "@ + reason.short_text()
            &&& weekly == "Weekly   "@ + reason.short_text()
        },
        TrayState::Available {
            five_hour_pct,
            five_hour_resets,
            seven_day_pct,
            seven_day_resets,
            ..
        } => {
            &&& exists|now: Instant| #[trigger]
                clock_reading(now) && session == session_line_text(
                    five_hour_pct,
                    bar_width,
                    relative_text(seconds_between(five_hour_resets, now)),
                )
            &&& exists|label: Seq<char>| #[trigger]
                is_local_time(label, seven_day_resets) && weekly == weekly_line_text(
                    seven_day_pct,
                    bar_width,
                    label,
                )
        },
    }
}

/// Whether a text is the extra usage line of a state.
pub open spec fn is_extra_line_of(state: TrayState, bar_width: usize, r: Option<Seq<char>>) -> bool {
    match state {
        TrayState::Available { extra_usage: Some(extra), .. } => r == Some(
            extra_line_text(extra, bar_width),
        ),
        _ => r is None,
    }
}

/// The characters of a text that may be missing.
pub open spec fn text_of(s: Option<String>) -> Option<Seq<char>> {
    match s {
        Some(s) => Some(s@),
        None => None,
    }
}

impl TrayState {
    /// Why data is missing, where it is.
    pub fn unavailable_reason(&self) -> (r: Option<UnavailableReason>)
        ensures
            r == match *self {
                TrayState::Unavailable { reason, .. } => Some(reason),
                TrayState::Available { .. } => None,
            },
    {
        match self {
            TrayState::Unavailable { reason, .. } => Some(*reason),
            TrayState::Available { .. } => None,
        }
    }

    /// The higher of the two utilizations, where there is data.
    pub fn max_utilization(&self) -> (r: Option<u32>)
        ensures
            r == match *self {
                TrayState::Available { five_hour_pct, seven_day_pct, .. } => Some(
                    if five_hour_pct >= seven_day_pct {
                        five_hour_pct
                    } else {
                        seven_day_pct
                    },
                ),
                TrayState::Unavailable { .. } => None,
            },
    {
        match self {
            TrayState::Available { five_hour_pct, seven_day_pct, .. } => if *five_hour_pct
                >= *seven_day_pct {
                Some(*five_hour_pct)
            } else {
                Some(*seven_day_pct)
            },
            TrayState::Unavailable { .. } => None,
        }
    }

    /// The session window and the weekly window, where there is data.
    pub fn windows(&self) -> (r: Option<(WindowUsage, WindowUsage)>)
        ensures
            are_windows_of(*self, r),
    {
        match self {
            TrayState::Available {
                five_hour_pct,
                five_hour_resets,
                seven_day_pct,
                seven_day_resets,
                ..
            } => {
                let now = Instant::now();
                Some(
                    (
                        WindowUsage {
                            pct: *five_hour_pct,
                            resets_label: format_relative(*five_hour_resets, now),
                        },
                        WindowUsage {
                            pct: *seven_day_pct,
                            resets_label: format_weekday_time(*seven_day_resets),
                        },
                    ),
                )
            },
            TrayState::Unavailable { .. } => None,
        }
    }

    /// The projection as seen at `now`, where there is data.
    pub fn weekly_projection_at(&self, now: Instant) -> (r: Option<WeeklyProjection>)
        ensures
            r == match *self {
                TrayState::Available { seven_day_pct, seven_day_resets, .. } => Some(
                    projection_at(seven_day_pct, seven_day_resets, now),
                ),
                TrayState::Unavailable { .. } => None,
            },
    {
        match self {
            TrayState::Available { seven_day_pct, seven_day_resets, .. } => Some(
                project_weekly(*seven_day_pct, *seven_day_resets, now),
            ),
            TrayState::Unavailable { .. } => None,
        }
    }

    /// Where weekly utilization is headed, where there is data.
    pub fn weekly_projection(&self) -> (r: Option<WeeklyProjection>)
        ensures
            match *self {
                TrayState::Available { seven_day_pct, seven_day_resets, .. } => exists|now: Instant|
                    clock_reading(now) && r == Some(
                        #[trigger] projection_at(seven_day_pct, seven_day_resets, now),
                    ),
                TrayState::Unavailable { .. } => r is None,
            },
    {
        self.weekly_projection_at(Instant::now())
    }

    /// Why data is missing, in a few words, where it is.
    pub fn unavailable_short_label(&self) -> (r: Option<&'static str>)
        ensures
            match *self {
                TrayState::Unavailable { reason, .. } => r is Some && r->0@ == reason.short_text(),
                TrayState::Available { .. } => r is None,
            },
    {
        match self {
            TrayState::Unavailable { reason, .. } => Some(reason.short_label()),
            TrayState::Available { .. } => None,
        }
    }

    /// Text for the projection line of the menu, where there is data.
    pub fn projected_menu_line(&self, bar_width: usize) -> (r: Option<String>)
        ensures
            is_projected_line_of(*self, bar_width, text_of(r)),
    {
        match self.weekly_projection() {
            Some(projection) => Some(projected_line(projection, bar_width)),
            None => None,
        }
    }

    /// Text for the extra usage line of the menu, where the account has it.
    pub fn extra_usage_line(&self, bar_width: usize) -> (r: Option<String>)
        ensures
            is_extra_line_of(*self, bar_width, text_of(r)),
    {
        match self {
            TrayState::Available { extra_usage: Some(extra), .. } => {
                let mut out = String::new();
                out.append("Extra usage  [");
                out.append(bar(extra.pct, bar_width).as_str());
                out.append("] ");
                push_decimal(&mut out, extra.pct as u64);
                out.append("%  ");
                out.append(extra.used.as_str());
                out.append("/");
                out.append(extra.limit.as_str());
                out.append(" ");
                out.append(extra.currency.as_str());
                proof {
                    assert(out@ =~= extra_line_text(*extra, bar_width));
                }
                Some(out)
            },
            _ => None,
        }
    }

    /// The text of the tooltip as seen at `now`, with the weekly reset written as
    /// `seven_day_label`.
    pub open spec fn tooltip_text(
        self,
        product: Product,
        now: Instant,
        seven_day_label: Seq<char>,
    ) -> Seq<char> {
        match self {
            TrayState::Unavailable { reason, .. } => unavailable_tooltip_text(reason, product),
            TrayState::Available {
                five_hour_pct,
                five_hour_resets,
                seven_day_pct,
                seven_day_resets,
                ..
            } => usage_tooltip_text(
                five_hour_pct,
                relative_text(seconds_between(five_hour_resets, now)),
                seven_day_pct,
                seven_day_label,
                projection_at(seven_day_pct, seven_day_resets, now),
            ),
        }
    }

    /// The tooltip as seen at `now`, with the weekly reset written as
    /// `seven_day_label`.
    pub fn tooltip_at(&self, product: &Product, now: Instant, seven_day_label: &str) -> (r: String)
        ensures
            r@ == fitted(self.tooltip_text(*product, now, seven_day_label@)),
    {
        let text = match self {
            TrayState::Unavailable { reason, .. } => unavailable_tooltip(*reason, product),
            TrayState::Available {
                five_hour_pct,
                five_hour_resets,
                seven_day_pct,
                seven_day_resets,
                ..
            } => usage_tooltip(
                *five_hour_pct,
                format_relative(*five_hour_resets, now).as_str(),
                *seven_day_pct,
                seven_day_label,
                project_weekly(*seven_day_pct, *seven_day_resets, now),
            ),
        };
        fit_tooltip(text)
    }

    /// The tooltip: three lines, or the reason why there is no data.
    pub fn tooltip(&self, product: &Product) -> (r: String)
        ensures
            is_tooltip_of(*self, *product, r@),
    {
        match self {
            TrayState::Unavailable { reason, .. } => fit_tooltip(
                unavailable_tooltip(*reason, product),
            ),
            TrayState::Available { seven_day_resets, .. } => {
                let now = Instant::now();
                let label = format_weekday_time(*seven_day_resets);
                self.tooltip_at(product, now, label.as_str())
            },
        }
    }

    /// Texts for the two menu lines of the windows, session and weekly.
    pub fn menu_lines(&self, bar_width: usize) -> (r: (String, String))
        ensures
            are_menu_lines_of(*self, bar_width, r.0@, r.1@),
    {
        match self {
            TrayState::Unavailable { reason, .. } => {
                let mut session = String::new();
                session.append("Session  ");
                session.append(reason.short_label());
                let mut weekly = String::new();
                weekly.append("Weekly   ");
                weekly.append(reason.short_label());
                proof {
                    assert(session@ =~= "Session  "@ + reason.short_text());
                    assert(weekly@ =~= "Weekly   "@ + reason.short_text());
                }
                (session, weekly)
            },
            TrayState::Available {
                five_hour_pct,
                five_hour_resets,
                seven_day_pct,
                seven_day_resets,
                ..
            } => {
                let now = Instant::now();
                let left = format_relative(*five_hour_resets, now);
                let label = format_weekday_time(*seven_day_resets);
                (
                    session_line(*five_hour_pct, bar_width, left.as_str()),
                    weekly_line(*seven_day_pct, bar_width, label.as_str()),
                )
            },
        }
    }
}

// ---------------------------------------------------------------------------
// What the tooltip promises
// ---------------------------------------------------------------------------

/// A text of characters in the basic plane takes one UTF-16 unit for each.
proof fn ascii_is_one_unit(s: Seq<char>)
    requires
        forall|i: int| 0 <= i < s.len() ==> (#[trigger] s[i] as u32) < 128,
    ensures
        utf16_len(s) == s.len(),
{
    crate::text::utf16_len_bounds(s);
}

/// Whether the name and the command are short enough for the tooltip: together with
/// what stands around them they fit where they take six units at most.
pub open spec fn is_short(product: Product) -> bool {
    utf16_len(product.name@) <= 6 && utf16_len(product.command@) <= 6
}

/// The tooltip that tells why there is no data is never cut, whatever the reason.
pub proof fn unavailable_tooltip_is_never_cut(reason: UnavailableReason, product: Product)
    requires
        is_short(product),
    ensures
        utf16_len(unavailable_tooltip_text(reason, product)) <= TOOLTIP_MAX_CHARS,
        fitted(unavailable_tooltip_text(reason, product)) == unavailable_tooltip_text(
            reason,
            product,
        ),
{
    reveal_strlit(" usage: ");
    reveal_strlit("sign-in needed\nRun `");
    reveal_strlit("` once to refresh.");
    reveal_strlit("rate-limited\nClears on its own -- retrying.");
    reveal_strlit("network error\nRetrying automatically.");
    reveal_strlit("unavailable\nRetrying automatically.");
    let (name, command) = (product.name@, product.command@);
    let head = "sign-in needed\nRun `"@;
    ascii_is_one_unit(" usage: "@);
    ascii_is_one_unit(head);
    ascii_is_one_unit("` once to refresh."@);
    ascii_is_one_unit("rate-limited\nClears on its own -- retrying."@);
    ascii_is_one_unit("network error\nRetrying automatically."@);
    ascii_is_one_unit("unavailable\nRetrying automatically."@);
    crate::text::utf16_len_adds(name, " usage: "@);
    crate::text::utf16_len_adds(name + " usage: "@, reason.tooltip_text(command));
    crate::text::utf16_len_adds(head, command);
    crate::text::utf16_len_adds(head + command, "` once to refresh."@);
}

/// A time left of under a thousand hours takes at most seven characters, all of
/// them ASCII.
proof fn relative_text_is_short(secs: int)
    requires
        secs < 3_600_000,
    ensures
        relative_text(secs).len() <= 7,
        forall|i: int| 0 <= i < relative_text(secs).len() ==> (#[trigger] relative_text(
            secs,
        )[i] as u32) < 128,
{
    reveal_strlit("now");
    reveal_strlit("h");
    reveal_strlit("m");
    if secs > 0 {
        let hours = ((secs / 60) / 60) as nat;
        let minutes = ((secs / 60) % 60) as nat;
        crate::text::decimal_width(hours);
        crate::text::decimal_width(minutes);
        crate::text::decimal_is_digits(hours);
        crate::text::decimal_is_digits(minutes);
    }
}

/// The tooltip is never cut, so that every one of its lines survives: not the one
/// that tells why there is no data, and not the one with the usage data, for
/// utilizations of up to 100 percent, a session reset under a thousand hours
/// away, any weekly reset and any projection.
pub proof fn tooltip_is_never_cut(
    state: TrayState,
    product: Product,
    now: Instant,
    seven_day_label: Seq<char>,
)
    requires
        is_short(product),
        is_weekday_time(seven_day_label),
        state matches TrayState::Available {
            five_hour_pct,
            five_hour_resets,
            seven_day_pct,
            ..
        } ==> five_hour_pct <= 100 && seven_day_pct <= 100 && seconds_between(five_hour_resets, now)
            < 3_600_000,
    ensures
        utf16_len(state.tooltip_text(product, now, seven_day_label)) <= TOOLTIP_MAX_CHARS,
        fitted(state.tooltip_text(product, now, seven_day_label)) == state.tooltip_text(
            product,
            now,
            seven_day_label,
        ),
{
    match state {
        TrayState::Unavailable { reason, .. } => {
            unavailable_tooltip_is_never_cut(reason, product);
        },
        TrayState::Available {
            five_hour_pct,
            five_hour_resets,
            seven_day_pct,
            seven_day_resets,
            ..
        } => {
            usage_tooltip_is_short(
                five_hour_pct,
                seconds_between(five_hour_resets, now),
                seven_day_pct,
                seven_day_label,
                seconds_into_week(now, seven_day_resets),
            );
        },
    }
}

proof fn usage_tooltip_is_short(
    five_hour_pct: u32,
    five_hour_secs: int,
    seven_day_pct: u32,
    seven_day_label: Seq<char>,
    elapsed: int,
)
    requires
        five_hour_pct <= 100,
        five_hour_secs < 3_600_000,
        seven_day_pct <= 100,
        is_weekday_time(seven_day_label),
    ensures
        ({
            let text = usage_tooltip_text(
                five_hour_pct,
                relative_text(five_hour_secs),
                seven_day_pct,
                seven_day_label,
                projection(seven_day_pct, elapsed),
            );
            utf16_len(text) <= TOOLTIP_MAX_CHARS
        }),
{
    reveal_strlit("Session ");
    reveal_strlit("\nWeekly ");
    reveal_strlit("\nProjected ");
    reveal_strlit("% ");
    reveal_strlit("over");
    reveal_strlit("under");
    let p = projection(seven_day_pct, elapsed);
    let left = relative_text(five_hour_secs);
    run_rate_in_range(seven_day_pct as int, elapsed);
    relative_text_is_short(five_hour_secs);
    crate::instant::weekday_time_is_short(seven_day_label);
    crate::text::decimal_width(five_hour_pct as nat);
    crate::text::decimal_width(seven_day_pct as nat);
    crate::text::decimal_width(p.projected_pct as nat);
    crate::text::decimal_is_digits(five_hour_pct as nat);
    crate::text::decimal_is_digits(seven_day_pct as nat);
    crate::text::decimal_is_digits(p.projected_pct as nat);
    let text = usage_tooltip_text(five_hour_pct, left, seven_day_pct, seven_day_label, p);
    ascii_is_one_unit(text);
}

// ---------------------------------------------------------------------------
// What the texts promise
// ---------------------------------------------------------------------------

/// A cell of a bar is filled where the percentage, of up to 100, reaches its middle; so
/// the filled cells come first, and from 100 percent on all of them are filled.
pub proof fn cells_are_filled_up_to_the_percentage(pct: u32, width: usize, i: int)
    requires
        0 <= i < width,
    ensures
        ({
            let p: int = if pct < 100 {
                pct as int
            } else {
                100
            };
            let bar = bar_text(pct as int, width as int);
            &&& bar.len() == width
            &&& 100 * i + 50 <= p * width ==> bar[i] == '\u{2588}'
            &&& 100 * i + 50 > p * width ==> bar[i] == '\u{2591}'
        }),
{
    filled_cells_in_range(pct as int, width as int);
}

/// As many cells of a bar are filled as is nearest to the percentage of its width, halves
/// upward, and they come first.
pub proof fn bars_fill_the_nearest_number_of_cells(pct: u32, width: usize, filled: int, i: int)
    requires
        pct < 100 ==> 200 * filled - 100 <= 2 * pct * width < 200 * filled + 100,
        pct >= 100 ==> filled == width,
        0 <= i < width,
    ensures
        0 <= filled <= width,
        i < filled ==> bar_text(pct as int, width as int)[i] == '\u{2588}',
        i >= filled ==> bar_text(pct as int, width as int)[i] == '\u{2591}',
{
    let (p, w) = (pct as int, width as int);
    filled_cells_in_range(p, w);
    assert(2 * p * w == 2 * (p * w)) by (nonlinear_arith);
    assert(filled == filled_cells(p, w));
}

/// In a line of a head, a bar and a rest, each stands in its place.
proof fn lines_have_three_parts(head: Seq<char>, pct: u32, width: usize, rest: Seq<char>, i: int)
    ensures
        ({
            let line = head + bar_text(pct as int, width as int) + rest;
            let p: int = if pct < 100 {
                pct as int
            } else {
                100
            };
            &&& line.len() == head.len() + width + rest.len()
            &&& line.take(head.len() as int) == head
            &&& line.skip((head.len() + width) as int) == rest
            &&& 0 <= i < width ==> line[head.len() + i] == (if 100 * i + 50 <= p * width {
                '\u{2588}'
            } else {
                '\u{2591}'
            })
        }),
{
    let line = head + bar_text(pct as int, width as int) + rest;
    filled_cells_in_range(pct as int, width as int);
    assert(line.take(head.len() as int) =~= head);
    assert(line.skip((head.len() + width) as int) =~= rest);
    if 0 <= i < width {
        cells_are_filled_up_to_the_percentage(pct, width, i);
        assert(line[head.len() + i] == bar_text(pct as int, width as int)[i]);
    }
}

/// The bar of the projection line shows the percentage that is printed next to it: of the
/// cells behind `Projected [`, those are filled whose middle the percentage reaches, all of
/// them where the projection is at the limit or over it. Behind the bar stand the
/// percentage and, in brackets, the one word for it.
pub proof fn the_projected_line_shows_its_percentage(
    projection: WeeklyProjection,
    width: usize,
    i: int,
)
    ensures
        ({
            let line = projected_line_text(projection, width);
            let pct = projection.projected_pct;
            &&& line.take(11) == "Projected ["@
            &&& line.skip(11 + width) == "] "@ + decimal(pct as nat) + "%  ("@ + (
            if projection.over_limit {
                "over"@
            } else {
                "under"@
            }) + ")"@
            &&& 0 <= i < width && pct < 100 ==> line[11 + i] == (if 100 * i + 50 <= pct * width {
                '\u{2588}'
            } else {
                '\u{2591}'
            })
            &&& 0 <= i < width && pct >= 100 ==> line[11 + i] == '\u{2588}'
        }),
{
    reveal_strlit("Projected [");
    let pct = projection.projected_pct;
    let rest = "] "@ + decimal(pct as nat) + "%  ("@ + projection.tag_text() + ")"@;
    lines_have_three_parts("Projected ["@, pct, width, rest, i);
    assert(projected_line_text(projection, width) =~= "Projected ["@ + bar_text(
        pct as int,
        width as int,
    ) + rest);
}

/// A projection over the limit fills all cells of its bar, whatever was used and however
/// far the week has run.
pub proof fn projections_over_the_limit_fill_the_bar(
    current_pct: u32,
    elapsed: int,
    width: usize,
    i: int,
)
    requires
        0 <= i < width,
        projection(current_pct, elapsed).over_limit,
    ensures
        projected_line_text(projection(current_pct, elapsed), width)[11 + i] == '\u{2588}',
{
    projection_bounds(current_pct, elapsed);
    the_projected_line_shows_its_percentage(projection(current_pct, elapsed), width, i);
}

/// The bar of the session line shows the percentage that is printed next to it, and behind
/// that stands the reset.
pub proof fn the_session_line_shows_its_percentage(
    pct: u32,
    width: usize,
    label: Seq<char>,
    i: int,
)
    ensures
        ({
            let line = session_line_text(pct, width, label);
            &&& line.take(10) == "Session  ["@
            &&& line.skip(10 + width) == "] "@ + decimal(pct as nat) + "%  resets "@ + label
            &&& 0 <= i < width && pct < 100 ==> line[10 + i] == (if 100 * i + 50 <= pct * width {
                '\u{2588}'
            } else {
                '\u{2591}'
            })
            &&& 0 <= i < width && pct >= 100 ==> line[10 + i] == '\u{2588}'
        }),
{
    reveal_strlit("Session  [");
    let rest = "] "@ + decimal(pct as nat) + "%  resets "@ + label;
    lines_have_three_parts("Session  ["@, pct, width, rest, i);
    assert(session_line_text(pct, width, label) =~= "Session  ["@ + bar_text(
        pct as int,
        width as int,
    ) + rest);
}

/// The bar of the weekly line shows the percentage that is printed next to it, and behind
/// that stands the reset.
pub proof fn the_weekly_line_shows_its_percentage(
    pct: u32,
    width: usize,
    label: Seq<char>,
    i: int,
)
    ensures
        ({
            let line = weekly_line_text(pct, width, label);
            &&& line.take(10) == "Weekly   ["@
            &&& line.skip(10 + width) == "] "@ + decimal(pct as nat) + "%  resets "@ + label
            &&& 0 <= i < width && pct < 100 ==> line[10 + i] == (if 100 * i + 50 <= pct * width {
                '\u{2588}'
            } else {
                '\u{2591}'
            })
            &&& 0 <= i < width && pct >= 100 ==> line[10 + i] == '\u{2588}'
        }),
{
    reveal_strlit("Weekly   [");
    let rest = "] "@ + decimal(pct as nat) + "%  resets "@ + label;
    lines_have_three_parts("Weekly   ["@, pct, width, rest, i);
    assert(weekly_line_text(pct, width, label) =~= "Weekly   ["@ + bar_text(
        pct as int,
        width as int,
    ) + rest);
}

/// The bar of the extra usage line shows the percentage that is printed next to it, and
/// behind that stand what is used, the limit and the currency.
pub proof fn the_extra_line_shows_its_percentage(extra: ExtraUsageInfo, width: usize, i: int)
    ensures
        ({
            let line = extra_line_text(extra, width);
            &&& line.take(14) == "Extra usage  ["@
            &&& line.skip(14 + width) == "] "@ + decimal(extra.pct as nat) + "%  "@ + extra.used@
                + "/"@ + extra.limit@ + " "@ + extra.currency@
            &&& 0 <= i < width && extra.pct < 100 ==> line[14 + i] == (if 100 * i + 50 <= extra.pct
                * width {
                '\u{2588}'
            } else {
                '\u{2591}'
            })
            &&& 0 <= i < width && extra.pct >= 100 ==> line[14 + i] == '\u{2588}'
        }),
{
    reveal_strlit("Extra usage  [");
    let rest = "] "@ + decimal(extra.pct as nat) + "%  "@ + extra.used@ + "/"@ + extra.limit@ + " "@
        + extra.currency@;
    lines_have_three_parts("Extra usage  ["@, extra.pct, width, rest, i);
    assert(extra_line_text(extra, width) =~= "Extra usage  ["@ + bar_text(
        extra.pct as int,
        width as int,
    ) + rest);
}

/// Both windows of the menu are shown by their own reading and their own reset, whatever
/// the other reads: the session by the time left at some reading of the clock, the week by
/// its weekday and time. Without data both lines tell why.
pub proof fn menu_lines_show_their_own_window(
    state: TrayState,
    width: usize,
    session: Seq<char>,
    weekly: Seq<char>,
)
    requires
        are_menu_lines_of(state, width, session, weekly),
    ensures
        state matches TrayState::Available {
            five_hour_pct,
            five_hour_resets,
            seven_day_pct,
            seven_day_resets,
            ..
        } ==> {
            &&& exists|now: Instant| #[trigger]
                clock_reading(now) && session.skip(10 + width) == "] "@ + decimal(
                    five_hour_pct as nat,
                ) + "%  resets "@ + relative_text(seconds_between(five_hour_resets, now))
            &&& exists|label: Seq<char>| #[trigger]
                is_local_time(label, seven_day_resets) && weekly.skip(10 + width) == "] "@ + decimal(
                    seven_day_pct as nat,
                ) + "%  resets "@ + label
            &&& session.take(10) == "Session  ["@
            &&& weekly.take(10) == "Weekly   ["@
            &&& session.subrange(10, 10 + width) == bar_text(five_hour_pct as int, width as int)
            &&& weekly.subrange(10, 10 + width) == bar_text(seven_day_pct as int, width as int)
        },
        state matches TrayState::Unavailable { reason, .. } ==> session == "Session  "@
            + reason.short_text() && weekly == "Weekly   "@ + reason.short_text(),
{
    if let TrayState::Available {
        five_hour_pct,
        five_hour_resets,
        seven_day_pct,
        seven_day_resets,
        ..
    } = state {
        reveal_strlit("Session  [");
        reveal_strlit("Weekly   [");
        bar_has_its_width(five_hour_pct, width);
        bar_has_its_width(seven_day_pct, width);
        let now = choose|now: Instant| #[trigger]
            clock_reading(now) && session == session_line_text(
                five_hour_pct,
                width,
                relative_text(seconds_between(five_hour_resets, now)),
            );
        let label = choose|label: Seq<char>| #[trigger]
            is_local_time(label, seven_day_resets) && weekly == weekly_line_text(
                seven_day_pct,
                width,
                label,
            );
        the_session_line_shows_its_percentage(
            five_hour_pct,
            width,
            relative_text(seconds_between(five_hour_resets, now)),
            0,
        );
        the_weekly_line_shows_its_percentage(seven_day_pct, width, label, 0);
        assert(session.subrange(10, 10 + width) =~= bar_text(five_hour_pct as int, width as int));
        assert(weekly.subrange(10, 10 + width) =~= bar_text(seven_day_pct as int, width as int));
    }
}

/// The projection line of a state is that of its own weekly window at some reading of the
/// clock, and there is one exactly where there is data.
pub proof fn the_projected_line_is_of_the_week(state: TrayState, width: usize, line: Option<Seq<char>>)
    requires
        is_projected_line_of(state, width, line),
    ensures
        line is Some <==> state is Available,
        state matches TrayState::Available { seven_day_pct, seven_day_resets, .. } ==> exists|
            now: Instant,
        |
            clock_reading(now) && line == Some(
                projected_line_text(
                    #[trigger] projection_at(seven_day_pct, seven_day_resets, now),
                    width,
                ),
            ),
{
}

/// The extra usage line is there exactly where the account has extra usage, and tells that.
pub proof fn the_extra_line_is_of_the_account(state: TrayState, width: usize, line: Option<Seq<char>>)
    requires
        is_extra_line_of(state, width, line),
    ensures
        state is Unavailable ==> line is None,
        state matches TrayState::Available { extra_usage, .. } ==> {
            &&& line is Some <==> extra_usage is Some
            &&& extra_usage matches Some(extra) ==> line == Some(extra_line_text(extra, width))
        },
{
}

/// The two windows of a state are its own: the session with the time left at some reading
/// of the clock, the week with its weekday and time. Without data there are none.
pub proof fn windows_show_their_own_reading(
    state: TrayState,
    windows: Option<(WindowUsage, WindowUsage)>,
)
    requires
        are_windows_of(state, windows),
    ensures
        windows is Some <==> state is Available,
        state matches TrayState::Available {
            five_hour_pct,
            five_hour_resets,
            seven_day_pct,
            seven_day_resets,
            ..
        } ==> {
            &&& (windows->0).0.pct == five_hour_pct
            &&& (windows->0).1.pct == seven_day_pct
            &&& is_local_time((windows->0).1.resets_label@, seven_day_resets)
            &&& exists|now: Instant| #[trigger]
                clock_reading(now) && (windows->0).0.resets_label@ == relative_text(
                    seconds_between(five_hour_resets, now),
                )
        },
{
}

/// A time left is told in hours and minutes, the minutes with two digits, in minutes alone
/// where it is under an hour, and as `now` where there is none; seconds are not told.
pub proof fn times_left_are_told_in_hours_and_minutes(h: nat, m: nat, s: int)
    requires
        m < 60,
        0 <= s < 60,
    ensures
        h > 0 ==> relative_text(h * 3600 + m * 60 + s) == decimal(h) + "h"@ + decimal2(m) + "m"@,
        m > 0 || s > 0 ==> relative_text(m * 60 + s) == decimal(m) + "m"@,
        relative_text(-(h as int)) == "now"@,
{
    let minutes = h * 60 + m;
    assert((h * 3600 + m * 60 + s) / 60 == minutes);
    assert(minutes / 60 == h && minutes % 60 == m);
    assert((m * 60 + s) / 60 == m);
    assert((m as int) / 60 == 0 && (m as int) % 60 == m);
}

/// The word for a projection tells whether it is over the limit.
pub proof fn the_tag_tells_the_limit(projection: WeeklyProjection)
    ensures
        projection.over_limit ==> projection.tag_text() == "over"@,
        !projection.over_limit ==> projection.tag_text() == "under"@,
{
}

/// The projection is the run rate: what is used, over the part of the week that has run,
/// which counts as an hour at least and as the whole week at most, rounded to the nearest
/// whole percentage, halves upward, and cut at 999. It is over the limit from 101 on.
pub proof fn projections_are_the_rounded_run_rate(current_pct: u32, elapsed: int)
    ensures
        ({
            let e: int = if elapsed < 3600 {
                3600
            } else if elapsed > 604_800 {
                604_800
            } else {
                elapsed
            };
            let p = projection(current_pct, elapsed).projected_pct as int;
            &&& 0 <= p <= 999
            &&& (2 * p - 1) * e <= 2 * current_pct * 604_800
            &&& p < 999 ==> 2 * current_pct * 604_800 < (2 * p + 1) * e
            &&& projection(current_pct, elapsed).over_limit <==> p > 100
        }),
{
    let e = counted_elapsed(elapsed);
    let x = 2 * current_pct * WEEKLY_WINDOW_SECS + e;
    let q = x / (2 * e);
    run_rate_in_range(current_pct as int, elapsed);
    vstd::arithmetic::div_mod::lemma_fundamental_div_mod(x, 2 * e);
    let p = projection(current_pct, elapsed).projected_pct as int;
    assert((2 * p - 1) * e == p * (2 * e) - e) by (nonlinear_arith);
    assert((2 * p + 1) * e == p * (2 * e) + e) by (nonlinear_arith);
    assert(p * (2 * e) <= (2 * e) * q) by (nonlinear_arith)
        requires
            p <= q,
            e > 0,
    ;
    assert(p == q ==> p * (2 * e) == (2 * e) * q) by (nonlinear_arith);
}

/// The projection of a state counts from the start of the week that ends at its reset: away
/// from leap seconds, `e` whole seconds have run of it.
pub proof fn projections_count_from_the_start_of_the_week(
    current_pct: u32,
    reset: Instant,
    now: Instant,
    e: int,
)
    requires
        0 <= now.nanos() < NANOS_PER_SEC,
        0 <= reset.nanos() < NANOS_PER_SEC,
        e >= 0,
        ({
            let run = (now.secs() - reset.secs() + 604_800) * 1_000_000_000 + now.nanos()
                - reset.nanos();
            e * 1_000_000_000 <= run < (e + 1) * 1_000_000_000
        }),
    ensures
        projection_at(current_pct, reset, now) == projection(current_pct, e),
{
    crate::instant::the_week_is_counted_in_whole_seconds(now, reset, e);
}

/// The tooltip has a line for each: the session by its own reading and time left, the week
/// by its own reading and reset, and the projection by its percentage and its word.
pub proof fn the_tooltip_has_three_lines(
    five_hour_pct: u32,
    five_hour_label: Seq<char>,
    seven_day_pct: u32,
    seven_day_label: Seq<char>,
    projection: WeeklyProjection,
)
    ensures
        usage_tooltip_text(
            five_hour_pct,
            five_hour_label,
            seven_day_pct,
            seven_day_label,
            projection,
        ) == "Session "@ + decimal(five_hour_pct as nat) + "% "@ + five_hour_label + "\nWeekly "@
            + decimal(seven_day_pct as nat) + "% "@ + seven_day_label + "\nProjected "@ + decimal(
            projection.projected_pct as nat,
        ) + "% "@ + (if projection.over_limit {
            "over"@
        } else {
            "under"@
        }),
{
}

/// The tooltip of a state is made of its own windows at one reading of the clock, cut to
/// what the shell takes; without data it names the product and tells why, and for a sign-in
/// the command to run.
pub proof fn the_tooltip_is_of_the_state(state: TrayState, product: Product, text: Seq<char>)
    requires
        is_tooltip_of(state, product, text),
    ensures
        state matches TrayState::Available {
            five_hour_pct,
            five_hour_resets,
            seven_day_pct,
            seven_day_resets,
            ..
        } ==> exists|now: Instant, label: Seq<char>|
            #![trigger clock_reading(now), is_local_time(label, seven_day_resets)]
            clock_reading(now) && is_local_time(label, seven_day_resets) && text == fitted(
                usage_tooltip_text(
                    five_hour_pct,
                    relative_text(seconds_between(five_hour_resets, now)),
                    seven_day_pct,
                    label,
                    projection_at(seven_day_pct, seven_day_resets, now),
                ),
            ),
        state matches TrayState::Unavailable { reason, .. } ==> text == fitted(
            product.name@ + " usage: "@ + (match reason {
                UnavailableReason::TokenProblem => "sign-in needed\nRun `"@ + product.command@
                    + "` once to refresh."@,
                UnavailableReason::RateLimited => "rate-limited\nClears on its own -- retrying."@,
                UnavailableReason::NetworkError => "network error\nRetrying automatically."@,
                UnavailableReason::Other => "unavailable\nRetrying automatically."@,
            }),
        ),
{
    if let TrayState::Available { seven_day_resets, .. } = state {
        let (now, label) = choose|now: Instant, label: Seq<char>|
            clock_reading(now) && is_local_time(label, seven_day_resets) && text == fitted(
                #[trigger] state.tooltip_text(product, now, label),
            );
        assert(clock_reading(now) && is_local_time(label, seven_day_resets));
    }
}

/// Each reason is told in its own few words.
pub proof fn each_reason_has_its_words(reason: UnavailableReason)
    ensures
        reason.short_text() == (match reason {
            UnavailableReason::TokenProblem => "sign-in needed"@,
            UnavailableReason::RateLimited => "rate-limited, retrying"@,
            UnavailableReason::NetworkError => "network error, retrying"@,
            UnavailableReason::Other => "unavailable, retrying"@,
        }),
{
}

/// Before it is cut, the tooltip of a state has the three lines of its own windows, with the
/// time left and the projection as of one moment; or it names the product and the reason.
pub proof fn the_whole_tooltip_is_of_the_state(
    state: TrayState,
    product: Product,
    now: Instant,
    label: Seq<char>,
)
    ensures
        state matches TrayState::Available {
            five_hour_pct,
            five_hour_resets,
            seven_day_pct,
            seven_day_resets,
            ..
        } ==> state.tooltip_text(product, now, label) == usage_tooltip_text(
            five_hour_pct,
            relative_text(seconds_between(five_hour_resets, now)),
            seven_day_pct,
            label,
            projection_at(seven_day_pct, seven_day_resets, now),
        ),
        state matches TrayState::Unavailable { reason, .. } ==> state.tooltip_text(
            product,
            now,
            label,
        ) == product.name@ + " usage: "@ + reason.tooltip_text(product.command@),
{
}

/// A text that is there has its characters, and one that is missing has none.
pub proof fn texts_are_taken_whole(s: String)
    ensures
        text_of(Some(s)) == Some(s@),
        text_of(None) is None,
{
}

/// The tooltip takes no more than the 63 units that the shell shows, and as many whole
/// characters of the text as fit into them; a text that fits is not cut.
pub proof fn tooltips_take_what_the_shell_shows(s: Seq<char>, n: int)
    ensures
        utf16_len(s) <= 63 ==> fitted(s) == s,
        0 <= n < s.len() && utf16_len(s.take(n)) <= 63 && utf16_len(s.take(n + 1)) > 63 ==> fitted(s)
            == s.take(n),
        utf16_len(fitted(s)) <= 63,
{
    fitted_text_fits(s);
    if 0 <= n < s.len() && utf16_len(s.take(n)) <= 63 && utf16_len(s.take(n + 1)) > 63 {
        fitted_is_the_longest(s, n);
    }
}

} // verus!
