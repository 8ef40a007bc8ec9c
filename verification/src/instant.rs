//! Points in time, with the calendar work done by `chrono`.

use chrono::{DateTime, Local, TimeDelta, Utc};
use vstd::prelude::*;

verus! {

/// Nanoseconds in a second.
pub const NANOS_PER_SEC: i64 = 1_000_000_000;

/// Seconds in a day.
pub const SECS_PER_DAY: i64 = 86_400;

/// The usage limit that resets weekly covers exactly 7 days.
pub const WEEKLY_WINDOW_SECS: i64 = 604_800;

/// The first second of the years that `chrono` can hold.
pub const CALENDAR_FIRST_SEC: i64 = -8_334_601_228_800;

/// The last second of the years that `chrono` can hold.
pub const CALENDAR_LAST_SEC: i64 = 8_210_266_876_799;

/// The first and last second that RFC 3339 text can name: years 0 to 9999,
/// with an offset of up to 23 hours and 59 minutes.
pub const RFC3339_FIRST_SEC: i64 = -62_167_305_540;

pub const RFC3339_LAST_SEC: i64 = 253_402_387_139;

/// Whether a number of seconds since the Unix epoch and of nanoseconds on top
/// is a moment of `chrono`'s calendar. In the last second of a minute the
/// nanoseconds may run on for another second: that is a leap second.
pub open spec fn in_calendar(secs: int, nanos: int) -> bool {
    &&& CALENDAR_FIRST_SEC <= secs <= CALENDAR_LAST_SEC
    &&& 0 <= nanos < 2 * NANOS_PER_SEC
    &&& nanos >= NANOS_PER_SEC ==> secs % 60 == 59
}

/// A moment of the calendar, at least a week after the calendar's first second,
/// so that the start of the week that ends there is a moment of it too.
#[derive(Clone, Copy, PartialEq, Eq, Structural, Debug)]
pub struct Instant {
    secs: i64,
    nanos: u32,
}

/// Whether an [`Instant`] can stand for these seconds and nanoseconds.
pub open spec fn representable(secs: int, nanos: int) -> bool {
    in_calendar(secs, nanos) && CALENDAR_FIRST_SEC + WEEKLY_WINDOW_SECS <= secs
}

/// The time from `b` to `a` in nanoseconds. A leap second counts where it lies
/// between the two, which is decided by the time of day.
pub open spec fn nanos_between(a_secs: int, a_nanos: int, b_secs: int, b_nanos: int) -> int {
    let a_time = a_secs % SECS_PER_DAY as int;
    let b_time = b_secs % SECS_PER_DAY as int;
    let leap: int = if a_time > b_time && b_nanos >= NANOS_PER_SEC {
        1
    } else if a_time < b_time && a_nanos >= NANOS_PER_SEC {
        -1
    } else {
        0
    };
    (a_secs - b_secs + leap) * NANOS_PER_SEC + a_nanos - b_nanos
}

/// Nanoseconds as whole seconds, the rest cut off toward zero.
pub open spec fn whole_secs(nanos: int) -> int {
    if nanos >= 0 {
        nanos / NANOS_PER_SEC as int
    } else {
        -((-nanos) / NANOS_PER_SEC as int)
    }
}

/// The moment `back` seconds before `(secs, nanos)`, in seconds and nanoseconds.
/// Going back from inside a leap second counts from the second after it.
pub open spec fn moment_before(secs: int, nanos: int, back: int) -> (int, int) {
    if nanos >= NANOS_PER_SEC {
        (secs + 1 - back, nanos - NANOS_PER_SEC)
    } else {
        (secs - back, nanos)
    }
}

/// What `chrono` reads out of RFC 3339 text: seconds since the Unix epoch and
/// nanoseconds on top, or nothing where the text is not such a timestamp.
pub uninterp spec fn rfc3339(s: Seq<char>) -> Option<(i64, u32)>;

/// `DateTime::parse_from_rfc3339`, turned to UTC and split into seconds and
/// nanoseconds. What it accepts, and as which moment, is named [`rfc3339`]. The
/// year has four digits and the offset is under a day, which bounds the seconds;
/// the nanoseconds pass one second only in the last second of a minute.
#[verifier::external_body]
fn parse_from_rfc3339(s: &str) -> (r: Option<(i64, u32)>)
    ensures
        r == rfc3339(s@),
        r matches Some((secs, nanos)) ==> RFC3339_FIRST_SEC <= secs <= RFC3339_LAST_SEC
            && in_calendar(secs as int, nanos as int),
{
    DateTime::parse_from_rfc3339(s)
        .ok()
        .map(|dt| dt.with_timezone(&Utc))
        .map(|dt| (dt.timestamp(), dt.timestamp_subsec_nanos()))
}

/// `Utc::now`, split into seconds and nanoseconds. The clock is read as a time
/// since the Unix epoch, so the seconds are not negative and there is no leap
/// second; the call hands out moments of the calendar only.
#[verifier::external_body]
fn utc_now() -> (r: (i64, u32))
    ensures
        0 <= r.0 <= CALENDAR_LAST_SEC,
        r.1 < NANOS_PER_SEC,
{
    let now = Utc::now();
    (now.timestamp(), now.timestamp_subsec_nanos())
}

/// `DateTime - DateTime` and the whole seconds of the difference
/// (`TimeDelta::num_seconds`). The difference counts leap seconds as
/// [`nanos_between`] does, and the seconds are cut off toward zero.
#[verifier::external_body]
fn num_seconds_between(a_secs: i64, a_nanos: u32, b_secs: i64, b_nanos: u32) -> (d: i64)
    requires
        in_calendar(a_secs as int, a_nanos as int),
        in_calendar(b_secs as int, b_nanos as int),
    ensures
        d == whole_secs(
            nanos_between(a_secs as int, a_nanos as int, b_secs as int, b_nanos as int),
        ),
{
    let a = DateTime::from_timestamp(a_secs, a_nanos).unwrap();
    let b = DateTime::from_timestamp(b_secs, b_nanos).unwrap();
    (a - b).num_seconds()
}

/// `DateTime - TimeDelta::seconds(back)`, for a time back of at least a second.
/// The result is the moment that [`moment_before`] gives; the subtraction panics
/// where that moment lies outside the calendar, and `TimeDelta::seconds` where it
/// cannot hold the time back.
#[verifier::external_body]
fn minus_seconds(secs: i64, nanos: u32, back: i64) -> (r: (i64, u32))
    requires
        in_calendar(secs as int, nanos as int),
        0 < back <= i64::MAX / 1000,
        CALENDAR_FIRST_SEC <= moment_before(secs as int, nanos as int, back as int).0,
    ensures
        (r.0 as int, r.1 as int) == moment_before(secs as int, nanos as int, back as int),
{
    let earlier = DateTime::from_timestamp(secs, nanos).unwrap() - TimeDelta::seconds(back);
    (earlier.timestamp(), earlier.timestamp_subsec_nanos())
}

/// The English short name of a weekday, Sunday being 0.
pub open spec fn weekday_name(day: int) -> Seq<char> {
    if day == 0 {
        "Sun"@
    } else if day == 1 {
        "Mon"@
    } else if day == 2 {
        "Tue"@
    } else if day == 3 {
        "Wed"@
    } else if day == 4 {
        "Thu"@
    } else if day == 5 {
        "Fri"@
    } else {
        "Sat"@
    }
}

/// A weekday and a time of day, such as `Wed 18:00`.
pub open spec fn weekday_time(day: int, hour: int, minute: int) -> Seq<char> {
    weekday_name(day) + " "@ + crate::text::decimal2(hour as nat) + ":"@ + crate::text::decimal2(
        minute as nat,
    )
}

/// Whether a text is some weekday and some time of day.
pub open spec fn is_weekday_time(s: Seq<char>) -> bool {
    exists|day: int, hour: int, minute: int|
        0 <= day < 7 && 0 <= hour < 24 && 0 <= minute < 60 && s == #[trigger] weekday_time(
            day,
            hour,
            minute,
        )
}

/// The weekday and time of day of a moment, seen at an offset from UTC. The epoch
/// was a Thursday.
pub open spec fn weekday_time_at(secs: int, offset: int) -> Seq<char> {
    let t = secs + offset;
    weekday_time((t / 86_400 + 4) % 7, t % 86_400 / 3_600, t % 3_600 / 60)
}

/// Whether a text is the weekday and time of day of a moment, seen at an offset
/// from UTC of less than a day.
pub open spec fn is_wall_clock(s: Seq<char>, secs: int) -> bool {
    exists|offset: int|
        -SECS_PER_DAY < offset < SECS_PER_DAY && s == #[trigger] weekday_time_at(secs, offset)
}

/// `DateTime::with_timezone(&Local)` and `DateTime::format`, for the format of a
/// short weekday name, a space, and hours and minutes of two digits each. The
/// text is the weekday and time of day of the moment at the offset of the
/// machine's time zone, which is less than a day. Which offset that is depends on
/// the machine, so it is left open.
#[verifier::external_body]
fn format_local(secs: i64, nanos: u32, format: &str) -> (r: String)
    requires
        in_calendar(secs as int, nanos as int),
        format@ == "%a %H:%M"@,
    ensures
        is_wall_clock(r@, secs as int),
{
    let moment = DateTime::from_timestamp(secs, nanos).unwrap();
    moment.with_timezone(&Local).format(format).to_string()
}

impl Instant {
    /// Seconds since the Unix epoch.
    pub closed spec fn secs(self) -> int {
        self.secs as int
    }

    /// Nanoseconds after that second.
    pub closed spec fn nanos(self) -> int {
        self.nanos as int
    }

    #[verifier::type_invariant]
    spec fn in_range(self) -> bool {
        representable(self.secs as int, self.nanos as int)
    }

    /// The instant `secs` seconds and `nanos` nanoseconds after the Unix epoch.
    pub fn from_timestamp(secs: i64, nanos: u32) -> (r: Option<Instant>)
        ensures
            r is Some <==> representable(secs as int, nanos as int),
            r matches Some(i) ==> i.secs() == secs && i.nanos() == nanos,
    {
        if secs < CALENDAR_FIRST_SEC + WEEKLY_WINDOW_SECS || secs > CALENDAR_LAST_SEC {
            return None;
        }
        if nanos >= 2_000_000_000 {
            return None;
        }
        // The calendar starts on a full minute.
        let past_start: i64 = secs - CALENDAR_FIRST_SEC;
        if nanos >= 1_000_000_000 && past_start % 60 != 59 {
            return None;
        }
        Some(Instant { secs, nanos })
    }

    /// Seconds since the Unix epoch.
    pub fn timestamp(&self) -> (secs: i64)
        ensures
            secs == self.secs(),
    {
        self.secs
    }

    /// Nanoseconds after that second.
    pub fn subsec_nanos(&self) -> (nanos: u32)
        ensures
            nanos == self.nanos(),
    {
        self.nanos
    }

    /// The moment that RFC 3339 text names.
    pub fn parse_rfc3339(s: &str) -> (r: Option<Instant>)
        ensures
            r is Some <==> rfc3339(s@) is Some,
            r matches Some(i) ==> rfc3339(s@) == Some((i.secs() as i64, i.nanos() as u32)),
            r matches Some(i) ==> RFC3339_FIRST_SEC <= i.secs() <= RFC3339_LAST_SEC,
    {
        match parse_from_rfc3339(s) {
            Some((secs, nanos)) => Some(Instant { secs, nanos }),
            None => None,
        }
    }

    /// The current moment.
    pub fn now() -> (now: Instant)
        ensures
            clock_reading(now),
    {
        let (secs, nanos) = utc_now();
        Instant { secs, nanos }
    }

    /// Whole seconds from `earlier` to this instant, negative where it is later,
    /// with the fraction cut off.
    pub fn seconds_since(&self, earlier: &Instant) -> (d: i64)
        ensures
            d == seconds_between(*self, *earlier),
    {
        proof {
            use_type_invariant(self);
            use_type_invariant(earlier);
        }
        num_seconds_between(self.secs, self.nanos, earlier.secs, earlier.nanos)
    }

    /// Whole seconds from the start of the week that ends at `reset` to this
    /// instant, negative where the week has not begun.
    pub fn seconds_into_week(&self, reset: &Instant) -> (d: i64)
        ensures
            d == seconds_into_week(*self, *reset),
    {
        proof {
            use_type_invariant(self);
            use_type_invariant(reset);
        }
        let (secs, nanos) = minus_seconds(reset.secs, reset.nanos, WEEKLY_WINDOW_SECS);
        num_seconds_between(self.secs, self.nanos, secs, nanos)
    }

    /// The weekday and time of day of this instant in the machine's time zone,
    /// such as `Wed 18:00`.
    pub fn local_weekday_time(&self) -> (r: String)
        ensures
            is_local_time(r@, *self),
    {
        proof {
            use_type_invariant(self);
        }
        format_local(self.secs, self.nanos, "%a %H:%M")
    }
}

/// What can come out of reading the clock.
pub open spec fn clock_reading(now: Instant) -> bool {
    0 <= now.secs() <= CALENDAR_LAST_SEC && 0 <= now.nanos() < NANOS_PER_SEC
}

/// Whether a text is the weekday and time of day of an instant in some time zone.
pub open spec fn is_local_time(s: Seq<char>, at: Instant) -> bool {
    is_wall_clock(s, at.secs())
}

/// The local time of an instant is a weekday and a time of day.
pub proof fn local_times_are_weekday_times(s: Seq<char>, at: Instant)
    requires
        is_local_time(s, at),
    ensures
        is_weekday_time(s),
{
    let offset = choose|offset: int|
        -SECS_PER_DAY < offset < SECS_PER_DAY && s == #[trigger] weekday_time_at(
            at.secs(),
            offset,
        );
    let t = at.secs() + offset;
    assert(s == weekday_time((t / 86_400 + 4) % 7, t % 86_400 / 3_600, t % 3_600 / 60));
}

/// Whole seconds from `earlier` to `later`.
pub open spec fn seconds_between(later: Instant, earlier: Instant) -> int {
    whole_secs(nanos_between(later.secs(), later.nanos(), earlier.secs(), earlier.nanos()))
}

/// Whole seconds from the start of the week that ends at `reset` to `now`.
pub open spec fn seconds_into_week(now: Instant, reset: Instant) -> int {
    let start = moment_before(reset.secs(), reset.nanos(), WEEKLY_WINDOW_SECS as int);
    whole_secs(nanos_between(now.secs(), now.nanos(), start.0, start.1))
}

/// Away from leap seconds the time between two instants is the plain difference.
pub proof fn seconds_between_without_leap(later: Instant, earlier: Instant)
    requires
        later.nanos() < NANOS_PER_SEC,
        earlier.nanos() < NANOS_PER_SEC,
    ensures
        seconds_between(later, earlier) == whole_secs(
            (later.secs() - earlier.secs()) * NANOS_PER_SEC + later.nanos() - earlier.nanos(),
        ),
{
}

/// Away from leap seconds a week and the time still left of it make up 7 days:
/// `now` lies `w` whole seconds before the reset exactly if it lies 7 days less
/// `w` into the week, for moments on the same fraction of a second.
pub proof fn week_splits_at_now(now: Instant, reset: Instant)
    requires
        now.nanos() == reset.nanos(),
        0 <= now.nanos() < NANOS_PER_SEC,
    ensures
        seconds_into_week(now, reset) + seconds_between(reset, now) == WEEKLY_WINDOW_SECS,
{
    let into = now.secs() - reset.secs() + WEEKLY_WINDOW_SECS;
    let left = reset.secs() - now.secs();
    assert(whole_secs(into * NANOS_PER_SEC) == into) by {
        lemma_whole(into);
    }
    assert(whole_secs(left * NANOS_PER_SEC) == left) by {
        lemma_whole(left);
    }
}

/// Time goes on in the week: away from leap seconds, a moment that is not after
/// another is no further into it.
pub proof fn the_week_runs_forward(a: Instant, b: Instant, reset: Instant)
    requires
        0 <= a.nanos() < NANOS_PER_SEC,
        0 <= b.nanos() < NANOS_PER_SEC,
        reset.nanos() < 2 * NANOS_PER_SEC,
        a.secs() < b.secs() || a.secs() == b.secs() && a.nanos() <= b.nanos(),
    ensures
        seconds_into_week(a, reset) <= seconds_into_week(b, reset),
{
    let start = moment_before(reset.secs(), reset.nanos(), WEEKLY_WINDOW_SECS as int);
    let into_a = nanos_between(a.secs(), a.nanos(), start.0, start.1);
    let into_b = nanos_between(b.secs(), b.nanos(), start.0, start.1);
    assert(into_a <= into_b);
    assert(whole_secs(into_a) <= whole_secs(into_b));
}

proof fn lemma_whole(s: int)
    ensures
        whole_secs(s * NANOS_PER_SEC) == s,
{
}

/// A weekday and time takes nine characters, all of them ASCII.
pub proof fn weekday_time_is_short(s: Seq<char>)
    requires
        is_weekday_time(s),
    ensures
        s.len() == 9,
        forall|i: int| 0 <= i < s.len() ==> (#[trigger] s[i] as u32) < 128,
{
    reveal_strlit("Sun");
    reveal_strlit("Mon");
    reveal_strlit("Tue");
    reveal_strlit("Wed");
    reveal_strlit("Thu");
    reveal_strlit("Fri");
    reveal_strlit("Sat");
    reveal_strlit(" ");
    reveal_strlit(":");
    let (day, hour, minute) = choose|day: int, hour: int, minute: int|
        0 <= day < 7 && 0 <= hour < 24 && 0 <= minute < 60 && s == #[trigger] weekday_time(
            day,
            hour,
            minute,
        );
    crate::text::decimal_width(hour as nat);
    crate::text::decimal_width(minute as nat);
    crate::text::decimal_is_digits(hour as nat);
    crate::text::decimal_is_digits(minute as nat);
    let h = crate::text::decimal2(hour as nat);
    let m = crate::text::decimal2(minute as nat);
    assert(forall|i: int| 0 <= i < h.len() ==> (#[trigger] h[i] as u32) < 128);
    assert(forall|i: int| 0 <= i < m.len() ==> (#[trigger] m[i] as u32) < 128);
}

/// Away from leap seconds, as many whole seconds have run of the week as fit between its
/// start, seven days before the reset, and now.
pub proof fn the_week_is_counted_in_whole_seconds(now: Instant, reset: Instant, e: int)
    requires
        0 <= now.nanos() < NANOS_PER_SEC,
        0 <= reset.nanos() < NANOS_PER_SEC,
        e >= 0,
        ({
            let run = (now.secs() - reset.secs() + 604_800) * 1_000_000_000 + now.nanos()
                - reset.nanos();
            e * 1_000_000_000 <= run < (e + 1) * 1_000_000_000
        }),
    ensures
        seconds_into_week(now, reset) == e,
{
}

/// Away from leap seconds, as many whole seconds are left until a later moment as fit into
/// the time between the two; and the other way around they are as many, but negative.
pub proof fn time_left_is_counted_in_whole_seconds(later: Instant, earlier: Instant, d: int)
    requires
        0 <= later.nanos() < NANOS_PER_SEC,
        0 <= earlier.nanos() < NANOS_PER_SEC,
        d >= 0,
        ({
            let left = (later.secs() - earlier.secs()) * 1_000_000_000 + later.nanos()
                - earlier.nanos();
            d * 1_000_000_000 <= left < (d + 1) * 1_000_000_000
        }),
    ensures
        seconds_between(later, earlier) == d,
        seconds_between(earlier, later) == -d,
{
}

/// The weekday and time of day at an offset: `days` after a Thursday, at that hour and
/// minute of two digits each; a week later they are the same.
pub proof fn wall_clocks_tell_weekday_and_time(
    secs: int,
    offset: int,
    weeks: int,
    day: int,
    hour: int,
    minute: int,
    second: int,
)
    requires
        0 <= day < 7,
        0 <= hour < 24,
        0 <= minute < 60,
        0 <= second < 60,
        secs + offset == weeks * 604_800 + day * 86_400 + hour * 3_600 + minute * 60 + second,
    ensures
        weekday_time_at(secs, offset) == (if day == 0 {
            "Thu"@
        } else if day == 1 {
            "Fri"@
        } else if day == 2 {
            "Sat"@
        } else if day == 3 {
            "Sun"@
        } else if day == 4 {
            "Mon"@
        } else if day == 5 {
            "Tue"@
        } else {
            "Wed"@
        }) + " "@ + crate::text::decimal2(hour as nat) + ":"@ + crate::text::decimal2(
            minute as nat,
        ),
{
    let t = secs + offset;
    assert(t / 86_400 == weeks * 7 + day);
    assert(t % 86_400 == hour * 3_600 + minute * 60 + second);
    assert(t % 3_600 == minute * 60 + second);
}

/// An instant can stand for every moment of the calendar's years but those of its first
/// week; its nanoseconds are under a second, or under two in the last second of a minute.
pub proof fn instants_cover_the_calendar(secs: int, nanos: int)
    ensures
        representable(secs, nanos) <==> -8_334_601_228_800 + 604_800 <= secs <= 8_210_266_876_799 && (
        0 <= nanos < 1_000_000_000 || 1_000_000_000 <= nanos < 2_000_000_000 && secs % 60 == 59),
{
}

/// The clock reads a moment since the epoch, outside of leap seconds.
pub proof fn clocks_read_ordinary_moments(now: Instant)
    requires
        clock_reading(now),
    ensures
        0 <= now.secs() <= 8_210_266_876_799,
        0 <= now.nanos() < 1_000_000_000,
{
}

/// Whole seconds from one instant to another, the rest cut off, with every leap second that
/// lies between their times of day: one that the earlier stands in is yet to run, and one
/// that the later stands in has not run yet.
pub proof fn leap_seconds_count_where_they_lie_between(a: Instant, b: Instant)
    ensures
        ({
            let leap: int = if a.secs() % 86_400 > b.secs() % 86_400 && b.nanos() >= 1_000_000_000 {
                1
            } else if a.secs() % 86_400 < b.secs() % 86_400 && a.nanos() >= 1_000_000_000 {
                -1
            } else {
                0
            };
            let n = (a.secs() - b.secs() + leap) * 1_000_000_000 + a.nanos() - b.nanos();
            let d = seconds_between(a, b);
            &&& n >= 0 ==> d * 1_000_000_000 <= n < (d + 1) * 1_000_000_000
            &&& n < 0 ==> (d - 1) * 1_000_000_000 < n <= d * 1_000_000_000
        }),
{
}

/// The week that ends at a reset starts seven days before it, and before a reset that stands
/// in a leap second seven days before the second after that; what has run of it is counted
/// as between any two instants.
pub proof fn weeks_start_seven_days_before_their_end(now: Instant, reset: Instant)
    ensures
        ({
            let (secs, nanos) = if reset.nanos() >= 1_000_000_000 {
                (reset.secs() + 1 - 604_800, reset.nanos() - 1_000_000_000)
            } else {
                (reset.secs() - 604_800, reset.nanos())
            };
            let leap: int = if now.secs() % 86_400 > secs % 86_400 && nanos >= 1_000_000_000 {
                1
            } else if now.secs() % 86_400 < secs % 86_400 && now.nanos() >= 1_000_000_000 {
                -1
            } else {
                0
            };
            let n = (now.secs() - secs + leap) * 1_000_000_000 + now.nanos() - nanos;
            let d = seconds_into_week(now, reset);
            &&& n >= 0 ==> d * 1_000_000_000 <= n < (d + 1) * 1_000_000_000
            &&& n < 0 ==> (d - 1) * 1_000_000_000 < n <= d * 1_000_000_000
        }),
{
}

/// The local time of an instant is its weekday and time of day at an offset from UTC of less
/// than a day.
pub proof fn local_times_are_less_than_a_day_off(s: Seq<char>, at: Instant)
    requires
        is_local_time(s, at),
    ensures
        exists|offset: int|
            -86_400 < offset < 86_400 && s == #[trigger] weekday_time_at(at.secs(), offset),
{
}

} // verus!
