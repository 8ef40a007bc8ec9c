//! What the tray shows: its icons, its menu, and when it notifies.

use crate::icon::{
    badge_rgba, color_for, color_for_temp_c, different_numbers_look_different, digits,
    digits_contrast, drawn_number, icon_pixel, number_lights, numbers_show_on_every_badge, on_canvas,
    pct_color, pixel, temp_color, the_top_shows_the_color, values_have_their_colors, BadgeShape,
    GRAY, RGBA_LEN,
};
use crate::panel::PanelMode;
use crate::registry::{
    interval_to_store, readable_opacity, set_panel_opacity_pct, set_poll_interval_secs,
    DEFAULT_PANEL_OPACITY_PCT, DEFAULT_POLL_INTERVAL_SECS, MIN_PANEL_OPACITY_PCT,
    MIN_POLL_INTERVAL_SECS,
};
use crate::text::{decimal, decimal_is_short, push_decimal, utf16_len, utf16_len_bounds};
use crate::usage::{
    are_menu_lines_of, are_windows_of, bar_has_its_width, is_extra_line_of, is_projected_line_of,
    is_tooltip_of, projected_line_text, session_line_text, text_of,
    the_projected_line_shows_its_percentage, the_session_line_shows_its_percentage,
    the_weekly_line_shows_its_percentage, weekly_line_text, Product, TrayState, WeeklyProjection,
    WindowUsage, TOOLTIP_MAX_CHARS,
};
use vstd::prelude::*;
use vstd::string::*;

verus! {

/// Cells of a progress bar in the menu.
pub const BAR_WIDTH: usize = 10;

/// The utilization at which a notification is sent, in percent.
pub const NOTIFY_THRESHOLD: u32 = 90;

/// Where the extra usage line stands in the menu: behind the three that are always
/// there.
pub const EXTRA_USAGE_MENU_POSITION: usize = 3;

/// How often the CPU temperature is sampled, in seconds.
pub const CPU_TEMP_POLL_INTERVAL_SECS: u64 = 5;

/// The poll intervals that the menu offers, in seconds.
pub const POLL_INTERVAL_PRESETS_SECS: [u64; 4] = [60, 120, 300, 600];

/// The panel opacities that the menu offers, in percent.
pub const PANEL_OPACITY_PRESETS_PCT: [u32; 5] = [30, 50, 70, 85, 100];

// ---------------------------------------------------------------------------
// Icons
// ---------------------------------------------------------------------------

/// Whether a picture is the badge of a usage state: a circle in the colour of the
/// higher utilization with its number, or a gray one without.
pub open spec fn is_usage_icon(state: TrayState, rgba: Seq<u8>) -> bool {
    let pct = match state {
        TrayState::Available { five_hour_pct, seven_day_pct, .. } => Some(
            if five_hour_pct >= seven_day_pct {
                five_hour_pct
            } else {
                seven_day_pct
            },
        ),
        TrayState::Unavailable { .. } => None,
    };
    let color = match pct {
        Some(pct) => pct_color(pct as int),
        None => GRAY,
    };
    &&& rgba.len() == RGBA_LEN
    &&& forall|x: int, y: int|
        on_canvas(x, y) ==> #[trigger] pixel(rgba, x, y) == icon_pixel(
            color,
            pct,
            BadgeShape::Circle,
            x,
            y,
        )
}

/// The icon of a usage state.
pub fn usage_icon(state: &TrayState) -> (rgba: Vec<u8>)
    ensures
        is_usage_icon(*state, rgba@),
{
    badge_rgba(color_for(state), state.max_utilization(), BadgeShape::Circle)
}

/// Whether a picture is the badge of a temperature: a square in its colour with its
/// number, or a gray one without.
pub open spec fn is_temp_icon(celsius: Option<u32>, rgba: Seq<u8>) -> bool {
    let color = match celsius {
        Some(c) => temp_color(c as int),
        None => GRAY,
    };
    &&& rgba.len() == RGBA_LEN
    &&& forall|x: int, y: int|
        on_canvas(x, y) ==> #[trigger] pixel(rgba, x, y) == icon_pixel(
            color,
            celsius,
            BadgeShape::RoundedSquare,
            x,
            y,
        )
}

/// The icon of a temperature. It is a square also where there is no reading, as its
/// shape is what tells it from the usage icon.
pub fn temp_icon(celsius: Option<u32>) -> (rgba: Vec<u8>)
    ensures
        is_temp_icon(celsius, rgba@),
{
    match celsius {
        Some(c) => badge_rgba(color_for_temp_c(c), Some(c), BadgeShape::RoundedSquare),
        None => badge_rgba(GRAY, None, BadgeShape::RoundedSquare),
    }
}

/// The usage icon and the temperature icon never look the same, whatever they show.
pub proof fn the_two_icons_are_told_apart(
    state: TrayState,
    usage: Seq<u8>,
    celsius: Option<u32>,
    temp: Seq<u8>,
)
    requires
        is_usage_icon(state, usage),
        is_temp_icon(celsius, temp),
    ensures
        pixel(usage, 8, 8) != pixel(temp, 8, 8),
{
    let color = match celsius {
        Some(c) => temp_color(c as int),
        None => GRAY,
    };
    let pct = match state {
        TrayState::Available { five_hour_pct, seven_day_pct, .. } => Some(
            if five_hour_pct >= seven_day_pct {
                five_hour_pct
            } else {
                seven_day_pct
            },
        ),
        TrayState::Unavailable { .. } => None,
    };
    let usage_color = match pct {
        Some(pct) => pct_color(pct as int),
        None => GRAY,
    };
    crate::icon::shapes_are_told_apart(color, celsius);
    crate::icon::shapes_are_told_apart(usage_color, pct);
    assert(on_canvas(8, 8));
}

/// The tooltip of the temperature icon.
pub open spec fn temp_tooltip_text(celsius: Option<u32>) -> Seq<char> {
    match celsius {
        Some(c) => "CPU temperature: "@ + decimal(c as nat) + "\u{b0}C"@,
        None => "CPU temperature: unavailable"@,
    }
}

/// The tooltip of the temperature icon.
pub fn temp_tooltip(celsius: Option<u32>) -> (r: String)
    ensures
        r@ == temp_tooltip_text(celsius),
{
    match celsius {
        Some(c) => {
            let mut out = String::new();
            out.append("CPU temperature: ");
            push_decimal(&mut out, c as u64);
            out.append("\u{b0}C");
            proof {
                assert(out@ =~= temp_tooltip_text(celsius));
            }
            out
        },
        None => String::from_str("CPU temperature: unavailable"),
    }
}

/// The tooltip of the temperature icon is never cut.
pub proof fn temp_tooltip_fits(celsius: Option<u32>)
    ensures
        utf16_len(temp_tooltip_text(celsius)) <= TOOLTIP_MAX_CHARS,
{
    reveal_strlit("CPU temperature: ");
    reveal_strlit("\u{b0}C");
    reveal_strlit("CPU temperature: unavailable");
    let text = temp_tooltip_text(celsius);
    if let Some(c) = celsius {
        decimal_is_short(c);
    }
    utf16_len_bounds(text);
}

/// How many icons the tray shows.
pub fn icon_count(cpu_temp_visible: bool) -> (n: u32)
    ensures
        n == if cpu_temp_visible {
            2u32
        } else {
            1
        },
{
    if cpu_temp_visible {
        2
    } else {
        1
    }
}

// ---------------------------------------------------------------------------
// Notifications
// ---------------------------------------------------------------------------

/// Whether a reading sends a notification.
pub open spec fn notifies(already: bool, pct: u32) -> bool {
    pct >= NOTIFY_THRESHOLD && !already
}

/// Whether a reading sends a notification: where the threshold has been crossed
/// since the last one.
pub fn crossed_threshold(already_notified: &mut bool, pct: u32) -> (b: bool)
    ensures
        b == notifies(*old(already_notified), pct),
        *final(already_notified) == (pct >= NOTIFY_THRESHOLD),
{
    if pct >= NOTIFY_THRESHOLD {
        if !*already_notified {
            *already_notified = true;
            return true;
        }
    } else {
        *already_notified = false;
    }
    false
}

/// Whether a notification has been sent for the crossing that the first `n` of some
/// readings end in.
pub open spec fn notified_after(pcts: Seq<u32>, n: int) -> bool {
    n > 0 && pcts[n - 1] >= NOTIFY_THRESHOLD
}

/// Over any run of readings there is exactly one notification for each crossing of
/// the threshold: a reading sends one if it is at or over it and the one before was
/// not, and then the flag is again what it has to be.
pub proof fn one_notification_for_each_crossing(pcts: Seq<u32>, i: int)
    requires
        0 <= i < pcts.len(),
    ensures
        notifies(notified_after(pcts, i), pcts[i]) <==> pcts[i] >= NOTIFY_THRESHOLD && (i == 0
            || pcts[i - 1] < NOTIFY_THRESHOLD),
        notified_after(pcts, i + 1) == (pcts[i] >= NOTIFY_THRESHOLD),
        notified_after(pcts, 0) == false,
{
}

/// The notification of the session window.
pub open spec fn session_balloon_text(pct: u32, label: Seq<char>) -> Seq<char> {
    "Session at "@ + decimal(pct as nat) + "%, resets in "@ + label
}

/// The notification of the weekly window.
pub open spec fn weekly_balloon_text(pct: u32, label: Seq<char>) -> Seq<char> {
    "Weekly at "@ + decimal(pct as nat) + "%, resets "@ + label
}

fn balloon(head: &str, pct: u32, middle: &str, label: &str) -> (r: String)
    ensures
        r@ == head@ + decimal(pct as nat) + middle@ + label@,
{
    let mut out = String::from_str(head);
    push_decimal(&mut out, pct as u64);
    out.append(middle);
    out.append(label);
    proof {
        assert(out@ =~= head@ + decimal(pct as nat) + middle@ + label@);
    }
    out
}

/// What the tray keeps from one usage state to the next.
#[derive(Clone, Copy, PartialEq, Eq, Structural, Debug)]
pub struct TrayModel {
    /// Whether the extra usage line is in the menu.
    pub extra_item_shown: bool,
    pub notified_five_hour: bool,
    pub notified_seven_day: bool,
}

/// What is done to the extra usage line of the menu.
pub enum ExtraChange {
    /// Set its text, and insert it at [`EXTRA_USAGE_MENU_POSITION`].
    Insert(String),
    /// Set its text.
    Update(String),
    /// Take it out.
    Remove,
    /// Leave it out.
    Keep,
}

/// What a fresh usage state changes in the tray.
pub struct UsageUpdate {
    pub rgba: Vec<u8>,
    pub tooltip: String,
    pub session: String,
    pub weekly: String,
    pub projected: String,
    pub extra: ExtraChange,
    /// The notification of the session window, where one is sent.
    pub session_balloon: Option<String>,
    /// The notification of the weekly window, where one is sent.
    pub weekly_balloon: Option<String>,
}

/// Whether a change is what the extra usage line needs, which was shown before or
/// not, to show `line`.
pub open spec fn is_extra_change(
    change: ExtraChange,
    shown: bool,
    line: Option<Seq<char>>,
) -> bool {
    match (line, shown) {
        (Some(line), false) => change matches ExtraChange::Insert(text) && text@ == line,
        (Some(line), true) => change matches ExtraChange::Update(text) && text@ == line,
        (None, true) => change is Remove,
        (None, false) => change is Keep,
    }
}

/// The notification that a window's reading sends, where it sends one.
pub open spec fn balloon_of(
    already: bool,
    pct: u32,
    text: Seq<char>,
) -> Option<Seq<char>> {
    if notifies(already, pct) {
        Some(text)
    } else {
        None
    }
}

/// Whether notifications are those that two windows send. Without data none is sent
/// and the crossings are remembered.
pub open spec fn are_balloons_of(
    before: TrayModel,
    after: TrayModel,
    windows: Option<(WindowUsage, WindowUsage)>,
    session: Option<Seq<char>>,
    weekly: Option<Seq<char>>,
) -> bool {
    match windows {
        Some((five_hour, seven_day)) => {
            &&& session == balloon_of(
                before.notified_five_hour,
                five_hour.pct,
                session_balloon_text(five_hour.pct, five_hour.resets_label@),
            )
            &&& weekly == balloon_of(
                before.notified_seven_day,
                seven_day.pct,
                weekly_balloon_text(seven_day.pct, seven_day.resets_label@),
            )
            &&& after.notified_five_hour == (five_hour.pct >= NOTIFY_THRESHOLD)
            &&& after.notified_seven_day == (seven_day.pct >= NOTIFY_THRESHOLD)
        },
        None => {
            &&& session is None
            &&& weekly is None
            &&& after.notified_five_hour == before.notified_five_hour
            &&& after.notified_seven_day == before.notified_seven_day
        },
    }
}

impl TrayModel {
    pub fn new() -> (model: TrayModel)
        ensures
            model == (TrayModel {
                extra_item_shown: false,
                notified_five_hour: false,
                notified_seven_day: false,
            }),
    {
        TrayModel {
            extra_item_shown: false,
            notified_five_hour: false,
            notified_seven_day: false,
        }
    }

    /// What is done to the extra usage line to show `line`.
    pub fn extra_change(&mut self, line: Option<String>) -> (change: ExtraChange)
        ensures
            is_extra_change(change, old(self).extra_item_shown, text_of(line)),
            *final(self) == (TrayModel { extra_item_shown: line is Some, ..*old(self) }),
    {
        let shown = self.extra_item_shown;
        match line {
            Some(line) => {
                self.extra_item_shown = true;
                if shown {
                    ExtraChange::Update(line)
                } else {
                    ExtraChange::Insert(line)
                }
            },
            None => {
                self.extra_item_shown = false;
                if shown {
                    ExtraChange::Remove
                } else {
                    ExtraChange::Keep
                }
            },
        }
    }

    /// The notifications that two windows send, session and weekly.
    pub fn balloons(&mut self, windows: &Option<(WindowUsage, WindowUsage)>) -> (r: (
        Option<String>,
        Option<String>,
    ))
        ensures
            are_balloons_of(*old(self), *final(self), *windows, text_of(r.0), text_of(r.1)),
            final(self).extra_item_shown == old(self).extra_item_shown,
    {
        match windows {
            Some((five_hour, seven_day)) => {
                let session = if crossed_threshold(&mut self.notified_five_hour, five_hour.pct) {
                    Some(
                        balloon(
                            "Session at ",
                            five_hour.pct,
                            "%, resets in ",
                            five_hour.resets_label.as_str(),
                        ),
                    )
                } else {
                    None
                };
                let weekly = if crossed_threshold(&mut self.notified_seven_day, seven_day.pct) {
                    Some(
                        balloon(
                            "Weekly at ",
                            seven_day.pct,
                            "%, resets ",
                            seven_day.resets_label.as_str(),
                        ),
                    )
                } else {
                    None
                };
                (session, weekly)
            },
            None => (None, None),
        }
    }

    /// What a fresh usage state changes in the tray.
    pub fn on_usage(&mut self, state: &TrayState, product: &Product) -> (update: UsageUpdate)
        ensures
            is_usage_icon(*state, update.rgba@),
            is_tooltip_of(*state, *product, update.tooltip@),
            are_menu_lines_of(*state, BAR_WIDTH, update.session@, update.weekly@),
            match *state {
                TrayState::Available { .. } => is_projected_line_of(
                    *state,
                    BAR_WIDTH,
                    Some(update.projected@),
                ),
                TrayState::Unavailable { .. } => update.projected@ == "Projected  unavailable"@,
            },
            exists|line: Option<Seq<char>>| #[trigger]
                is_extra_line_of(*state, BAR_WIDTH, line) && is_extra_change(
                    update.extra,
                    old(self).extra_item_shown,
                    line,
                ) && final(self).extra_item_shown == (line is Some),
            exists|windows: Option<(WindowUsage, WindowUsage)>| #[trigger]
                are_windows_of(*state, windows) && are_balloons_of(
                    *old(self),
                    *final(self),
                    windows,
                    text_of(update.session_balloon),
                    text_of(update.weekly_balloon),
                ),
    {
        let rgba = usage_icon(state);
        let tooltip = state.tooltip(product);
        let (session, weekly) = state.menu_lines(BAR_WIDTH);
        let projected = match state.projected_menu_line(BAR_WIDTH) {
            Some(line) => line,
            None => String::from_str("Projected  unavailable"),
        };
        let line = state.extra_usage_line(BAR_WIDTH);
        let ghost shown = text_of(line);
        let extra = self.extra_change(line);
        let windows = state.windows();
        let (session_balloon, weekly_balloon) = self.balloons(&windows);
        proof {
            assert(is_extra_line_of(*state, BAR_WIDTH, shown));
            assert(are_windows_of(*state, windows));
        }
        UsageUpdate {
            rgba,
            tooltip,
            session,
            weekly,
            projected,
            extra,
            session_balloon,
            weekly_balloon,
        }
    }
}

// ---------------------------------------------------------------------------
// Choices in the menu
// ---------------------------------------------------------------------------

/// The label of an offered poll interval.
pub fn interval_label(i: usize) -> (r: &'static str)
    requires
        i < 4,
    ensures
        r@ == if i == 0 {
            "1 minute"@
        } else if i == 1 {
            "2 minutes"@
        } else if i == 2 {
            "5 minutes"@
        } else {
            "10 minutes"@
        },
{
    match i {
        0 => "1 minute",
        1 => "2 minutes",
        2 => "5 minutes",
        _ => "10 minutes",
    }
}

/// The label of an offered opacity.
pub fn opacity_label(i: usize) -> (r: &'static str)
    requires
        i < 5,
    ensures
        r@ == if i == 0 {
            "30%"@
        } else if i == 1 {
            "50%"@
        } else if i == 2 {
            "70% (default)"@
        } else if i == 3 {
            "85%"@
        } else {
            "100%"@
        },
{
    match i {
        0 => "30%",
        1 => "50%",
        2 => "70% (default)",
        3 => "85%",
        _ => "100%",
    }
}

/// The mode of an item of the panel menu.
pub open spec fn mode_at(i: int) -> PanelMode {
    if i == 0 {
        PanelMode::Both
    } else if i == 1 {
        PanelMode::FiveHourOnly
    } else if i == 2 {
        PanelMode::WeeklyOnly
    } else {
        PanelMode::Rotating
    }
}

/// Which items of the panel menu are ticked, and the text to store, once a mode has
/// been chosen.
pub fn select_panel_mode(selected: PanelMode) -> (r: ([bool; 4], &'static str))
    ensures
        forall|i: int| 0 <= i < 4 ==> #[trigger] r.0[i] == (mode_at(i) == selected),
        r.1@ == selected.registry_text(),
{
    (
        [
            selected == PanelMode::Both,
            selected == PanelMode::FiveHourOnly,
            selected == PanelMode::WeeklyOnly,
            selected == PanelMode::Rotating,
        ],
        selected.as_registry_str(),
    )
}

/// Which items of the opacity menu are ticked, and the value to store, once an
/// opacity has been chosen.
pub fn select_panel_opacity(selected_pct: u32) -> (r: ([bool; 5], u32))
    ensures
        forall|i: int|
            0 <= i < 5 ==> #[trigger] r.0[i] == (PANEL_OPACITY_PRESETS_PCT[i] == selected_pct),
        r.1 == readable_opacity(selected_pct),
{
    (
        [
            PANEL_OPACITY_PRESETS_PCT[0] == selected_pct,
            PANEL_OPACITY_PRESETS_PCT[1] == selected_pct,
            PANEL_OPACITY_PRESETS_PCT[2] == selected_pct,
            PANEL_OPACITY_PRESETS_PCT[3] == selected_pct,
            PANEL_OPACITY_PRESETS_PCT[4] == selected_pct,
        ],
        set_panel_opacity_pct(selected_pct),
    )
}

/// Which items of the poll interval menu are ticked, and the value to store, once an
/// interval has been chosen.
pub fn select_poll_interval(selected_secs: u64) -> (r: ([bool; 4], u32))
    ensures
        forall|i: int|
            0 <= i < 4 ==> #[trigger] r.0[i] == (POLL_INTERVAL_PRESETS_SECS[i] == selected_secs),
        r.1 == interval_to_store(selected_secs),
{
    (
        [
            POLL_INTERVAL_PRESETS_SECS[0] == selected_secs,
            POLL_INTERVAL_PRESETS_SECS[1] == selected_secs,
            POLL_INTERVAL_PRESETS_SECS[2] == selected_secs,
            POLL_INTERVAL_PRESETS_SECS[3] == selected_secs,
        ],
        set_poll_interval_secs(selected_secs),
    )
}

/// No two items of a menu offer the same, so at most one of them is ticked.
pub proof fn at_most_one_choice_is_ticked(i: int, j: int)
    ensures
        0 <= i < 4 && 0 <= j < 4 && mode_at(i) == mode_at(j) ==> i == j,
        0 <= i < 5 && 0 <= j < 5 && PANEL_OPACITY_PRESETS_PCT[i] == PANEL_OPACITY_PRESETS_PCT[j]
            ==> i == j,
        0 <= i < 4 && 0 <= j < 4 && POLL_INTERVAL_PRESETS_SECS[i] == POLL_INTERVAL_PRESETS_SECS[j]
            ==> i == j,
{
}

/// What a fresh install starts with is offered, so that one item of each menu is
/// ticked, and whatever is offered is kept as it was chosen.
pub proof fn defaults_are_offered(i: int)
    ensures
        mode_at(0) == crate::registry::stored_mode(None),
        PANEL_OPACITY_PRESETS_PCT[2] == DEFAULT_PANEL_OPACITY_PCT,
        POLL_INTERVAL_PRESETS_SECS[2] == DEFAULT_POLL_INTERVAL_SECS,
        0 <= i < 5 ==> MIN_PANEL_OPACITY_PCT <= PANEL_OPACITY_PRESETS_PCT[i] <= 100,
        0 <= i < 5 ==> readable_opacity(PANEL_OPACITY_PRESETS_PCT[i])
            == PANEL_OPACITY_PRESETS_PCT[i],
        0 <= i < 4 ==> POLL_INTERVAL_PRESETS_SECS[i] >= MIN_POLL_INTERVAL_SECS,
        0 <= i < 4 ==> interval_to_store(POLL_INTERVAL_PRESETS_SECS[i])
            == POLL_INTERVAL_PRESETS_SECS[i],
{
}

/// What the user can ask for in the menu.
#[derive(Clone, Copy, PartialEq, Eq, Structural, Debug)]
pub enum MenuCommand {
    Refresh,
    ToggleStartup,
    ToggleCpuTemp,
    TogglePanel,
    SelectMode(PanelMode),
    SelectOpacity(u32),
    ResetPosition,
    SelectInterval(u64),
    Quit,
}

/// Whether `i` is the first item with an id.
pub open spec fn first_with_id(items: Seq<(String, MenuCommand)>, id: Seq<char>, i: int) -> bool {
    &&& 0 <= i < items.len()
    &&& items[i].0@ == id
    &&& forall|j: int| 0 <= j < i ==> (#[trigger] items[j]).0@ != id
}

/// What the item with an id asks for, where there is one.
pub fn menu_command(items: &Vec<(String, MenuCommand)>, id: &str) -> (r: Option<MenuCommand>)
    ensures
        match r {
            Some(command) => exists|i: int| #[trigger]
                first_with_id(items@, id@, i) && items@[i].1 == command,
            None => forall|i: int| 0 <= i < items@.len() ==> (#[trigger] items@[i]).0@ != id@,
        },
{
    let wanted = String::from_str(id);
    let n: usize = items.len();
    for i in 0..n
        invariant
            n == items@.len(),
            wanted@ == id@,
            forall|j: int| 0 <= j < i ==> (#[trigger] items@[j]).0@ != id@,
    {
        let (item, command) = &items[i];
        if *item == wanted {
            assert(first_with_id(items@, id@, i as int));
            return Some(*command);
        }
    }
    None
}

// ---------------------------------------------------------------------------
// What the tray promises
// ---------------------------------------------------------------------------

/// Each window notifies for itself, whatever the other one reads: a notification is sent
/// where its own reading is at 90 percent or over and none has been sent since it was
/// under, it names that reading and that window's own reset, and it is remembered until
/// the reading is under 90 again. Without data nothing is sent, and what has been sent
/// stays remembered.
pub proof fn each_window_notifies_for_itself(
    before: TrayModel,
    after: TrayModel,
    windows: Option<(WindowUsage, WindowUsage)>,
    session: Option<Seq<char>>,
    weekly: Option<Seq<char>>,
)
    requires
        are_balloons_of(before, after, windows, session, weekly),
    ensures
        windows matches Some((five_hour, seven_day)) ==> {
            &&& session is Some <==> five_hour.pct >= 90 && !before.notified_five_hour
            &&& weekly is Some <==> seven_day.pct >= 90 && !before.notified_seven_day
            &&& after.notified_five_hour <==> five_hour.pct >= 90
            &&& after.notified_seven_day <==> seven_day.pct >= 90
            &&& session matches Some(text) ==> text == "Session at "@ + decimal(
                five_hour.pct as nat,
            ) + "%, resets in "@ + five_hour.resets_label@
            &&& weekly matches Some(text) ==> text == "Weekly at "@ + decimal(seven_day.pct as nat)
                + "%, resets "@ + seven_day.resets_label@
        },
        windows is None ==> {
            &&& session is None
            &&& weekly is None
            &&& after.notified_five_hour == before.notified_five_hour
            &&& after.notified_seven_day == before.notified_seven_day
        },
{
}

/// A window notifies once for each time that it passes 90 percent: of two readings in a
/// row, with data for both, the second sends a notification exactly where it is at 90 or
/// over and the first was not.
pub proof fn notifications_come_once_for_each_crossing(
    before: TrayModel,
    between: TrayModel,
    after: TrayModel,
    first: (WindowUsage, WindowUsage),
    second: (WindowUsage, WindowUsage),
    session: (Option<Seq<char>>, Option<Seq<char>>),
    weekly: (Option<Seq<char>>, Option<Seq<char>>),
)
    requires
        are_balloons_of(before, between, Some(first), session.0, weekly.0),
        are_balloons_of(between, after, Some(second), session.1, weekly.1),
    ensures
        session.1 is Some <==> first.0.pct < 90 <= second.0.pct,
        weekly.1 is Some <==> first.1.pct < 90 <= second.1.pct,
{
    each_window_notifies_for_itself(before, between, Some(first), session.0, weekly.0);
    each_window_notifies_for_itself(between, after, Some(second), session.1, weekly.1);
}

/// A reading sends a notification where it is at 90 percent or over and none has been
/// sent yet.
pub proof fn ninety_percent_notifies(already: bool, pct: u32)
    ensures
        notifies(already, pct) <==> pct >= 90 && !already,
{
}

/// The extra usage line is inserted where it was not shown and there is one, set where it
/// was shown and there still is one, taken out where there is none any more, and left
/// alone otherwise; and what is inserted or set is that line.
pub proof fn the_extra_line_follows_the_usage(
    change: ExtraChange,
    shown: bool,
    line: Option<Seq<char>>,
)
    requires
        is_extra_change(change, shown, line),
    ensures
        change is Insert <==> !shown && line is Some,
        change is Update <==> shown && line is Some,
        change is Remove <==> shown && line is None,
        change is Keep <==> !shown && line is None,
        change matches ExtraChange::Insert(text) ==> line == Some(text@),
        change matches ExtraChange::Update(text) ==> line == Some(text@),
{
}

/// The usage icon shows the higher of the two utilizations: its colour is green where that
/// is under 50 percent, amber up to 80 and red above, its number is that one, and where
/// there is no data it is gray and has no number.
pub proof fn the_usage_icon_shows_the_higher_utilization(
    state: TrayState,
    rgba: Seq<u8>,
    top: u32,
    x: int,
    y: int,
)
    requires
        is_usage_icon(state, rgba),
        state matches TrayState::Available { five_hour_pct, seven_day_pct, .. } ==> (top
            == five_hour_pct || top == seven_day_pct) && top >= five_hour_pct && top
            >= seven_day_pct,
        0 <= x < 96,
        0 <= y < 96,
    ensures
        rgba.len() == 96 * 96 * 4,
        state is Available ==> {
            &&& pixel(rgba, 48, 4) == (if top < 50 {
                (45u8, 164u8, 78u8, 255u8)
            } else if top <= 80 {
                (222u8, 163u8, 30u8, 255u8)
            } else {
                (216u8, 59u8, 59u8, 255u8)
            })
            &&& number_lights(digits(drawn_number(top)), x, y) ==> pixel(rgba, x, y) == (if 50
                <= top <= 80 {
                (0u8, 0u8, 0u8, 255u8)
            } else {
                (255u8, 255u8, 255u8, 255u8)
            })
            &&& !number_lights(digits(drawn_number(top)), x, y) ==> pixel(rgba, x, y) == icon_pixel(
                pct_color(top as int),
                None,
                BadgeShape::Circle,
                x,
                y,
            )
        },
        state is Unavailable ==> pixel(rgba, 48, 4) == (140u8, 140u8, 140u8, 255u8) && pixel(
            rgba,
            x,
            y,
        ) == icon_pixel(GRAY, None, BadgeShape::Circle, x, y),
{
    assert(on_canvas(x, y) && on_canvas(48, 4));
    if state is Available {
        let color = pct_color(top as int);
        assert(pixel(rgba, x, y) == icon_pixel(color, Some(top), BadgeShape::Circle, x, y));
        the_top_shows_the_color(color, Some(top), BadgeShape::Circle);
        values_have_their_colors(top as int);
        digits_contrast(color);
        numbers_show_on_every_badge(color, top, BadgeShape::Circle, x, y);
    } else {
        the_top_shows_the_color(GRAY, None, BadgeShape::Circle);
        values_have_their_colors(0);
    }
}

/// The temperature icon shows the temperature: its colour is green under 70 degrees, amber
/// under 85 and red from there, its number is the temperature, and without a reading it is
/// gray and has no number.
pub proof fn the_temperature_icon_shows_the_temperature(
    celsius: Option<u32>,
    rgba: Seq<u8>,
    x: int,
    y: int,
)
    requires
        is_temp_icon(celsius, rgba),
        0 <= x < 96,
        0 <= y < 96,
    ensures
        rgba.len() == 96 * 96 * 4,
        celsius matches Some(c) ==> {
            &&& pixel(rgba, 48, 4) == (if c < 70 {
                (45u8, 164u8, 78u8, 255u8)
            } else if c < 85 {
                (222u8, 163u8, 30u8, 255u8)
            } else {
                (216u8, 59u8, 59u8, 255u8)
            })
            &&& number_lights(digits(drawn_number(c)), x, y) ==> pixel(rgba, x, y) == (if 70 <= c
                < 85 {
                (0u8, 0u8, 0u8, 255u8)
            } else {
                (255u8, 255u8, 255u8, 255u8)
            })
            &&& !number_lights(digits(drawn_number(c)), x, y) ==> pixel(rgba, x, y) == icon_pixel(
                temp_color(c as int),
                None,
                BadgeShape::RoundedSquare,
                x,
                y,
            )
        },
        celsius is None ==> pixel(rgba, 48, 4) == (140u8, 140u8, 140u8, 255u8) && pixel(rgba, x, y)
            == icon_pixel(GRAY, None, BadgeShape::RoundedSquare, x, y),
{
    assert(on_canvas(x, y) && on_canvas(48, 4));
    match celsius {
        Some(c) => {
            let color = temp_color(c as int);
            the_top_shows_the_color(color, celsius, BadgeShape::RoundedSquare);
            values_have_their_colors(c as int);
            digits_contrast(color);
            numbers_show_on_every_badge(color, c, BadgeShape::RoundedSquare, x, y);
        },
        None => {
            the_top_shows_the_color(GRAY, None, BadgeShape::RoundedSquare);
            values_have_their_colors(0);
        },
    }
}

/// Where the higher utilizations of two states differ, their icons do, and so does the
/// icon of a state from the one of no data.
pub proof fn usage_icons_are_told_apart(a: TrayState, icon_a: Seq<u8>, b: TrayState, icon_b: Seq<u8>)
    requires
        is_usage_icon(a, icon_a),
        is_usage_icon(b, icon_b),
        match (a, b) {
            (
                TrayState::Available { five_hour_pct: fa, seven_day_pct: sa, .. },
                TrayState::Available { five_hour_pct: fb, seven_day_pct: sb, .. },
            ) => fa <= 999 && sa <= 999 && fb <= 999 && sb <= 999 && (fa > fb && fa > sb || sa > fb
                && sa > sb || fb > fa && fb > sa || sb > fa && sb > sa),
            (TrayState::Available { .. }, TrayState::Unavailable { .. }) => true,
            _ => false,
        },
    ensures
        icon_a != icon_b,
{
    let top = if a->five_hour_pct >= a->seven_day_pct {
        a->five_hour_pct
    } else {
        a->seven_day_pct
    };
    let other = if b->five_hour_pct >= b->seven_day_pct {
        b->five_hour_pct
    } else {
        b->seven_day_pct
    };
    the_usage_icon_shows_the_higher_utilization(a, icon_a, top, 48, 4);
    the_usage_icon_shows_the_higher_utilization(b, icon_b, other, 48, 4);
    let color = pct_color(top as int);
    if b is Available && color == pct_color(other as int) {
        different_numbers_look_different(color, BadgeShape::Circle, top, other);
        let (x, y) = choose|x: int, y: int|
            on_canvas(x, y) && #[trigger] icon_pixel(color, Some(top), BadgeShape::Circle, x, y)
                != icon_pixel(color, Some(other), BadgeShape::Circle, x, y);
        assert(pixel(icon_a, x, y) == icon_pixel(color, Some(top), BadgeShape::Circle, x, y));
        assert(pixel(icon_b, x, y) == icon_pixel(color, Some(other), BadgeShape::Circle, x, y));
    }
}

/// The tooltip of the temperature icon tells the temperature, or that there is none.
pub proof fn the_temperature_tooltip_tells_the_temperature(celsius: Option<u32>)
    ensures
        celsius matches Some(c) ==> temp_tooltip_text(celsius) == "CPU temperature: "@ + decimal(
            c as nat,
        ) + "\u{b0}C"@,
        celsius is None ==> temp_tooltip_text(celsius) == "CPU temperature: unavailable"@,
{
}

/// The panel menu offers all rows, the session, the week and the rotation, in this order.
pub proof fn the_panel_menu_has_its_order(i: int)
    requires
        0 <= i < 4,
    ensures
        mode_at(i) == PanelMode::Both <==> i == 0,
        mode_at(i) == PanelMode::FiveHourOnly <==> i == 1,
        mode_at(i) == PanelMode::WeeklyOnly <==> i == 2,
        mode_at(i) == PanelMode::Rotating <==> i == 3,
{
}

/// The item that a command is taken from has the id that was asked for, and no item before
/// it has; so there is only one such item.
pub proof fn the_first_item_with_the_id_counts(
    items: Seq<(String, MenuCommand)>,
    id: Seq<char>,
    i: int,
    j: int,
)
    requires
        first_with_id(items, id, i),
        0 <= j < items.len(),
        items[j].0@ == id,
    ensures
        0 <= i < items.len(),
        items[i].0@ == id,
        i <= j,
{
}

/// In the menu the bars have ten cells: of both windows and of the projection, a cell is
/// filled for each ten percent, from five percent on.
pub proof fn menu_bars_have_ten_cells(
    pct: u32,
    label: Seq<char>,
    projection: WeeklyProjection,
    i: int,
)
    requires
        0 <= i < 10,
    ensures
        session_line_text(pct, BAR_WIDTH, label)[10 + i] == (if pct >= 10 * i + 5 {
            '\u{2588}'
        } else {
            '\u{2591}'
        }),
        session_line_text(pct, BAR_WIDTH, label)[20] == ']',
        weekly_line_text(pct, BAR_WIDTH, label)[10 + i] == (if pct >= 10 * i + 5 {
            '\u{2588}'
        } else {
            '\u{2591}'
        }),
        weekly_line_text(pct, BAR_WIDTH, label)[20] == ']',
        projected_line_text(projection, BAR_WIDTH)[11 + i] == (if projection.projected_pct >= 10 * i
            + 5 {
            '\u{2588}'
        } else {
            '\u{2591}'
        }),
        projected_line_text(projection, BAR_WIDTH)[21] == ']',
{
    reveal_strlit("] ");
    the_session_line_shows_its_percentage(pct, BAR_WIDTH, label, i);
    the_weekly_line_shows_its_percentage(pct, BAR_WIDTH, label, i);
    the_projected_line_shows_its_percentage(projection, BAR_WIDTH, i);
    let session = session_line_text(pct, BAR_WIDTH, label);
    let weekly = weekly_line_text(pct, BAR_WIDTH, label);
    let projected = projected_line_text(projection, BAR_WIDTH);
    bar_has_its_width(pct, BAR_WIDTH);
    bar_has_its_width(projection.projected_pct, BAR_WIDTH);
    reveal_strlit("Session  [");
    reveal_strlit("Weekly   [");
    reveal_strlit("Projected [");
    assert(session.skip(20)[0] == session[20]);
    assert(weekly.skip(20)[0] == weekly[20]);
    assert(projected.skip(21)[0] == projected[21]);
}

} // verus!
