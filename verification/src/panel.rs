//! The floating usage panel: what it shows, where it stands, and how it reacts.

use crate::icon::{color_for_pct, pct_color};
use crate::instant::{clock_reading, is_local_time, seconds_between, Instant};
use crate::registry::{clamp_opacity, readable_opacity, MIN_PANEL_OPACITY_PCT};
use crate::text::{decimal, push_decimal};
use crate::usage::{
    projection_at, relative_text, Product, TrayState, WeeklyProjection, WindowUsage,
};
use vstd::prelude::*;
use vstd::string::*;

verus! {

pub const PANEL_WIDTH: i32 = 260;

/// Height of one row: a label and its progress bar.
pub const ROW_HEIGHT: i32 = 45;

/// Rows of the tallest mode.
pub const MAX_ROWS: i32 = 3;

/// Distance of the panel from the corner of the work area.
pub const CORNER_MARGIN: i32 = 12;

/// How much of the panel has to be on the screen, in both directions, for a saved
/// place to be used again.
pub const MIN_VISIBLE_PX: i32 = 40;

pub const ROTATE_TIMER_ID: usize = 1;

pub const ROTATE_INTERVAL_MS: u32 = 2000;

/// Views that the rotating mode goes through.
pub const ROTATE_VIEWS: u8 = 3;

// ---------------------------------------------------------------------------
// Modes
// ---------------------------------------------------------------------------

/// What the panel shows.
#[derive(Clone, Copy, PartialEq, Eq, Structural, Debug)]
pub enum PanelMode {
    Both,
    FiveHourOnly,
    WeeklyOnly,
    Rotating,
}

impl PanelMode {
    /// The text of [`PanelMode::as_registry_str`].
    pub open spec fn registry_text(self) -> Seq<char> {
        match self {
            PanelMode::Both => "both"@,
            PanelMode::FiveHourOnly => "five_hour"@,
            PanelMode::WeeklyOnly => "weekly"@,
            PanelMode::Rotating => "rotating"@,
        }
    }

    /// The mode that a stored text stands for.
    pub open spec fn of_registry_text(s: Seq<char>) -> Option<PanelMode> {
        if s == "both"@ {
            Some(PanelMode::Both)
        } else if s == "five_hour"@ {
            Some(PanelMode::FiveHourOnly)
        } else if s == "weekly"@ {
            Some(PanelMode::WeeklyOnly)
        } else if s == "rotating"@ {
            Some(PanelMode::Rotating)
        } else {
            None
        }
    }

    /// The text under which the mode is stored. It stays the same whatever the
    /// variants are called.
    pub fn as_registry_str(self) -> (r: &'static str)
        ensures
            r@ == self.registry_text(),
    {
        match self {
            PanelMode::Both => "both",
            PanelMode::FiveHourOnly => "five_hour",
            PanelMode::WeeklyOnly => "weekly",
            PanelMode::Rotating => "rotating",
        }
    }

    /// The mode that a stored text stands for.
    pub fn from_registry_str(s: &str) -> (r: Option<PanelMode>)
        ensures
            r == PanelMode::of_registry_text(s@),
    {
        let stored = String::from_str(s);
        if stored == String::from_str("both") {
            Some(PanelMode::Both)
        } else if stored == String::from_str("five_hour") {
            Some(PanelMode::FiveHourOnly)
        } else if stored == String::from_str("weekly") {
            Some(PanelMode::WeeklyOnly)
        } else if stored == String::from_str("rotating") {
            Some(PanelMode::Rotating)
        } else {
            None
        }
    }

    /// How many rows the mode draws: all three, the weekly window and its
    /// projection, or a single one.
    pub open spec fn rows(self) -> int {
        match self {
            PanelMode::Both => 3,
            PanelMode::WeeklyOnly => 2,
            PanelMode::FiveHourOnly => 1,
            PanelMode::Rotating => 1,
        }
    }

    /// How many rows the mode draws.
    pub fn row_count(self) -> (n: i32)
        ensures
            n == self.rows(),
    {
        match self {
            PanelMode::Both => 3,
            PanelMode::WeeklyOnly => 2,
            PanelMode::FiveHourOnly => 1,
            PanelMode::Rotating => 1,
        }
    }
}

/// A stored mode reads back as the mode that was stored.
pub proof fn registry_text_reads_back(mode: PanelMode)
    ensures
        PanelMode::of_registry_text(mode.registry_text()) == Some(mode),
{
    reveal_strlit("both");
    reveal_strlit("five_hour");
    reveal_strlit("weekly");
    reveal_strlit("rotating");
    assert("both"@.len() == 4);
    assert("five_hour"@.len() == 9);
    assert("weekly"@.len() == 6);
    assert("rotating"@.len() == 8);
}

/// A text that reads as a mode is the one that the mode is stored under.
pub proof fn only_stored_texts_read_back(s: Seq<char>)
    ensures
        PanelMode::of_registry_text(s) matches Some(mode) ==> mode.registry_text() == s,
{
}

// ---------------------------------------------------------------------------
// Where the panel stands
// ---------------------------------------------------------------------------

/// A rectangle on the screen or in a window.
#[derive(Clone, Copy, PartialEq, Eq, Structural, Debug)]
pub struct Rect {
    pub left: i32,
    pub top: i32,
    pub right: i32,
    pub bottom: i32,
}

/// The rectangle around all monitors: its upper left corner and its size.
#[derive(Clone, Copy, PartialEq, Eq, Structural, Debug)]
pub struct VirtualScreen {
    pub x: i32,
    pub y: i32,
    pub width: i32,
    pub height: i32,
}

/// A place and a size for the panel.
#[derive(Clone, Copy, PartialEq, Eq, Structural, Debug)]
pub struct Placement {
    pub x: i32,
    pub y: i32,
    pub width: i32,
    pub height: i32,
}

/// The work area of the primary monitor: what was read, or a guess at a common
/// screen where that failed.
pub fn work_area(read: Option<Rect>) -> (area: Rect)
    ensures
        area == match read {
            Some(rect) => rect,
            None => (Rect { left: 0, top: 0, right: 1920, bottom: 1040 }),
        },
{
    match read {
        Some(rect) => rect,
        None => Rect { left: 0, top: 0, right: 1920, bottom: 1040 },
    }
}

/// How far the spans `[a, a + a_len)` and `[b, b + b_len)` overlap; negative where
/// they lie apart.
pub open spec fn overlap(a: int, a_len: int, b: int, b_len: int) -> int {
    let end = if a + a_len <= b + b_len {
        a + a_len
    } else {
        b + b_len
    };
    let start = if a >= b {
        a
    } else {
        b
    };
    end - start
}

/// Whether enough of a panel at `(x, y)` lies on the screen to see and grab it. A
/// screen without a size says nothing against it.
pub open spec fn reachable(x: int, y: int, width: int, height: int, screen: VirtualScreen) -> bool {
    ||| screen.width <= 0
    ||| screen.height <= 0
    ||| {
        &&& overlap(x, width, screen.x as int, screen.width as int) >= MIN_VISIBLE_PX
        &&& overlap(y, height, screen.y as int, screen.height as int) >= MIN_VISIBLE_PX
    }
}

fn overlap_of(a: i32, a_len: i32, b: i32, b_len: i32) -> (r: i64)
    ensures
        r == overlap(a as int, a_len as int, b as int, b_len as int),
{
    let a_end: i64 = a as i64 + a_len as i64;
    let b_end: i64 = b as i64 + b_len as i64;
    let end: i64 = if a_end <= b_end {
        a_end
    } else {
        b_end
    };
    let start: i64 = if a >= b {
        a as i64
    } else {
        b as i64
    };
    end - start
}

/// Whether enough of a panel at `(x, y)` lies on the screen to see and grab it.
pub fn is_reachable(x: i32, y: i32, width: i32, height: i32, screen: VirtualScreen) -> (b: bool)
    ensures
        b == reachable(x as int, y as int, width as int, height as int, screen),
{
    if screen.width <= 0 || screen.height <= 0 {
        return true;
    }
    overlap_of(x, width, screen.x, screen.width) >= MIN_VISIBLE_PX as i64 && overlap_of(
        y,
        height,
        screen.y,
        screen.height,
    ) >= MIN_VISIBLE_PX as i64
}

/// The corner that the panel stands in by default, at the lower right of the work
/// area.
pub open spec fn corner(area: Rect, height: int) -> (int, int) {
    (area.right - PANEL_WIDTH - CORNER_MARGIN, area.bottom - height - CORNER_MARGIN)
}

/// Whether the corner has coordinates that a window can have.
pub open spec fn corner_exists(area: Rect, height: int) -> bool {
    &&& i32::MIN <= corner(area, height).0 <= i32::MAX
    &&& i32::MIN <= corner(area, height).1 <= i32::MAX
}

/// Whether the corner has coordinates that a window can have.
pub fn has_corner(area: Rect, height: i32) -> (b: bool)
    ensures
        b == corner_exists(area, height as int),
{
    let x: i64 = area.right as i64 - PANEL_WIDTH as i64 - CORNER_MARGIN as i64;
    let y: i64 = area.bottom as i64 - height as i64 - CORNER_MARGIN as i64;
    i32::MIN as i64 <= x && i32::MIN as i64 <= y && y <= i32::MAX as i64
}

/// The corner that the panel stands in by default.
pub fn default_corner(area: Rect, height: i32) -> (r: (i32, i32))
    requires
        corner_exists(area, height as int),
    ensures
        (r.0 as int, r.1 as int) == corner(area, height as int),
{
    let x: i64 = area.right as i64 - PANEL_WIDTH as i64 - CORNER_MARGIN as i64;
    let y: i64 = area.bottom as i64 - height as i64 - CORNER_MARGIN as i64;
    (x as i32, y as i32)
}

/// Where the panel stands: where it was dragged to, if that can still be reached,
/// and in its corner otherwise.
pub open spec fn origin(
    saved: Option<(i32, i32)>,
    height: int,
    area: Rect,
    screen: VirtualScreen,
) -> (int, int) {
    match saved {
        Some((x, y)) => if reachable(x as int, y as int, PANEL_WIDTH as int, height, screen) {
            (x as int, y as int)
        } else {
            corner(area, height)
        },
        None => corner(area, height),
    }
}

/// Where the panel stands: where it was dragged to, if that can still be reached,
/// and in its corner otherwise.
pub fn origin_for(
    saved: Option<(i32, i32)>,
    height: i32,
    area: Rect,
    screen: VirtualScreen,
) -> (r: (i32, i32))
    requires
        corner_exists(area, height as int),
    ensures
        (r.0 as int, r.1 as int) == origin(saved, height as int, area, screen),
{
    match saved {
        Some((x, y)) => if is_reachable(x, y, PANEL_WIDTH, height, screen) {
            (x, y)
        } else {
            default_corner(area, height)
        },
        None => default_corner(area, height),
    }
}

/// A panel in its corner can be reached wherever the lower right corner of the
/// work area lies on the screen and is not right at its left or upper edge.
pub proof fn the_corner_is_reachable(area: Rect, height: int, screen: VirtualScreen)
    requires
        height >= MIN_VISIBLE_PX,
        screen.x + CORNER_MARGIN + MIN_VISIBLE_PX <= area.right <= screen.x + screen.width,
        screen.y + CORNER_MARGIN + MIN_VISIBLE_PX <= area.bottom <= screen.y + screen.height,
    ensures
        reachable(
            corner(area, height).0,
            corner(area, height).1,
            PANEL_WIDTH as int,
            height,
            screen,
        ),
{
}

/// Wherever the panel was dragged to, and whatever has become of the monitors
/// since, it stands where it can be reached, or else in its corner.
pub proof fn the_panel_is_never_lost(
    saved: Option<(i32, i32)>,
    height: int,
    area: Rect,
    screen: VirtualScreen,
)
    ensures
        ({
            let (x, y) = origin(saved, height, area, screen);
            reachable(x, y, PANEL_WIDTH as int, height, screen) || (x, y) == corner(area, height)
        }),
        saved matches Some((x, y)) ==> (reachable(
            x as int,
            y as int,
            PANEL_WIDTH as int,
            height,
            screen,
        ) ==> origin(saved, height, area, screen) == (x as int, y as int)),
{
}

/// The height of the panel in a mode.
pub open spec fn mode_height(mode: PanelMode) -> int {
    mode.rows() * ROW_HEIGHT
}

/// The place and size of the panel in a mode.
pub open spec fn placement(
    mode: PanelMode,
    saved: Option<(i32, i32)>,
    area: Rect,
    screen: VirtualScreen,
) -> Placement {
    let (x, y) = origin(saved, mode_height(mode), area, screen);
    Placement {
        x: x as i32,
        y: y as i32,
        width: PANEL_WIDTH,
        height: mode_height(mode) as i32,
    }
}

/// The place and size of the panel in a mode, where there is a window.
pub fn position_and_size(
    has_window: bool,
    mode: PanelMode,
    saved: Option<(i32, i32)>,
    area: Rect,
    screen: VirtualScreen,
) -> (r: Option<Placement>)
    requires
        corner_exists(area, mode_height(mode)),
    ensures
        r == if has_window {
            Some(placement(mode, saved, area, screen))
        } else {
            None
        },
{
    if !has_window {
        return None;
    }
    let height: i32 = mode.row_count() * ROW_HEIGHT;
    let (x, y) = origin_for(saved, height, area, screen);
    Some(Placement { x, y, width: PANEL_WIDTH, height })
}

// ---------------------------------------------------------------------------
// Opacity
// ---------------------------------------------------------------------------

/// The alpha value, out of 255, of an opacity in percent, rounded to the nearest.
pub open spec fn alpha(pct: u32) -> int {
    (510 * readable_opacity(pct) + 100) / 200
}

/// The alpha value of an opacity, where there is a window to apply it to.
pub fn apply_opacity(has_window: bool, pct: u32) -> (r: Option<u8>)
    ensures
        match r {
            Some(a) => has_window && a == alpha(pct),
            None => !has_window,
        },
{
    if !has_window {
        return None;
    }
    let pct: u32 = clamp_opacity(pct);
    Some(((510 * pct + 100) / 200) as u8)
}

/// The panel is never invisible, full opacity is opaque, and more of it is never
/// fainter.
pub proof fn opacity_is_monotone(less: u32, more: u32)
    requires
        less <= more,
    ensures
        51 <= alpha(less) <= alpha(more) <= 255,
        more >= 100 ==> alpha(more) == 255,
{
}

// ---------------------------------------------------------------------------
// What the panel shows
// ---------------------------------------------------------------------------

/// One progress bar. The percentage may be over 100 for a projection; the bar is
/// then full.
pub struct BarInfo {
    pub pct: u32,
    pub color: [u8; 3],
    /// What stands behind the percentage.
    pub detail: String,
}

/// What a [`BarInfo`] holds.
pub struct BarView {
    pub pct: u32,
    pub color: [u8; 3],
    pub detail: Seq<char>,
}

impl View for BarInfo {
    type V = BarView;

    open spec fn view(&self) -> BarView {
        BarView { pct: self.pct, color: self.color, detail: self.detail@ }
    }
}

/// What the panel has to show.
pub enum PanelData {
    /// Nothing has been fetched yet.
    Loading,
    Available { five_hour: BarInfo, seven_day: BarInfo, projected: BarInfo },
    /// Why there is no data, in a few words.
    Unavailable(&'static str),
}

/// What a [`PanelData`] holds.
pub enum PanelView {
    Loading,
    Available { five_hour: BarView, seven_day: BarView, projected: BarView },
    Unavailable(Seq<char>),
}

impl View for PanelData {
    type V = PanelView;

    open spec fn view(&self) -> PanelView {
        match *self {
            PanelData::Loading => PanelView::Loading,
            PanelData::Available { five_hour, seven_day, projected } => PanelView::Available {
                five_hour: five_hour@,
                seven_day: seven_day@,
                projected: projected@,
            },
            PanelData::Unavailable(label) => PanelView::Unavailable(label@),
        }
    }
}

/// The bar of a usage window.
pub open spec fn window_bar(pct: u32, label: Seq<char>) -> BarView {
    BarView { pct, color: pct_color(pct as int), detail: "resets "@ + label }
}

/// The bar of a projection: red from 81 percent on, also where it is over 100.
pub open spec fn projection_bar(p: Option<WeeklyProjection>) -> BarView {
    match p {
        Some(p) => BarView {
            pct: p.projected_pct,
            color: pct_color(p.projected_pct as int),
            detail: p.tag_text(),
        },
        None => BarView { pct: 0, color: pct_color(0), detail: "--"@ },
    }
}

fn bar_of_window(window: &WindowUsage) -> (bar: BarInfo)
    ensures
        bar@ == window_bar(window.pct, window.resets_label@),
{
    let mut detail = String::new();
    detail.append("resets ");
    detail.append(window.resets_label.as_str());
    proof {
        assert(detail@ =~= "resets "@ + window.resets_label@);
    }
    BarInfo { pct: window.pct, color: color_for_pct(window.pct), detail }
}

fn bar_of_projection(p: Option<WeeklyProjection>) -> (bar: BarInfo)
    ensures
        bar@ == projection_bar(p),
{
    match p {
        Some(p) => {
            let shown: u32 = if p.projected_pct > 100 {
                100
            } else {
                p.projected_pct
            };
            BarInfo {
                pct: p.projected_pct,
                color: color_for_pct(shown),
                detail: String::from_str(p.tag()),
            }
        },
        None => BarInfo { pct: 0, color: color_for_pct(0), detail: String::from_str("--") },
    }
}

/// What the panel shows for two usage windows and a projection, or for the lack of
/// them.
pub open spec fn shown(
    windows: Option<((u32, Seq<char>), (u32, Seq<char>))>,
    projection: Option<WeeklyProjection>,
    short_label: Option<Seq<char>>,
) -> PanelView {
    match windows {
        Some((five_hour, seven_day)) => PanelView::Available {
            five_hour: window_bar(five_hour.0, five_hour.1),
            seven_day: window_bar(seven_day.0, seven_day.1),
            projected: projection_bar(projection),
        },
        None => PanelView::Unavailable(
            match short_label {
                Some(label) => label,
                None => "unavailable"@,
            },
        ),
    }
}

/// The parts of a pair of windows that are shown.
pub open spec fn windows_view(windows: Option<(WindowUsage, WindowUsage)>) -> Option<
    ((u32, Seq<char>), (u32, Seq<char>)),
> {
    match windows {
        Some((a, b)) => Some(((a.pct, a.resets_label@), (b.pct, b.resets_label@))),
        None => None,
    }
}

/// What the panel shows for two usage windows and a projection, or for the lack of
/// them.
pub fn panel_data(
    windows: Option<(WindowUsage, WindowUsage)>,
    projection: Option<WeeklyProjection>,
    short_label: Option<&'static str>,
) -> (data: PanelData)
    ensures
        data@ == shown(
            windows_view(windows),
            projection,
            match short_label {
                Some(label) => Some(label@),
                None => None,
            },
        ),
{
    match windows {
        Some((five_hour, seven_day)) => PanelData::Available {
            five_hour: bar_of_window(&five_hour),
            seven_day: bar_of_window(&seven_day),
            projected: bar_of_projection(projection),
        },
        None => PanelData::Unavailable(
            match short_label {
                Some(label) => label,
                None => "unavailable",
            },
        ),
    }
}

/// The state of the panel.
pub struct PanelState {
    pub data: PanelData,
    pub mode: PanelMode,
    pub visible: bool,
    /// Which view the rotating mode is at: session, weekly, projected.
    pub rotate_index: u8,
    /// The opacity in percent, 20 to 100.
    pub opacity_pct: u32,
    /// Where the panel was last dragged to.
    pub custom_pos: Option<(i32, i32)>,
}

impl PanelState {
    /// Whether the rotation is at one of its views, and the opacity can be read.
    pub open spec fn wf(self) -> bool {
        &&& self.rotate_index < ROTATE_VIEWS
        &&& MIN_PANEL_OPACITY_PCT <= self.opacity_pct <= 100
    }

    /// The state at start-up: hidden, with nothing to show, and with the opacity and
    /// the place that are stored, the opacity brought into its range.
    pub fn new(opacity_pct: u32, custom_pos: Option<(i32, i32)>) -> (state: PanelState)
        ensures
            state.wf(),
            state == (PanelState {
                data: PanelData::Loading,
                mode: PanelMode::Both,
                visible: false,
                rotate_index: 0,
                opacity_pct: readable_opacity(opacity_pct),
                custom_pos,
            }),
    {
        PanelState {
            data: PanelData::Loading,
            mode: PanelMode::Both,
            visible: false,
            rotate_index: 0,
            opacity_pct: clamp_opacity(opacity_pct),
            custom_pos,
        }
    }
}

/// Where the panel stands at a height.
pub fn panel_origin(state: &PanelState, height: i32, area: Rect, screen: VirtualScreen) -> (r: (
    i32,
    i32,
))
    requires
        corner_exists(area, height as int),
    ensures
        (r.0 as int, r.1 as int) == origin(state.custom_pos, height as int, area, screen),
{
    origin_for(state.custom_pos, height, area, screen)
}

/// The place and size that the panel is created with, that of its tallest mode,
/// and the alpha value to set before it is shown.
pub fn create_window(state: &PanelState, area: Rect, screen: VirtualScreen) -> (r: (Placement, u8))
    requires
        corner_exists(area, mode_height(PanelMode::Both)),
    ensures
        r.0 == placement(PanelMode::Both, state.custom_pos, area, screen),
        r.1 == alpha(state.opacity_pct),
{
    let height: i32 = MAX_ROWS * ROW_HEIGHT;
    let (x, y) = panel_origin(state, height, area, screen);
    let a: u8 = match apply_opacity(true, state.opacity_pct) {
        Some(a) => a,
        None => 255,
    };
    (Placement { x, y, width: PANEL_WIDTH, height }, a)
}

/// Whether the timer of the rotation runs: while the panel is shown in the
/// rotating mode.
pub open spec fn timer_runs(state: PanelState) -> bool {
    state.visible && state.mode == PanelMode::Rotating
}

/// Whether the timer of the rotation runs.
pub fn sync_timer(state: &PanelState) -> (run: bool)
    ensures
        run == timer_runs(*state),
{
    state.visible && state.mode == PanelMode::Rotating
}

/// Shows or hides the panel, and says whether the timer runs then. Without a
/// window nothing changes.
pub fn set_visible(state: &mut PanelState, has_window: bool, visible: bool) -> (timer: Option<bool>)
    ensures
        has_window ==> *final(state) == (PanelState { visible, ..*old(state) }) && timer == Some(
            timer_runs(*final(state)),
        ),
        !has_window ==> *final(state) == *old(state) && timer is None,
{
    if !has_window {
        return None;
    }
    state.visible = visible;
    Some(sync_timer(state))
}

/// Changes the opacity, brought into the range that can be read, and says the alpha
/// value to set on the window, if there is one.
pub fn set_opacity(state: &mut PanelState, has_window: bool, pct: u32) -> (r: Option<u8>)
    ensures
        *final(state) == (PanelState { opacity_pct: readable_opacity(pct), ..*old(state) }),
        old(state).wf() ==> final(state).wf(),
        match r {
            Some(a) => has_window && a == alpha(pct),
            None => !has_window,
        },
{
    state.opacity_pct = clamp_opacity(pct);
    apply_opacity(has_window, pct)
}

/// Forgets where the panel was dragged to, and says where it stands then.
pub fn reset_position(
    state: &mut PanelState,
    has_window: bool,
    area: Rect,
    screen: VirtualScreen,
) -> (r: Option<Placement>)
    requires
        corner_exists(area, mode_height(old(state).mode)),
    ensures
        *final(state) == (PanelState { custom_pos: None, ..*old(state) }),
        r == if has_window {
            Some(placement(old(state).mode, None, area, screen))
        } else {
            None
        },
{
    state.custom_pos = None;
    position_and_size(has_window, state.mode, None, area, screen)
}

/// Changes the mode and starts its rotation over. Says the place and size of the
/// panel then, and whether the timer runs.
pub fn set_mode(
    state: &mut PanelState,
    has_window: bool,
    mode: PanelMode,
    area: Rect,
    screen: VirtualScreen,
) -> (r: Option<(Placement, bool)>)
    requires
        corner_exists(area, mode_height(mode)),
    ensures
        old(state).wf() ==> final(state).wf(),
        *final(state) == (PanelState { mode, rotate_index: 0, ..*old(state) }),
        r == if has_window {
            Some(
                (
                    placement(mode, old(state).custom_pos, area, screen),
                    timer_runs(*final(state)),
                ),
            )
        } else {
            None
        },
{
    state.mode = mode;
    state.rotate_index = 0;
    match position_and_size(has_window, mode, state.custom_pos, area, screen) {
        Some(place) => Some((place, sync_timer(state))),
        None => None,
    }
}

/// Remembers where the panel was dragged to, where its window and its rectangle
/// are known, and says the place to store.
pub fn save_position(state: &mut PanelState, has_window: bool, rect: Option<Rect>) -> (r: Option<
    (i32, i32),
>)
    ensures
        r == if has_window && rect is Some {
            Some((rect->0.left, rect->0.top))
        } else {
            None
        },
        *final(state) == if has_window && rect is Some {
            PanelState { custom_pos: r, ..*old(state) }
        } else {
            *old(state)
        },
{
    if !has_window {
        return None;
    }
    match rect {
        Some(rect) => {
            state.custom_pos = Some((rect.left, rect.top));
            Some((rect.left, rect.top))
        },
        None => None,
    }
}

/// A panel that was dragged to where it can be reached comes back to that very
/// place, in every mode.
pub proof fn a_dragged_panel_comes_back(
    rect: Rect,
    mode: PanelMode,
    area: Rect,
    screen: VirtualScreen,
)
    requires
        reachable(
            rect.left as int,
            rect.top as int,
            PANEL_WIDTH as int,
            mode_height(mode),
            screen,
        ),
    ensures
        ({
            let p = placement(mode, Some((rect.left, rect.top)), area, screen);
            p.x == rect.left && p.y == rect.top
        }),
{
}

/// Puts fresh usage data on the panel.
pub fn update_data(state: &mut PanelState, tray_state: &TrayState)
    ensures
        *final(state) == (PanelState { data: final(state).data, ..*old(state) }),
        match *tray_state {
            TrayState::Unavailable { reason, .. } => final(state).data@ == PanelView::Unavailable(
                reason.short_text(),
            ),
            TrayState::Available {
                five_hour_pct,
                five_hour_resets,
                seven_day_pct,
                seven_day_resets,
                ..
            } => exists|now: Instant, later: Instant, label: Seq<char>|
                #![trigger clock_reading(now), clock_reading(later), is_local_time(label, seven_day_resets)]
                clock_reading(now) && clock_reading(later) && is_local_time(label, seven_day_resets)
                    && final(state).data@ == shown(
                    Some(
                        (
                            (five_hour_pct, relative_text(seconds_between(five_hour_resets, now))),
                            (seven_day_pct, label),
                        ),
                    ),
                    Some(projection_at(seven_day_pct, seven_day_resets, later)),
                    None,
                ),
        },
{
    let windows = tray_state.windows();
    let projection = tray_state.weekly_projection();
    let label = tray_state.unavailable_short_label();
    state.data = panel_data(windows, projection, label);
}

// ---------------------------------------------------------------------------
// Messages
// ---------------------------------------------------------------------------

pub const WM_PAINT: u32 = 0x000f;

pub const WM_ERASEBKGND: u32 = 0x0014;

pub const WM_NCHITTEST: u32 = 0x0084;

pub const WM_NCLBUTTONDBLCLK: u32 = 0x00a3;

pub const WM_TIMER: u32 = 0x0113;

pub const WM_EXITSIZEMOVE: u32 = 0x0232;

/// The pointer is over the client area.
pub const HTCLIENT: isize = 1;

/// The pointer is over the title bar.
pub const HTCAPTION: isize = 2;

/// What the window does on a message.
#[derive(Clone, Copy, PartialEq, Eq, Structural, Debug)]
pub enum Reaction {
    /// Answer with this value.
    Answer(isize),
    /// Ask the default handler where the pointer is, and answer with
    /// [`hit_answer`] of that.
    HitTest,
    /// Remember where the panel was dragged to, and answer 0.
    SavePosition,
    /// Schedule a repaint, and answer 0.
    Repaint,
    /// Paint, and answer 0.
    Paint,
    /// Leave the message to the default handler.
    Default,
}

/// What the window does on a message. The background is not erased, as painting
/// covers all of it; a double click does not maximize; the end of a drag saves the
/// place; the rotation timer repaints.
pub open spec fn reaction(msg: u32, wparam: usize) -> Reaction {
    if msg == WM_ERASEBKGND {
        Reaction::Answer(1)
    } else if msg == WM_NCHITTEST {
        Reaction::HitTest
    } else if msg == WM_NCLBUTTONDBLCLK {
        Reaction::Answer(0)
    } else if msg == WM_EXITSIZEMOVE {
        Reaction::SavePosition
    } else if msg == WM_TIMER {
        if wparam == ROTATE_TIMER_ID {
            Reaction::Repaint
        } else {
            Reaction::Answer(0)
        }
    } else if msg == WM_PAINT {
        Reaction::Paint
    } else {
        Reaction::Default
    }
}

/// The view after one, in the rotation.
pub open spec fn next_view(index: u8) -> u8 {
    ((index + 1) % 3) as u8
}

/// Reacts to a message; the rotation timer moves on to the next view.
pub fn wndproc(state: &mut PanelState, msg: u32, wparam: usize) -> (r: Reaction)
    requires
        old(state).wf(),
    ensures
        final(state).wf(),
        r == reaction(msg, wparam),
        *final(state) == if msg == WM_TIMER && wparam == ROTATE_TIMER_ID {
            PanelState { rotate_index: next_view(old(state).rotate_index), ..*old(state) }
        } else {
            *old(state)
        },
{
    if msg == WM_ERASEBKGND {
        Reaction::Answer(1)
    } else if msg == WM_NCHITTEST {
        Reaction::HitTest
    } else if msg == WM_NCLBUTTONDBLCLK {
        Reaction::Answer(0)
    } else if msg == WM_EXITSIZEMOVE {
        Reaction::SavePosition
    } else if msg == WM_TIMER {
        if wparam == ROTATE_TIMER_ID {
            state.rotate_index = (state.rotate_index + 1) % ROTATE_VIEWS;
            Reaction::Repaint
        } else {
            Reaction::Answer(0)
        }
    } else if msg == WM_PAINT {
        Reaction::Paint
    } else {
        Reaction::Default
    }
}

/// Where the window says the pointer is: all of the client area counts as title
/// bar, so that the panel can be dragged by any part of it.
pub fn hit_answer(hit: isize) -> (r: isize)
    ensures
        r == if hit == HTCLIENT {
            HTCAPTION
        } else {
            hit
        },
{
    if hit == HTCLIENT {
        HTCAPTION
    } else {
        hit
    }
}

// ---------------------------------------------------------------------------
// Painting
// ---------------------------------------------------------------------------

/// A row of the panel.
#[derive(Clone, Copy, PartialEq, Eq, Structural, Debug)]
pub enum Row {
    Session,
    Weekly,
    Projected,
}

impl Row {
    /// The text of [`Row::label`].
    pub open spec fn label_text(self) -> Seq<char> {
        match self {
            Row::Session => "Session"@,
            Row::Weekly => "Weekly"@,
            Row::Projected => "Projected"@,
        }
    }

    /// What the row is labelled with.
    pub fn label(self) -> (r: &'static str)
        ensures
            r@ == self.label_text(),
    {
        match self {
            Row::Session => "Session",
            Row::Weekly => "Weekly",
            Row::Projected => "Projected",
        }
    }
}

/// The rows that a mode shows, with the rotation at a view.
pub open spec fn rows(mode: PanelMode, rotate_index: u8) -> Seq<Row> {
    match mode {
        PanelMode::Both => seq![Row::Session, Row::Weekly, Row::Projected],
        PanelMode::FiveHourOnly => seq![Row::Session],
        PanelMode::WeeklyOnly => seq![Row::Weekly, Row::Projected],
        PanelMode::Rotating => if rotate_index % 3 == 0 {
            seq![Row::Session]
        } else if rotate_index % 3 == 1 {
            seq![Row::Weekly]
        } else {
            seq![Row::Projected]
        },
    }
}

/// The rows that a mode shows, with the rotation at a view.
pub fn rows_shown(mode: PanelMode, rotate_index: u8) -> (r: Vec<Row>)
    ensures
        r@ == rows(mode, rotate_index),
{
    let r = match mode {
        PanelMode::Both => vec![Row::Session, Row::Weekly, Row::Projected],
        PanelMode::FiveHourOnly => vec![Row::Session],
        PanelMode::WeeklyOnly => vec![Row::Weekly, Row::Projected],
        PanelMode::Rotating => if rotate_index % ROTATE_VIEWS == 0 {
            vec![Row::Session]
        } else if rotate_index % ROTATE_VIEWS == 1 {
            vec![Row::Weekly]
        } else {
            vec![Row::Projected]
        },
    };
    proof {
        assert(r@ =~= rows(mode, rotate_index));
    }
    r
}

/// The window is as tall as its rows: a mode shows as many as its height is made
/// for, whatever view the rotation is at.
pub proof fn the_window_fits_its_rows(mode: PanelMode, rotate_index: u8)
    ensures
        rows(mode, rotate_index).len() == mode.rows(),
        mode_height(mode) == rows(mode, rotate_index).len() * ROW_HEIGHT,
        1 <= mode.rows() <= MAX_ROWS,
{
}

/// The rotation goes from the session to the week, to the projection, and around
/// again, one row at a time.
pub proof fn rotation_goes_around(index: u8)
    requires
        index < ROTATE_VIEWS,
    ensures
        next_view(index) < ROTATE_VIEWS,
        next_view(next_view(next_view(index))) == index,
        rows(PanelMode::Rotating, index) == seq![Row::Session] ==> rows(
            PanelMode::Rotating,
            next_view(index),
        ) == seq![Row::Weekly],
        rows(PanelMode::Rotating, index) == seq![Row::Weekly] ==> rows(
            PanelMode::Rotating,
            next_view(index),
        ) == seq![Row::Projected],
        rows(PanelMode::Rotating, index) == seq![Row::Projected] ==> rows(
            PanelMode::Rotating,
            next_view(index),
        ) == seq![Row::Session],
{
    assert(seq![Row::Session][0] != seq![Row::Weekly][0]);
    assert(seq![Row::Session][0] != seq![Row::Projected][0]);
    assert(seq![Row::Weekly][0] != seq![Row::Projected][0]);
}

/// A colour as the window system takes it.
pub open spec fn colorref(r: u8, g: u8, b: u8) -> u32 {
    (r + 0x100 * g + 0x1_0000 * b) as u32
}

/// A colour as the window system takes it.
pub fn rgb(r: u8, g: u8, b: u8) -> (c: u32)
    ensures
        c == colorref(r, g, b),
{
    r as u32 + 0x100 * g as u32 + 0x1_0000 * b as u32
}

/// One step of painting.
pub enum DrawOp {
    /// Fill a rectangle.
    Fill { rect: Rect, color: u32 },
    /// Draw the outline of a rectangle.
    Frame { rect: Rect, color: u32 },
    /// Write a text with its upper left corner at a place.
    Text { x: i32, y: i32, text: String, color: u32 },
}

/// What a [`DrawOp`] draws.
pub enum Drawn {
    Fill { rect: Rect, color: u32 },
    Frame { rect: Rect, color: u32 },
    Text { x: i32, y: i32, text: Seq<char>, color: u32 },
}

impl View for DrawOp {
    type V = Drawn;

    open spec fn view(&self) -> Drawn {
        match *self {
            DrawOp::Fill { rect, color } => Drawn::Fill { rect, color },
            DrawOp::Frame { rect, color } => Drawn::Frame { rect, color },
            DrawOp::Text { x, y, text, color } => Drawn::Text { x, y, text: text@, color },
        }
    }
}

/// What a sequence of steps draws.
pub open spec fn drawn(ops: Seq<DrawOp>) -> Seq<Drawn> {
    ops.map_values(|op: DrawOp| op@)
}

/// A number divided by a positive one, towards zero.
pub open spec fn quotient(a: int, b: int) -> int {
    if a >= 0 {
        a / b
    } else {
        -((-a) / b)
    }
}

/// The height of each of `n` rows in a client area.
pub open spec fn row_height(client: Rect, n: int) -> int {
    quotient(client.bottom - client.top, n)
}

/// Whether the sides of a bar lie within the range of a coordinate, and its width too.
pub open spec fn sides_fit(client: Rect) -> bool {
    &&& client.left + 10 <= i32::MAX
    &&& i32::MIN <= client.right - 10
    &&& i32::MIN <= client.right - client.left - 20 <= i32::MAX
}

/// Whether no coordinate that painting computes leaves the range of a coordinate.
pub open spec fn paintable(client: Rect) -> bool {
    &&& sides_fit(client)
    &&& i32::MIN <= client.bottom - client.top <= i32::MAX
    &&& i32::MIN + 8 <= client.top <= i32::MAX - 28
    &&& i32::MIN + 8 <= client.bottom <= i32::MAX - 28
}

/// Whether no coordinate that painting computes leaves the range of a coordinate.
pub fn is_paintable(client: Rect) -> (b: bool)
    ensures
        b == paintable(client),
{
    let (left, top) = (client.left as i64, client.top as i64);
    let (right, bottom) = (client.right as i64, client.bottom as i64);
    let (min, max) = (i32::MIN as i64, i32::MAX as i64);
    left + 10 <= max && min <= right - 10 && min <= right - left - 20 && right - left - 20 <= max
        && min <= bottom - top && bottom - top <= max && min + 8 <= top && top <= max - 28 && min
        + 8 <= bottom && bottom <= max - 28
}

/// The rectangle of the bar of a row.
pub open spec fn bar_rect(client: Rect, top: int, row_h: int) -> Rect {
    Rect {
        left: (client.left + 10) as i32,
        top: (top + 22) as i32,
        right: (client.right - 10) as i32,
        bottom: (if top + row_h - 8 >= top + 28 {
            top + row_h - 8
        } else {
            top + 28
        }) as i32,
    }
}

/// How much of a bar of some width is filled: its percentage, of up to 100, rounded
/// to the nearest pixel.
pub open spec fn filled_width(width: int, pct: int) -> int {
    if width <= 0 {
        0
    } else {
        (2 * (width * (if pct < 100 {
            pct
        } else {
            100
        })) + 100) / 200
    }
}

/// The label of a row: its name, its percentage and what stands behind it.
pub open spec fn row_label(name: Seq<char>, bar: BarView) -> Seq<char> {
    name + "  "@ + decimal(bar.pct as nat) + "%  "@ + bar.detail
}

/// What a row draws: its label, the track of its bar, the filled part where there
/// is one, and the outline.
pub open spec fn row_painting(
    client: Rect,
    top: int,
    row_h: int,
    name: Seq<char>,
    bar: BarView,
) -> Seq<Drawn> {
    let track = bar_rect(client, top, row_h);
    let filled = filled_width(track.right - track.left, bar.pct as int);
    let label = Drawn::Text {
        x: (client.left + 10) as i32,
        y: (top + 4) as i32,
        text: row_label(name, bar),
        color: colorref(230, 230, 230),
    };
    let back = Drawn::Fill { rect: track, color: colorref(60, 60, 60) };
    let fill = Drawn::Fill {
        rect: Rect { right: (track.left + filled) as i32, ..track },
        color: colorref(bar.color[0], bar.color[1], bar.color[2]),
    };
    let frame = Drawn::Frame { rect: track, color: colorref(90, 90, 90) };
    if filled > 0 {
        seq![label, back, fill, frame]
    } else {
        seq![label, back, frame]
    }
}

proof fn filled_width_bounds(width: int, pct: int)
    requires
        0 <= pct,
    ensures
        0 <= filled_width(width, pct),
        width >= 0 ==> filled_width(width, pct) <= width,
{
    if width > 0 {
        let p = if pct < 100 {
            pct
        } else {
            100
        };
        assert(0 <= width * p <= width * 100) by (nonlinear_arith)
            requires
                0 <= p <= 100,
                0 < width,
        ;
    }
}

/// The filled part never goes beyond its bar, a higher percentage never fills less
/// of it, and from 100 percent on the bar is full.
pub proof fn the_fill_stays_in_its_bar(width: int, less: u32, more: u32)
    requires
        0 <= width,
        less <= more,
    ensures
        0 <= filled_width(width, less as int) <= filled_width(width, more as int) <= width,
        more >= 100 ==> filled_width(width, more as int) == width,
        filled_width(width, 0) == 0,
{
    filled_width_bounds(width, less as int);
    filled_width_bounds(width, more as int);
    let a: int = if less < 100 {
        less as int
    } else {
        100
    };
    let b: int = if more < 100 {
        more as int
    } else {
        100
    };
    assert(width * a <= width * b) by (nonlinear_arith)
        requires
            a <= b,
            0 <= width,
    ;
    assert(width * 0 == 0);
}

fn draw_text(ops: &mut Vec<DrawOp>, x: i32, y: i32, text: String, color: u32)
    ensures
        drawn(final(ops)@) == drawn(old(ops)@).push(Drawn::Text { x, y, text: text@, color }),
{
    ops.push(DrawOp::Text { x, y, text, color });
    proof {
        assert(drawn(ops@) =~= drawn(old(ops)@).push(Drawn::Text { x, y, text: text@, color }));
    }
}

fn push_op(ops: &mut Vec<DrawOp>, op: DrawOp)
    ensures
        drawn(final(ops)@) == drawn(old(ops)@).push(op@),
{
    ops.push(op);
    proof {
        assert(drawn(ops@) =~= drawn(old(ops)@).push(op@));
    }
}

/// Draws a row: its label and its bar.
pub fn draw_bar_row(
    ops: &mut Vec<DrawOp>,
    client: Rect,
    top: i32,
    row_h: i32,
    label: &str,
    bar: &BarInfo,
)
    requires
        sides_fit(client),
        top <= i32::MAX - 28,
        i32::MIN + 8 <= top + row_h <= i32::MAX,
    ensures
        drawn(final(ops)@) == drawn(old(ops)@) + row_painting(
            client,
            top as int,
            row_h as int,
            label@,
            bar@,
        ),
{
    let ghost before = drawn(ops@);
    let mut text = String::from_str(label);
    text.append("  ");
    push_decimal(&mut text, bar.pct as u64);
    text.append("%  ");
    text.append(bar.detail.as_str());
    proof {
        assert(text@ =~= row_label(label@, bar@));
    }
    draw_text(ops, client.left + 10, top + 4, text, rgb(230, 230, 230));

    let low: i32 = if top + row_h - 8 >= top + 28 {
        top + row_h - 8
    } else {
        top + 28
    };
    let track = Rect { left: client.left + 10, top: top + 22, right: client.right - 10, bottom: low };
    push_op(ops, DrawOp::Fill { rect: track, color: rgb(60, 60, 60) });

    let width: i32 = track.right - track.left;
    let filled: i32 = fill_width(width, bar.pct);
    proof {
        filled_width_bounds(width as int, bar.pct as int);
    }
    if filled > 0 {
        let part = Rect {
            left: track.left,
            top: track.top,
            right: track.left + filled,
            bottom: track.bottom,
        };
        push_op(
            ops,
            DrawOp::Fill { rect: part, color: rgb(bar.color[0], bar.color[1], bar.color[2]) },
        );
    }
    push_op(ops, DrawOp::Frame { rect: track, color: rgb(90, 90, 90) });
    proof {
        assert(drawn(ops@) =~= before + row_painting(
            client,
            top as int,
            row_h as int,
            label@,
            bar@,
        ));
    }
}

/// How much of a bar of some width is filled.
pub fn fill_width(width: i32, pct: u32) -> (filled: i32)
    ensures
        filled == filled_width(width as int, pct as int),
{
    if width <= 0 {
        return 0;
    }
    let p: i64 = if pct < 100 {
        pct as i64
    } else {
        100
    };
    proof {
        filled_width_bounds(width as int, pct as int);
        assert(0 <= width * p <= 0x7fff_ffff * 100) by (nonlinear_arith)
            requires
                0 <= p <= 100,
                0 <= width <= 0x7fff_ffff,
        ;
    }
    ((2 * (width as i64 * p) + 100) / 200) as i32
}

/// The bar of a row.
pub open spec fn bar_of(
    row: Row,
    five_hour: BarView,
    seven_day: BarView,
    projected: BarView,
) -> BarView {
    match row {
        Row::Session => five_hour,
        Row::Weekly => seven_day,
        Row::Projected => projected,
    }
}

/// What the first `n` of some rows draw, each `row_h` under the one before.
pub open spec fn rows_painting(
    client: Rect,
    rows: Seq<Row>,
    n: nat,
    five_hour: BarView,
    seven_day: BarView,
    projected: BarView,
) -> Seq<Drawn>
    decreases n,
{
    if n == 0 {
        Seq::empty()
    } else {
        let i = n - 1;
        let row_h = row_height(client, rows.len() as int);
        rows_painting(client, rows, i as nat, five_hour, seven_day, projected) + row_painting(
            client,
            client.top + i * row_h,
            row_h,
            rows[i].label_text(),
            bar_of(rows[i], five_hour, seven_day, projected),
        )
    }
}

/// A line of text in place of the bars.
pub open spec fn notice(client: Rect, text: Seq<char>) -> Drawn {
    Drawn::Text {
        x: (client.left + 10) as i32,
        y: (client.top + 10) as i32,
        text,
        color: colorref(200, 200, 200),
    }
}

/// What the panel draws into its client area: the background, and on it the rows
/// of its mode, or a line that tells why there are none.
pub open spec fn painting(state: PanelState, client: Rect, product: Product) -> Seq<Drawn> {
    let back = seq![Drawn::Fill { rect: client, color: colorref(24, 24, 24) }];
    match state.data@ {
        PanelView::Loading => back.push(
            notice(client, product.name@ + " usage: loading..."@),
        ),
        PanelView::Unavailable(label) => back.push(
            notice(client, product.name@ + " usage: "@ + label),
        ),
        PanelView::Available { five_hour, seven_day, projected } => {
            let shown = rows(state.mode, state.rotate_index);
            back + rows_painting(client, shown, shown.len(), five_hour, seven_day, projected)
        },
    }
}

proof fn row_tops_stay_inside(height: int, n: int, i: int)
    requires
        1 <= n <= 3,
        0 <= i < n,
    ensures
        height >= 0 ==> 0 <= i * quotient(height, n) && (i + 1) * quotient(height, n) <= height,
        height < 0 ==> height <= (i + 1) * quotient(height, n) && i * quotient(height, n) <= 0,
{
    assert(n == 1 || n == 2 || n == 3);
    assert(i == 0 || i == 1 || i == 2);
    let q = quotient(height, n);
    assert(i * q == if i == 0 {
        0
    } else if i == 1 {
        q
    } else {
        2 * q
    }) by (nonlinear_arith)
        requires
            i == 0 || i == 1 || i == 2,
    ;
    assert((i + 1) * q == i * q + q) by (nonlinear_arith);
}

/// Paints the panel: the steps that draw it into its client area.
pub fn paint(state: &PanelState, client: Rect, product: &Product) -> (ops: Vec<DrawOp>)
    requires
        paintable(client),
    ensures
        drawn(ops@) == painting(*state, client, *product),
{
    let mut ops: Vec<DrawOp> = Vec::new();
    let ghost back = seq![Drawn::Fill { rect: client, color: colorref(24, 24, 24) }];
    push_op(&mut ops, DrawOp::Fill { rect: client, color: rgb(24, 24, 24) });
    proof {
        assert(drawn(ops@) =~= back);
    }
    match &state.data {
        PanelData::Loading => {
            let mut text = String::from_str(product.name.as_str());
            text.append(" usage: loading...");
            draw_text(&mut ops, client.left + 10, client.top + 10, text, rgb(200, 200, 200));
        },
        PanelData::Unavailable(label) => {
            let mut text = String::from_str(product.name.as_str());
            text.append(" usage: ");
            text.append(label);
            draw_text(&mut ops, client.left + 10, client.top + 10, text, rgb(200, 200, 200));
        },
        PanelData::Available { five_hour, seven_day, projected } => {
            let shown = rows_shown(state.mode, state.rotate_index);
            let n: usize = shown.len();
            assert(1 <= n <= 3);
            let row_h: i32 = (client.bottom - client.top) / (n as i32);
            assert(row_h == row_height(client, n as int));
            for i in 0..n
                invariant
                    n == shown@.len(),
                    1 <= n <= 3,
                    paintable(client),
                    row_h == row_height(client, n as int),
                    drawn(ops@) == back + rows_painting(
                        client,
                        shown@,
                        i as nat,
                        five_hour@,
                        seven_day@,
                        projected@,
                    ),
            {
                proof {
                    row_tops_stay_inside(client.bottom - client.top, n as int, i as int);
                    assert((i + 1) * row_h == i * row_h + row_h) by (nonlinear_arith);
                }
                let top: i32 = client.top + i as i32 * row_h;
                let row = shown[i];
                let bar = match row {
                    Row::Session => five_hour,
                    Row::Weekly => seven_day,
                    Row::Projected => projected,
                };
                draw_bar_row(&mut ops, client, top, row_h, row.label(), bar);
                proof {
                    assert(drawn(ops@) =~= back + rows_painting(
                        client,
                        shown@,
                        (i + 1) as nat,
                        five_hour@,
                        seven_day@,
                        projected@,
                    ));
                }
            }
        },
    }
    ops
}

// ---------------------------------------------------------------------------
// What the panel promises
// ---------------------------------------------------------------------------

/// A panel that was not dragged, or was dragged to where it can no longer be reached,
/// stands in the lower right corner of the work area, twelve pixels from both of its
/// edges, in every mode and on every screen.
pub proof fn the_panel_stands_in_its_corner(
    mode: PanelMode,
    saved: Option<(i32, i32)>,
    area: Rect,
    screen: VirtualScreen,
)
    requires
        corner_exists(area, mode_height(mode)),
        saved matches Some((x, y)) ==> !reachable(
            x as int,
            y as int,
            PANEL_WIDTH as int,
            mode_height(mode),
            screen,
        ),
    ensures
        ({
            let p = placement(mode, saved, area, screen);
            &&& p.x + p.width + CORNER_MARGIN == area.right
            &&& p.y + p.height + CORNER_MARGIN == area.bottom
            &&& CORNER_MARGIN == 12
        }),
{
}

/// Moving the work area moves a panel in its corner along with it.
pub proof fn the_corner_moves_with_the_work_area(
    mode: PanelMode,
    area: Rect,
    moved: Rect,
    screen: VirtualScreen,
    other: VirtualScreen,
)
    requires
        corner_exists(area, mode_height(mode)),
        corner_exists(moved, mode_height(mode)),
    ensures
        ({
            let p = placement(mode, None, area, screen);
            let q = placement(mode, None, moved, other);
            &&& q.x - p.x == moved.right - area.right
            &&& q.y - p.y == moved.bottom - area.bottom
            &&& q.width == p.width
            &&& q.height == p.height
        }),
{
}

/// The panel is 260 pixels wide wherever it stands, and 45 high for each of its rows:
/// three with all of them, two for the week and its projection, one for the session and
/// for the rotation.
pub proof fn the_panel_has_the_size_of_its_rows(
    mode: PanelMode,
    saved: Option<(i32, i32)>,
    area: Rect,
    screen: VirtualScreen,
)
    ensures
        ({
            let p = placement(mode, saved, area, screen);
            &&& p.width == 260
            &&& p.height == (match mode {
                PanelMode::Both => 135int,
                PanelMode::WeeklyOnly => 90,
                PanelMode::FiveHourOnly => 45,
                PanelMode::Rotating => 45,
            })
            &&& p.height == mode_height(mode)
        }),
{
}

/// A place can be reached where a square of 40 pixels of the panel lies on the screen: one
/// with its upper left corner at `(left, top)` is enough, and where the place can be
/// reached there is one.
pub proof fn reachable_places_show_a_square(
    x: int,
    y: int,
    width: int,
    height: int,
    screen: VirtualScreen,
    left: int,
    top: int,
)
    ensures
        x <= left && left + 40 <= x + width && screen.x <= left && left + 40 <= screen.x
            + screen.width && y <= top && top + 40 <= y + height && screen.y <= top && top + 40
            <= screen.y + screen.height ==> reachable(x, y, width, height, screen),
        reachable(x, y, width, height, screen) && screen.width > 0 && screen.height > 0 && (left == x
            && x >= screen.x || left == screen.x && x < screen.x) && (top == y && y >= screen.y
            || top == screen.y && y < screen.y) ==> left + 40 <= x + width && left + 40 <= screen.x
            + screen.width && top + 40 <= y + height && top + 40 <= screen.y + screen.height,
{
}

/// A screen without a size says nothing against any place.
pub proof fn no_screen_hides_nothing(x: int, y: int, width: int, height: int, screen: VirtualScreen)
    requires
        screen.width <= 0 || screen.height <= 0,
    ensures
        reachable(x, y, width, height, screen),
{
}

/// The alpha value is the one nearest to the opacity, as a part of 255, for the opacity
/// brought into the range of 20 to 100 percent.
pub proof fn alpha_is_the_nearest(pct: u32)
    ensures
        ({
            let c: int = if pct < 20 {
                20
            } else if pct > 100 {
                100
            } else {
                pct as int
            };
            510 * c - 100 < 200 * alpha(pct) <= 510 * c + 100
        }),
{
}

/// The panel shows each window by its own reading and its own reset, coloured by that
/// reading, and the projection by its own percentage and in one word.
pub proof fn the_panel_shows_the_readings(
    five_hour: (u32, Seq<char>),
    seven_day: (u32, Seq<char>),
    projection: WeeklyProjection,
    short_label: Option<Seq<char>>,
)
    ensures
        shown(Some((five_hour, seven_day)), Some(projection), short_label) matches
            PanelView::Available { five_hour: a, seven_day: b, projected: c } && {
            &&& a.pct == five_hour.0
            &&& a.detail == "resets "@ + five_hour.1
            &&& a.color == pct_color(five_hour.0 as int)
            &&& b.pct == seven_day.0
            &&& b.detail == "resets "@ + seven_day.1
            &&& b.color == pct_color(seven_day.0 as int)
            &&& c.pct == projection.projected_pct
            &&& c.detail == (if projection.over_limit {
                "over"@
            } else {
                "under"@
            })
            &&& c.color == pct_color(projection.projected_pct as int)
        },
{
}

/// Without data the panel tells why in the words that it is given, or else that it is
/// unavailable; and a projection that is missing is shown as nothing used.
pub proof fn the_panel_tells_what_is_missing(
    projection: Option<WeeklyProjection>,
    short_label: Option<Seq<char>>,
    windows: ((u32, Seq<char>), (u32, Seq<char>)),
)
    ensures
        short_label matches Some(label) ==> shown(None, projection, short_label)
            == PanelView::Unavailable(label),
        short_label is None ==> shown(None, projection, short_label) == PanelView::Unavailable(
            "unavailable"@,
        ),
        shown(Some(windows), None, short_label) matches PanelView::Available { projected, .. } && {
            &&& projected.pct == 0
            &&& projected.detail == "--"@
            &&& projected.color == pct_color(0)
        },
{
}

/// What is shown of two windows are their percentages and their reset labels, each of its
/// own window.
pub proof fn windows_keep_their_parts(windows: Option<(WindowUsage, WindowUsage)>)
    ensures
        windows is None ==> windows_view(windows) is None,
        windows matches Some((a, b)) ==> windows_view(windows) == Some(
            ((a.pct, a.resets_label@), (b.pct, b.resets_label@)),
        ),
{
}

/// The rotation timer runs while the panel is shown and rotates, and at no other time.
pub proof fn the_timer_runs_while_it_rotates(state: PanelState)
    ensures
        timer_runs(state) <==> state.visible && state.mode == PanelMode::Rotating,
{
}

/// The window answers for itself what it has to, and leaves everything else to the default
/// handler: painting, where the pointer is, the end of a drag, the timers, the background,
/// and double clicks. Of the timers, the rotation's alone repaints.
pub proof fn messages_have_their_reactions(msg: u32, wparam: usize)
    ensures
        reaction(msg, wparam) == Reaction::Paint <==> msg == 0x0f,
        reaction(msg, wparam) == Reaction::HitTest <==> msg == 0x84,
        reaction(msg, wparam) == Reaction::SavePosition <==> msg == 0x232,
        reaction(msg, wparam) == Reaction::Repaint <==> msg == 0x113 && wparam == 1,
        reaction(msg, wparam) == Reaction::Answer(1) <==> msg == 0x14,
        reaction(msg, wparam) == Reaction::Answer(0) <==> msg == 0xa3 || msg == 0x113 && wparam
            != 1,
        reaction(msg, wparam) == Reaction::Default <==> msg != 0x0f && msg != 0x84 && msg != 0x232
            && msg != 0x113 && msg != 0x14 && msg != 0xa3,
{
}

/// The modes show their rows whatever view the rotation is at: all of them in order, the
/// session, the week with its projection; and the rotation shows the one row of its view.
pub proof fn modes_show_their_rows(index: u8)
    ensures
        rows(PanelMode::Both, index) == seq![Row::Session, Row::Weekly, Row::Projected],
        rows(PanelMode::FiveHourOnly, index) == seq![Row::Session],
        rows(PanelMode::WeeklyOnly, index) == seq![Row::Weekly, Row::Projected],
        index == 0 ==> rows(PanelMode::Rotating, index) == seq![Row::Session],
        index == 1 ==> rows(PanelMode::Rotating, index) == seq![Row::Weekly],
        index == 2 ==> rows(PanelMode::Rotating, index) == seq![Row::Projected],
        index < 253 ==> rows(PanelMode::Rotating, (index + 3) as u8) == rows(
            PanelMode::Rotating,
            index,
        ),
        index < 2 ==> next_view(index) == index + 1,
        index == 2 ==> next_view(index) == 0,
{
}

/// A colour is stored with red in its lowest byte, green in the next and blue in the third,
/// so that no two colours are stored alike.
pub proof fn colors_are_stored_by_bytes(r: u8, g: u8, b: u8)
    ensures
        colorref(r, g, b) % 0x100 == r,
        colorref(r, g, b) / 0x100 % 0x100 == g,
        colorref(r, g, b) / 0x1_0000 == b,
{
}

/// A bar is filled to the nearest pixel of its percentage, halves upward, and full from 100
/// percent on; without a width there is nothing to fill.
pub proof fn bars_are_filled_to_the_nearest_pixel(width: int, pct: u32)
    ensures
        width <= 0 ==> filled_width(width, pct as int) == 0,
        width > 0 && pct < 100 ==> 2 * width * pct - 100 < 200 * filled_width(width, pct as int)
            <= 2 * width * pct + 100,
        width > 0 && pct >= 100 ==> filled_width(width, pct as int) == width,
{
    if width > 0 {
        let p = pct as int;
        assert(2 * width * p == 2 * (width * p)) by (nonlinear_arith);
    }
}

/// The label of a row is its name, its percentage and what stands behind that.
pub proof fn rows_are_labelled_with_their_reading(name: Seq<char>, bar: BarView)
    ensures
        row_label(name, bar) == name + "  "@ + decimal(bar.pct as nat) + "%  "@ + bar.detail,
        Row::Session.label_text() == "Session"@,
        Row::Weekly.label_text() == "Weekly"@,
        Row::Projected.label_text() == "Projected"@,
{
}

/// A row is drawn in its own stretch of the client area: its label at the upper left, and
/// under it the track of its bar, ten pixels from both sides. The filled part starts where
/// the track does and is its percentage wide, in the colour of the bar; the frame goes
/// around the whole track.
pub proof fn rows_draw_their_bar(client: Rect, top: int, row_h: int, name: Seq<char>, bar: BarView)
    requires
        sides_fit(client),
        i32::MIN <= top <= i32::MAX - 28,
        i32::MIN + 8 <= top + row_h <= i32::MAX,
    ensures
        ({
            let ops = row_painting(client, top, row_h, name, bar);
            let width = client.right - client.left - 20;
            let filled = filled_width(width, bar.pct as int);
            let track = Rect {
                left: (client.left + 10) as i32,
                top: (top + 22) as i32,
                right: (client.right - 10) as i32,
                bottom: (if row_h >= 36 {
                    top + row_h - 8
                } else {
                    top + 28
                }) as i32,
            };
            &&& ops.len() == if filled > 0 {
                4nat
            } else {
                3
            }
            &&& ops[0] == (Drawn::Text {
                x: (client.left + 10) as i32,
                y: (top + 4) as i32,
                text: name + "  "@ + decimal(bar.pct as nat) + "%  "@ + bar.detail,
                color: colorref(230, 230, 230),
            })
            &&& ops[1] == (Drawn::Fill { rect: track, color: colorref(60, 60, 60) })
            &&& ops.last() == (Drawn::Frame { rect: track, color: colorref(90, 90, 90) })
            &&& filled > 0 ==> ops[2] == (Drawn::Fill {
                rect: Rect {
                    left: track.left,
                    top: track.top,
                    right: (track.left + filled) as i32,
                    bottom: track.bottom,
                },
                color: colorref(bar.color[0], bar.color[1], bar.color[2]),
            })
        }),
{
}

/// A row shows the bar of its own window.
pub proof fn rows_show_their_own_bar(five_hour: BarView, seven_day: BarView, projected: BarView)
    ensures
        bar_of(Row::Session, five_hour, seven_day, projected) == five_hour,
        bar_of(Row::Weekly, five_hour, seven_day, projected) == seven_day,
        bar_of(Row::Projected, five_hour, seven_day, projected) == projected,
{
}

/// The rows share the height of the client area evenly, up to what is left over of it.
pub proof fn rows_share_the_height(client: Rect, n: int)
    requires
        1 <= n <= 3,
    ensures
        client.bottom >= client.top ==> n * row_height(client, n) <= client.bottom - client.top < n
            * row_height(client, n) + n,
        client.bottom < client.top ==> n * row_height(client, n) - n < client.bottom - client.top
            <= n * row_height(client, n),
{
    assert(n == 1 || n == 2 || n == 3);
    let q = row_height(client, n);
    assert(n * q == if n == 1 {
        q
    } else if n == 2 {
        2 * q
    } else {
        3 * q
    }) by (nonlinear_arith)
        requires
            n == 1 || n == 2 || n == 3,
    ;
}

/// Each row is drawn with its own label and bar, as many row heights under the upper edge
/// as rows come before it, and behind the steps of those.
pub proof fn each_row_is_drawn_at_its_height(
    client: Rect,
    rows: Seq<Row>,
    i: nat,
    n: nat,
    five_hour: BarView,
    seven_day: BarView,
    projected: BarView,
)
    requires
        i < n <= rows.len(),
    ensures
        ({
            let row_h = row_height(client, rows.len() as int);
            let all = rows_painting(client, rows, n, five_hour, seven_day, projected);
            let before = rows_painting(client, rows, i, five_hour, seven_day, projected);
            let own = row_painting(
                client,
                client.top + i * row_h,
                row_h,
                match rows[i as int] {
                    Row::Session => "Session"@,
                    Row::Weekly => "Weekly"@,
                    Row::Projected => "Projected"@,
                },
                match rows[i as int] {
                    Row::Session => five_hour,
                    Row::Weekly => seven_day,
                    Row::Projected => projected,
                },
            );
            &&& before.len() + own.len() <= all.len()
            &&& all.take(before.len() as int) == before
            &&& all.subrange(before.len() as int, (before.len() + own.len()) as int) == own
            &&& i == n - 1 ==> all.len() == before.len() + own.len()
        }),
    decreases n,
{
    let all = rows_painting(client, rows, n, five_hour, seven_day, projected);
    let most = rows_painting(client, rows, (n - 1) as nat, five_hour, seven_day, projected);
    let before = rows_painting(client, rows, i, five_hour, seven_day, projected);
    if i == n - 1 {
        assert(all.take(before.len() as int) =~= before);
        assert(all.subrange(before.len() as int, all.len() as int) =~= all.skip(
            before.len() as int,
        ));
    } else {
        each_row_is_drawn_at_its_height(
            client,
            rows,
            i,
            (n - 1) as nat,
            five_hour,
            seven_day,
            projected,
        );
        assert(all.take(before.len() as int) =~= most.take(before.len() as int));
        let next = rows_painting(client, rows, i + 1, five_hour, seven_day, projected);
        let end = next.len() as int;
        assert(all.subrange(before.len() as int, end) =~= most.subrange(before.len() as int, end));
    }
}

/// The panel paints its whole client area dark, and on it the rows of its mode, all of
/// them; or, without data, the product's name and why there is none.
pub proof fn the_panel_paints_what_it_has(state: PanelState, client: Rect, product: Product)
    ensures
        ({
            let ops = painting(state, client, product);
            &&& ops.len() >= 1
            &&& ops[0] == (Drawn::Fill { rect: client, color: colorref(24, 24, 24) })
            &&& state.data@ is Loading ==> ops.len() == 2 && ops[1] == (Drawn::Text {
                x: (client.left + 10) as i32,
                y: (client.top + 10) as i32,
                text: product.name@ + " usage: loading..."@,
                color: colorref(200, 200, 200),
            })
            &&& state.data@ matches PanelView::Unavailable(label) ==> ops.len() == 2 && ops[1] == (
            Drawn::Text {
                x: (client.left + 10) as i32,
                y: (client.top + 10) as i32,
                text: product.name@ + " usage: "@ + label,
                color: colorref(200, 200, 200),
            })
            &&& state.data@ matches PanelView::Available { five_hour, seven_day, projected }
                ==> ops.skip(1) == rows_painting(
                client,
                rows(state.mode, state.rotate_index),
                rows(state.mode, state.rotate_index).len(),
                five_hour,
                seven_day,
                projected,
            )
        }),
{
    let ops = painting(state, client, product);
    if let PanelView::Available { five_hour, seven_day, projected } = state.data@ {
        let shown = rows(state.mode, state.rotate_index);
        assert(ops.skip(1) =~= rows_painting(
            client,
            shown,
            shown.len(),
            five_hour,
            seven_day,
            projected,
        ));
    }
}

/// The corner has coordinates that a window can have unless the work area ends right at the
/// end of their range: wherever its right edge is 272 pixels above the lowest coordinate and
/// its lower edge is 12 pixels and the panel's height above it.
pub proof fn most_work_areas_have_a_corner(area: Rect, height: i32)
    requires
        height >= 0,
    ensures
        corner_exists(area, height as int) <==> area.right >= -0x8000_0000 + 272 && area.bottom
            >= -0x8000_0000 + 12 + height,
{
}

/// Every client area with coordinates of up to a billion can be painted, whatever its sides
/// are, also where they are the wrong way around.
pub proof fn ordinary_areas_can_be_painted(client: Rect)
    requires
        -1_000_000_000 <= client.left <= 1_000_000_000,
        -1_000_000_000 <= client.top <= 1_000_000_000,
        -1_000_000_000 <= client.right <= 1_000_000_000,
        -1_000_000_000 <= client.bottom <= 1_000_000_000,
    ensures
        sides_fit(client),
        paintable(client),
{
}

/// What is drawn are the steps in their order, each by its own places, text and colour.
pub proof fn steps_are_drawn_in_order(ops: Seq<DrawOp>, i: int)
    requires
        0 <= i < ops.len(),
    ensures
        drawn(ops).len() == ops.len(),
        ops[i] matches DrawOp::Fill { rect, color } ==> drawn(ops)[i] == (Drawn::Fill {
            rect,
            color,
        }),
        ops[i] matches DrawOp::Frame { rect, color } ==> drawn(ops)[i] == (Drawn::Frame {
            rect,
            color,
        }),
        ops[i] matches DrawOp::Text { x, y, text, color } ==> drawn(ops)[i] == (Drawn::Text {
            x,
            y,
            text: text@,
            color,
        }),
{
}

/// What the panel holds is seen as it is: each bar by its percentage, colour and detail, in
/// its own place.
pub proof fn panel_data_is_seen_as_it_is(
    five_hour: BarInfo,
    seven_day: BarInfo,
    projected: BarInfo,
    label: &'static str,
)
    ensures
        five_hour@.pct == five_hour.pct,
        five_hour@.color == five_hour.color,
        five_hour@.detail == five_hour.detail@,
        PanelData::Loading@ == PanelView::Loading,
        PanelData::Unavailable(label)@ == PanelView::Unavailable(label@),
        (PanelData::Available { five_hour, seven_day, projected })@ == (PanelView::Available {
            five_hour: five_hour@,
            seven_day: seven_day@,
            projected: projected@,
        }),
{
}

/// A panel's state is in order where the rotation is at one of its three views and the
/// opacity is one from 20 to 100 percent.
pub proof fn states_in_order_can_be_shown(state: PanelState)
    ensures
        state.wf() <==> state.rotate_index < 3 && 20 <= state.opacity_pct <= 100,
{
}

} // verus!
