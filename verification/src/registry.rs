//! What the stored settings mean: the values read from and written to the
//! registry, and what holds where one is missing or was edited by hand.

use crate::panel::PanelMode;
use vstd::prelude::*;
use vstd::string::*;

verus! {

/// The poll interval is never shorter than this, whatever is stored.
pub const MIN_POLL_INTERVAL_SECS: u32 = 60;

/// The poll interval of a fresh install.
pub const DEFAULT_POLL_INTERVAL_SECS: u32 = 300;

/// The panel's opacity of a fresh install.
pub const DEFAULT_PANEL_OPACITY_PCT: u32 = 70;

/// The panel's opacity is never under this: fainter than that it cannot be read.
pub const MIN_PANEL_OPACITY_PCT: u32 = 20;

/// How often the entries of our tray icons are looked for before giving up.
pub const PROMOTE_MAX_ATTEMPTS: u32 = 10;

// ---------------------------------------------------------------------------
// Starting with Windows
// ---------------------------------------------------------------------------

/// The value of the Run entry that starts an executable: its path in quotes.
pub open spec fn run_value(exe: Seq<char>) -> Seq<char> {
    "\""@ + exe + "\""@
}

/// The value of the Run entry that starts the executable at `exe`.
pub fn current_exe_value(exe: &str) -> (r: String)
    ensures
        r@ == run_value(exe@),
{
    let mut out = String::new();
    out.append("\"");
    out.append(exe);
    out.append("\"");
    proof {
        assert(out@ =~= run_value(exe@));
    }
    out
}

/// Whether the Run entry starts the executable at `exe`, where its path is known
/// and there is an entry.
pub fn is_startup_enabled(exe: Option<&str>, entry: Option<&str>) -> (b: bool)
    ensures
        b == (exe is Some && entry is Some && entry->0@ == run_value(exe->0@)),
{
    match (exe, entry) {
        (Some(exe), Some(entry)) => String::from_str(entry) == current_exe_value(exe),
        _ => false,
    }
}

/// What has to be done to the Run entry.
pub enum StartupChange {
    /// Write this value.
    Write(String),
    /// Delete the entry; one that is not there counts as deleted.
    Delete,
}

/// What has to be done so that the executable at `exe` starts with Windows, or
/// does not. Without its path it cannot be made to start.
pub fn set_startup_enabled(enable: bool, exe: Option<&str>) -> (change: Option<StartupChange>)
    ensures
        match change {
            Some(StartupChange::Write(value)) => enable && exe is Some && value@ == run_value(
                exe->0@,
            ),
            Some(StartupChange::Delete) => !enable,
            None => enable && exe is None,
        },
{
    if enable {
        match exe {
            Some(exe) => Some(StartupChange::Write(current_exe_value(exe))),
            None => None,
        }
    } else {
        Some(StartupChange::Delete)
    }
}

/// After the entry has been written for an executable it is found enabled.
pub proof fn startup_reads_back(exe: Seq<char>, other: Seq<char>)
    ensures
        run_value(exe) == run_value(other) <==> exe == other,
{
    reveal_strlit("\"");
    if run_value(exe) == run_value(other) {
        assert(run_value(exe).len() == exe.len() + 2);
        assert(run_value(other).len() == other.len() + 2);
        assert(exe =~= run_value(exe).subrange(1, (exe.len() + 1) as int));
        assert(other =~= run_value(other).subrange(1, (other.len() + 1) as int));
    }
}

/// How deleting a value went.
#[derive(Clone, Copy, PartialEq, Eq, Structural, Debug)]
pub enum Deleted {
    Done,
    NotFound,
    Failed,
}

/// Whether a deletion counts as done: one of a value that is not there does.
pub fn deletion_ok(deleted: Deleted) -> (b: bool)
    ensures
        b == (deleted != Deleted::Failed),
{
    match deleted {
        Deleted::Failed => false,
        _ => true,
    }
}

// ---------------------------------------------------------------------------
// The panel
// ---------------------------------------------------------------------------

/// Whether the panel is shown: only where that has been chosen.
pub fn is_panel_visible(stored: Option<u32>) -> (b: bool)
    ensures
        b == (stored matches Some(v) && v != 0),
{
    match stored {
        Some(v) => v != 0,
        None => false,
    }
}

/// The value that stores whether the panel is shown.
pub fn set_panel_visible(visible: bool) -> (v: u32)
    ensures
        v == if visible {
            1u32
        } else {
            0
        },
{
    if visible {
        1
    } else {
        0
    }
}

/// Whether the CPU temperature is shown: unless it has been switched off.
pub fn is_cpu_temp_visible(stored: Option<u32>) -> (b: bool)
    ensures
        b == (stored matches Some(v) ==> v != 0),
{
    match stored {
        Some(v) => v != 0,
        None => true,
    }
}

/// The value that stores whether the CPU temperature is shown.
pub fn set_cpu_temp_visible(visible: bool) -> (v: u32)
    ensures
        v == if visible {
            1u32
        } else {
            0
        },
{
    set_panel_visible(visible)
}

/// The panel's display mode: all rows where none is stored, or one that is not
/// known.
pub open spec fn stored_mode(stored: Option<Seq<char>>) -> PanelMode {
    match stored {
        Some(s) => match PanelMode::of_registry_text(s) {
            Some(mode) => mode,
            None => PanelMode::Both,
        },
        None => PanelMode::Both,
    }
}

/// The panel's display mode.
pub fn panel_mode(stored: Option<&str>) -> (mode: PanelMode)
    ensures
        mode == stored_mode(
            match stored {
                Some(s) => Some(s@),
                None => None,
            },
        ),
{
    match stored {
        Some(s) => match PanelMode::from_registry_str(s) {
            Some(mode) => mode,
            None => PanelMode::Both,
        },
        None => PanelMode::Both,
    }
}

/// An opacity brought into the range that can be read.
pub open spec fn readable_opacity(pct: u32) -> u32 {
    if pct < MIN_PANEL_OPACITY_PCT {
        MIN_PANEL_OPACITY_PCT
    } else if pct > 100 {
        100
    } else {
        pct
    }
}

/// Brings an opacity into the range that can be read.
pub fn clamp_opacity(pct: u32) -> (r: u32)
    ensures
        r == readable_opacity(pct),
{
    if pct < MIN_PANEL_OPACITY_PCT {
        MIN_PANEL_OPACITY_PCT
    } else if pct > 100 {
        100
    } else {
        pct
    }
}

/// The panel's opacity in percent.
pub open spec fn stored_opacity(stored: Option<u32>) -> u32 {
    match stored {
        Some(pct) => readable_opacity(pct),
        None => DEFAULT_PANEL_OPACITY_PCT,
    }
}

/// The panel's opacity in percent.
pub fn panel_opacity_pct(stored: Option<u32>) -> (pct: u32)
    ensures
        pct == stored_opacity(stored),
{
    match stored {
        Some(pct) => clamp_opacity(pct),
        None => DEFAULT_PANEL_OPACITY_PCT,
    }
}

/// The value that stores an opacity.
pub fn set_panel_opacity_pct(pct: u32) -> (v: u32)
    ensures
        v == readable_opacity(pct),
{
    clamp_opacity(pct)
}

/// Whatever is stored, or nothing: the panel's opacity can be read. One within
/// the range reads back as it was chosen.
pub proof fn opacity_is_always_readable(stored: Option<u32>, chosen: u32)
    ensures
        MIN_PANEL_OPACITY_PCT <= stored_opacity(stored) <= 100,
        stored_opacity(Some(readable_opacity(chosen))) == readable_opacity(chosen),
        MIN_PANEL_OPACITY_PCT <= chosen <= 100 ==> stored_opacity(Some(readable_opacity(chosen)))
            == chosen,
{
}

/// The unsigned value that stores a coordinate: a negative one is stored by its
/// two's complement.
pub open spec fn stored_coordinate(c: i32) -> u32 {
    if c >= 0 {
        c as u32
    } else {
        (c + 0x1_0000_0000) as u32
    }
}

/// The coordinate that an unsigned value stores.
pub open spec fn read_coordinate(v: u32) -> i32 {
    if v < 0x8000_0000 {
        v as i32
    } else {
        (v - 0x1_0000_0000) as i32
    }
}

/// The place that the panel was last dragged to, where both of its coordinates
/// are stored.
pub fn panel_position(x: Option<u32>, y: Option<u32>) -> (r: Option<(i32, i32)>)
    ensures
        r == match (x, y) {
            (Some(x), Some(y)) => Some((read_coordinate(x), read_coordinate(y))),
            _ => None,
        },
{
    match (x, y) {
        (Some(x), Some(y)) => {
            proof {
                signed_value(x);
                signed_value(y);
            }
            Some((x as i32, y as i32))
        },
        _ => None,
    }
}

proof fn signed_value(v: u32)
    ensures
        v as i32 == read_coordinate(v),
{
    assert(v < 0x8000_0000 ==> v as i32 == v) by (bit_vector);
    assert(v >= 0x8000_0000 ==> v as i32 == v - 0x1_0000_0000) by (bit_vector);
}

proof fn unsigned_value(c: i32)
    ensures
        c as u32 == stored_coordinate(c),
{
    assert(c >= 0 ==> c as u32 == c) by (bit_vector);
    assert(c < 0 ==> c as u32 == c + 0x1_0000_0000) by (bit_vector);
}

/// The values that store the place that the panel was dragged to.
pub fn set_panel_position(x: i32, y: i32) -> (r: (u32, u32))
    ensures
        r == (stored_coordinate(x), stored_coordinate(y)),
{
    proof {
        unsigned_value(x);
        unsigned_value(y);
    }
    (x as u32, y as u32)
}

/// A stored coordinate reads back as it was, negative ones too.
pub proof fn coordinate_reads_back(c: i32)
    ensures
        read_coordinate(stored_coordinate(c)) == c,
{
}

/// Whether the place that the panel was dragged to counts as forgotten after its
/// two values have been deleted. The second is not tried where the first failed.
pub fn clear_panel_position(x: Deleted, y: Option<Deleted>) -> (b: bool)
    ensures
        b == (x != Deleted::Failed && (y matches Some(d) ==> d != Deleted::Failed)),
{
    deletion_ok(x) && match y {
        Some(d) => deletion_ok(d),
        None => true,
    }
}

// ---------------------------------------------------------------------------
// The poll interval
// ---------------------------------------------------------------------------

/// The poll interval in seconds.
pub open spec fn stored_interval(stored: Option<u32>) -> u64 {
    let secs = match stored {
        Some(secs) => secs,
        None => DEFAULT_POLL_INTERVAL_SECS,
    };
    if secs < MIN_POLL_INTERVAL_SECS {
        MIN_POLL_INTERVAL_SECS as u64
    } else {
        secs as u64
    }
}

/// The poll interval in seconds.
pub fn poll_interval_secs(stored: Option<u32>) -> (secs: u64)
    ensures
        secs == stored_interval(stored),
{
    let raw: u32 = match stored {
        Some(secs) => secs,
        None => DEFAULT_POLL_INTERVAL_SECS,
    };
    if raw < MIN_POLL_INTERVAL_SECS {
        MIN_POLL_INTERVAL_SECS as u64
    } else {
        raw as u64
    }
}

/// The value that stores a poll interval: brought into its range.
pub open spec fn interval_to_store(secs: u64) -> u32 {
    if secs < MIN_POLL_INTERVAL_SECS {
        MIN_POLL_INTERVAL_SECS
    } else if secs > u32::MAX {
        u32::MAX
    } else {
        secs as u32
    }
}

/// The value that stores a poll interval.
pub fn set_poll_interval_secs(secs: u64) -> (v: u32)
    ensures
        v == interval_to_store(secs),
{
    if secs < MIN_POLL_INTERVAL_SECS as u64 {
        MIN_POLL_INTERVAL_SECS
    } else if secs > 0xffff_ffff {
        u32::MAX
    } else {
        secs as u32
    }
}

/// Whatever is stored, or nothing: polling is never more frequent than once a
/// minute. An interval of at least that reads back as it was chosen.
pub proof fn interval_keeps_its_floor(stored: Option<u32>, chosen: u64)
    ensures
        stored_interval(stored) >= MIN_POLL_INTERVAL_SECS,
        stored_interval(Some(interval_to_store(chosen))) >= MIN_POLL_INTERVAL_SECS,
        MIN_POLL_INTERVAL_SECS <= chosen <= u32::MAX ==> stored_interval(
            Some(interval_to_store(chosen)),
        ) == chosen,
{
}

// ---------------------------------------------------------------------------
// Showing the tray icons
// ---------------------------------------------------------------------------

/// What `str::to_lowercase` makes of a text.
pub uninterp spec fn lowercase(s: Seq<char>) -> Seq<char>;

/// `str::to_lowercase`, which maps a text to its lower case by the Unicode rules.
/// The result is named [`lowercase`].
#[verifier::external_body]
fn to_lowercase(s: &str) -> (r: String)
    ensures
        r@ == lowercase(s@),
{
    s.to_lowercase()
}

/// One entry of the list that Windows keeps of notification icons.
pub struct IconEntry {
    /// The full path of the executable that the icon belongs to, where the entry
    /// can be opened and its path be resolved.
    pub exe: Option<String>,
    /// Whether the icon is always shown.
    pub promoted: bool,
}

/// What one look at the list came to.
#[derive(Clone, Copy, PartialEq, Eq, Structural, Debug)]
pub enum PromoteOutcome {
    /// At least one icon has been set to be always shown.
    Promoted,
    /// All of them were already.
    AlreadySet,
    /// Not all of our icons have an entry yet.
    NotFound,
}

/// Whether an entry belongs to the executable at `exe`, in any mixture of cases.
pub open spec fn is_ours(entry: IconEntry, exe: Seq<char>) -> bool {
    entry.exe is Some && lowercase(entry.exe->0@) == lowercase(exe)
}

/// How many entries belong to the executable at `exe`.
pub open spec fn ours_count(entries: Seq<IconEntry>, exe: Seq<char>) -> nat
    decreases entries.len(),
{
    if entries.len() == 0 {
        0
    } else {
        ours_count(entries.drop_last(), exe) + if is_ours(entries.last(), exe) {
            1nat
        } else {
            0
        }
    }
}

/// Whether `i` is the place of an entry of ours that has to be set.
pub open spec fn to_promote(entries: Seq<IconEntry>, exe: Seq<char>, i: int) -> bool {
    0 <= i < entries.len() && is_ours(entries[i], exe) && !entries[i].promoted
}

/// The places of the entries that have to be set, in order.
pub open spec fn places_to_promote(entries: Seq<IconEntry>, exe: Seq<char>) -> Seq<usize>
    decreases entries.len(),
{
    if entries.len() == 0 {
        Seq::empty()
    } else {
        let before = places_to_promote(entries.drop_last(), exe);
        if is_ours(entries.last(), exe) && !entries.last().promoted {
            before.push((entries.len() - 1) as usize)
        } else {
            before
        }
    }
}

/// What one look at the list comes to, for a number of icons that are expected.
pub open spec fn promote_outcome(
    entries: Seq<IconEntry>,
    exe: Seq<char>,
    icons: u32,
) -> PromoteOutcome {
    if ours_count(entries, exe) < icons || ours_count(entries, exe) == 0 {
        PromoteOutcome::NotFound
    } else if places_to_promote(entries, exe).len() > 0 {
        PromoteOutcome::Promoted
    } else {
        PromoteOutcome::AlreadySet
    }
}

/// Which entries of the list have to be set so that the icons of the executable
/// at `exe` are always shown, and what that comes to. There is one entry for each
/// icon, and all of them are set, not only the first.
pub fn try_promote_tray_icon(entries: &Vec<IconEntry>, exe: &str, icons: u32) -> (r: (
    Vec<usize>,
    PromoteOutcome,
))
    ensures
        r.0@ == places_to_promote(entries@, exe@),
        r.1 == promote_outcome(entries@, exe@, icons),
{
    let current = to_lowercase(exe);
    let mut places: Vec<usize> = Vec::new();
    let mut found: usize = 0;
    let n: usize = entries.len();
    proof {
        assert(entries@.take(0) =~= Seq::<IconEntry>::empty());
    }
    for i in 0..n
        invariant
            n == entries@.len(),
            current@ == lowercase(exe@),
            found <= i,
            found == ours_count(entries@.take(i as int), exe@),
            places@ == places_to_promote(entries@.take(i as int), exe@),
    {
        proof {
            assert(entries@.take(i + 1).drop_last() =~= entries@.take(i as int));
            assert(entries@.take(i + 1).last() == entries@[i as int]);
        }
        let entry = &entries[i];
        let ours = match &entry.exe {
            Some(path) => to_lowercase(path.as_str()) == current,
            None => false,
        };
        if ours {
            found = found + 1;
            if !entry.promoted {
                places.push(i);
            }
        }
    }
    proof {
        assert(entries@.take(n as int) =~= entries@);
    }
    let outcome = if found < icons as usize || found == 0 {
        PromoteOutcome::NotFound
    } else if places.len() > 0 {
        PromoteOutcome::Promoted
    } else {
        PromoteOutcome::AlreadySet
    };
    (places, outcome)
}

/// The places that are set are those of our icons that are not shown yet: every
/// one of them, and no other.
pub proof fn every_hidden_icon_is_promoted(entries: Seq<IconEntry>, exe: Seq<char>, i: int)
    requires
        entries.len() <= usize::MAX,
        0 <= i < entries.len(),
    ensures
        places_to_promote(entries, exe).contains(i as usize) <==> to_promote(entries, exe, i),
    decreases entries.len(),
{
    let before = places_to_promote(entries.drop_last(), exe);
    let last = entries.len() - 1;
    places_are_in_range(entries.drop_last(), exe);
    if i < last {
        every_hidden_icon_is_promoted(entries.drop_last(), exe, i);
        assert(entries.drop_last()[i] == entries[i]);
        let all = places_to_promote(entries, exe);
        if before.contains(i as usize) {
            let k = choose|k: int| 0 <= k < before.len() && before[k] == i as usize;
            assert(all[k] == i as usize);
        }
        if all.contains(i as usize) {
            let k = choose|k: int| 0 <= k < all.len() && all[k] == i as usize;
            assert(k < before.len() ==> before[k] == i as usize);
            assert(before.contains(i as usize));
        }
    } else {
        let all = places_to_promote(entries, exe);
        if to_promote(entries, exe, i) {
            assert(all[before.len() as int] == i as usize);
        } else if all.contains(i as usize) {
            let k = choose|k: int| 0 <= k < all.len() && all[k] == i as usize;
            assert(before[k] == i as usize);
        }
    }
}

proof fn places_are_in_range(entries: Seq<IconEntry>, exe: Seq<char>)
    requires
        entries.len() <= usize::MAX,
    ensures
        forall|k: int|
            0 <= k < places_to_promote(entries, exe).len() ==> #[trigger] places_to_promote(
                entries,
                exe,
            )[k] < entries.len(),
    decreases entries.len(),
{
    if entries.len() > 0 {
        places_are_in_range(entries.drop_last(), exe);
        let before = places_to_promote(entries.drop_last(), exe);
        assert forall|k: int| 0 <= k < places_to_promote(entries, exe).len() implies
            #[trigger] places_to_promote(entries, exe)[k] < entries.len() by {
            if k < before.len() {
                assert(before[k] < entries.len() - 1);
            }
        }
    }
}

/// What to do after one look at the list.
#[derive(Clone, Copy, PartialEq, Eq, Structural, Debug)]
pub enum PromoteStep {
    /// The icons are always shown; there is no more to do.
    Finished,
    /// Look again after a while.
    Retry,
    /// Do not look again.
    GiveUp,
}

/// What to do after look number `attempt`. Windows writes the entries some time
/// after the icons have appeared, so looking goes on for a while where they are
/// missing. A look that failed ends it.
pub fn promote_tray_icon_async(attempt: u32, outcome: Option<PromoteOutcome>) -> (step: PromoteStep)
    ensures
        step == match outcome {
            Some(PromoteOutcome::NotFound) => if attempt < PROMOTE_MAX_ATTEMPTS {
                PromoteStep::Retry
            } else {
                PromoteStep::GiveUp
            },
            Some(_) => PromoteStep::Finished,
            None => PromoteStep::GiveUp,
        },
{
    match outcome {
        Some(PromoteOutcome::NotFound) => if attempt < PROMOTE_MAX_ATTEMPTS {
            PromoteStep::Retry
        } else {
            PromoteStep::GiveUp
        },
        Some(_) => PromoteStep::Finished,
        None => PromoteStep::GiveUp,
    }
}

// ---------------------------------------------------------------------------
// What the settings promise
// ---------------------------------------------------------------------------

/// The Run entry is the path of the executable between two quotation marks.
pub proof fn the_run_entry_quotes_the_path(exe: Seq<char>)
    ensures
        run_value(exe).len() == exe.len() + 2,
        run_value(exe)[0] == '"',
        run_value(exe).last() == '"',
        run_value(exe).subrange(1, exe.len() as int + 1) == exe,
{
    reveal_strlit("\"");
    assert(run_value(exe).subrange(1, exe.len() as int + 1) =~= exe);
}

/// Each mode is read from its own word; any other text, and none at all, reads as all rows.
pub proof fn unknown_modes_show_all_rows(s: Seq<char>)
    ensures
        stored_mode(None) == PanelMode::Both,
        stored_mode(Some("five_hour"@)) == PanelMode::FiveHourOnly,
        stored_mode(Some("weekly"@)) == PanelMode::WeeklyOnly,
        stored_mode(Some("rotating"@)) == PanelMode::Rotating,
        s != "five_hour"@ && s != "weekly"@ && s != "rotating"@ ==> stored_mode(Some(s))
            == PanelMode::Both,
        PanelMode::of_registry_text(s) is Some <==> s == "both"@ || s == "five_hour"@ || s
            == "weekly"@ || s == "rotating"@,
{
    crate::panel::registry_text_reads_back(PanelMode::FiveHourOnly);
    crate::panel::registry_text_reads_back(PanelMode::WeeklyOnly);
    crate::panel::registry_text_reads_back(PanelMode::Rotating);
}

/// A stored mode is the one that was chosen.
pub proof fn chosen_modes_read_back(mode: PanelMode)
    ensures
        stored_mode(Some(mode.registry_text())) == mode,
{
    crate::panel::registry_text_reads_back(mode);
}

/// An opacity under 20 percent counts as 20, one over 100 as 100, any other as itself, and
/// where none is stored it is 70.
pub proof fn opacities_are_brought_into_range(pct: u32)
    ensures
        pct < 20 ==> readable_opacity(pct) == 20,
        20 <= pct <= 100 ==> readable_opacity(pct) == pct,
        pct > 100 ==> readable_opacity(pct) == 100,
        stored_opacity(Some(pct)) == readable_opacity(pct),
        stored_opacity(None) == 70,
{
}

/// A poll interval under a minute counts as a minute, one that is too long to store as the
/// longest, any other as itself, and where none is stored it is five minutes.
pub proof fn intervals_are_brought_into_range(secs: u64, stored: u32)
    ensures
        secs < 60 ==> interval_to_store(secs) == 60,
        60 <= secs <= 0xffff_ffff ==> interval_to_store(secs) == secs,
        secs > 0xffff_ffff ==> interval_to_store(secs) == 0xffff_ffff,
        stored < 60 ==> stored_interval(Some(stored)) == 60,
        stored >= 60 ==> stored_interval(Some(stored)) == stored,
        stored_interval(None) == 300,
{
}

/// Coordinates that are not negative are stored as they are, and negative ones by what they
/// lack to two to the 32nd.
pub proof fn coordinates_are_stored_by_complement(c: i32, v: u32)
    ensures
        c >= 0 ==> stored_coordinate(c) == c,
        c < 0 ==> stored_coordinate(c) == 0x1_0000_0000 + c,
        v < 0x8000_0000 ==> read_coordinate(v) == v,
        v >= 0x8000_0000 ==> read_coordinate(v) == v - 0x1_0000_0000,
        stored_coordinate(read_coordinate(v)) == v,
{
}

/// An entry is ours where its path is that of the executable, whatever the case of its
/// letters; one without a path is not.
pub proof fn entries_are_ours_by_their_path(entry: IconEntry, exe: Seq<char>)
    ensures
        is_ours(entry, exe) <==> (entry.exe matches Some(path) && lowercase(path@) == lowercase(
            exe,
        )),
        entry.exe is None ==> !is_ours(entry, exe),
        entry.exe matches Some(path) ==> (path@ == exe ==> is_ours(entry, exe)),
{
}

/// An entry more at the end of the list counts where it is ours and does not where it is
/// not, and is set where it is ours and hidden; those before it count as they did.
pub proof fn the_list_is_looked_at_entry_by_entry(
    entries: Seq<IconEntry>,
    entry: IconEntry,
    exe: Seq<char>,
)
    ensures
        ({
            let ours = entry.exe is Some && lowercase(entry.exe->0@) == lowercase(exe);
            let more = entries.push(entry);
            &&& ours ==> ours_count(more, exe) == ours_count(entries, exe) + 1
            &&& !ours ==> ours_count(more, exe) == ours_count(entries, exe)
            &&& ours && !entry.promoted ==> places_to_promote(more, exe) == places_to_promote(
                entries,
                exe,
            ).push(entries.len() as usize)
            &&& !ours || entry.promoted ==> places_to_promote(more, exe) == places_to_promote(
                entries,
                exe,
            )
            &&& ours_count(Seq::<IconEntry>::empty(), exe) == 0
            &&& places_to_promote(Seq::<IconEntry>::empty(), exe) == Seq::<usize>::empty()
        }),
{
    assert(entries.push(entry).drop_last() =~= entries);
}

/// A look at the list comes to nothing where it has fewer entries of ours than there are
/// icons, or none at all; otherwise it sets those of ours that are hidden, if any is, and
/// finds all set where none is.
pub proof fn looks_come_to_what_is_found(entries: Seq<IconEntry>, exe: Seq<char>, icons: u32, i: int)
    requires
        entries.len() <= usize::MAX,
    ensures
        promote_outcome(entries, exe, icons) == PromoteOutcome::NotFound <==> ours_count(
            entries,
            exe,
        ) < icons || ours_count(entries, exe) == 0,
        promote_outcome(entries, exe, icons) == PromoteOutcome::AlreadySet && 0 <= i < entries.len()
            && is_ours(entries[i], exe) ==> entries[i].promoted,
        promote_outcome(entries, exe, icons) == PromoteOutcome::Promoted ==> {
            let first = places_to_promote(entries, exe)[0] as int;
            0 <= first < entries.len() && is_ours(entries[first], exe) && !entries[first].promoted
        },
{
    if 0 <= i < entries.len() {
        every_hidden_icon_is_promoted(entries, exe, i);
    }
    let places = places_to_promote(entries, exe);
    if places.len() > 0 {
        places_are_in_range(entries, exe);
        let first = places[0];
        assert(first < entries.len());
        every_hidden_icon_is_promoted(entries, exe, first as int);
        assert(places.contains(first));
    }
}

/// The places that are set are told once each, in the order of the list.
pub proof fn places_are_told_in_order(entries: Seq<IconEntry>, exe: Seq<char>, j: int, k: int)
    requires
        entries.len() <= usize::MAX,
        0 <= j < k < places_to_promote(entries, exe).len(),
    ensures
        places_to_promote(entries, exe)[j] < places_to_promote(entries, exe)[k],
    decreases entries.len(),
{
    let before = places_to_promote(entries.drop_last(), exe);
    places_are_in_range(entries.drop_last(), exe);
    if k < before.len() {
        places_are_told_in_order(entries.drop_last(), exe, j, k);
    } else {
        assert(before[j] < entries.len() - 1);
    }
}

} // verus!
