//! The balloon notification: its texts, and the steps that show it.

use crate::text::{utf16, wide_null};
use vstd::prelude::*;
use vstd::string::*;

verus! {

/// How long the balloon's icon stays, in seconds.
pub const BALLOON_LIFETIME_SECS: u64 = 8;

/// What a fixed buffer holds after a text has been copied into it: as much of the
/// text and its terminating NUL as fits, and behind that what it held before. Where
/// the text does not fit, the last unit is the NUL.
pub open spec fn copied(before: Seq<u16>, s: Seq<char>) -> Seq<u16> {
    let wide = utf16(s).push(0);
    Seq::new(
        before.len(),
        |i: int|
            if i == before.len() - 1 && wide.len() >= before.len() {
                0u16
            } else if i < wide.len() {
                wide[i]
            } else {
                before[i]
            },
    )
}

/// Copies as much of a text as fits into a fixed buffer, with a terminating NUL.
pub fn copy_wide_into(dest: &mut [u16], s: &str)
    ensures
        final(dest)@ == copied(old(dest)@, s@),
{
    let wide = wide_null(s);
    let len: usize = dest.len();
    let n: usize = if wide.len() < len {
        wide.len()
    } else {
        len
    };
    let ghost before = dest@;
    let mut i: usize = 0;
    while i < n
        invariant
            i <= n <= len,
            n <= wide@.len(),
            dest@.len() == len,
            before.len() == len,
            forall|j: int|
                0 <= j < len ==> #[trigger] dest@[j] == if j < i {
                    wide@[j]
                } else {
                    before[j]
                },
        decreases n - i,
    {
        dest[i] = wide[i];
        i = i + 1;
    }
    if n == len && n > 0 {
        dest[n - 1] = 0;
    }
    proof {
        assert(dest@ =~= copied(before, s@));
    }
}

/// Whatever the text, a buffer that is not empty holds a NUL after the copy.
pub proof fn copies_are_terminated(before: Seq<u16>, s: Seq<char>)
    requires
        before.len() > 0,
    ensures
        copied(before, s).len() == before.len(),
        exists|i: int| 0 <= i < copied(before, s).len() && copied(before, s)[i] == 0,
{
    let wide = utf16(s).push(0);
    if wide.len() >= before.len() {
        assert(copied(before, s)[before.len() - 1] == 0);
    } else {
        assert(copied(before, s)[wide.len() - 1] == 0);
    }
}

/// A text that fits is copied whole, with its NUL.
pub proof fn short_texts_are_copied_whole(before: Seq<u16>, s: Seq<char>)
    requires
        utf16(s).len() < before.len(),
    ensures
        copied(before, s).take((utf16(s).len() + 1) as int) == utf16(s).push(0),
{
    assert(copied(before, s).take((utf16(s).len() + 1) as int) =~= utf16(s).push(0));
}

/// A step on the way to showing a balloon.
#[derive(Clone, Copy, PartialEq, Eq, Structural, Debug)]
pub enum BalloonStep {
    /// Create the window that the icon belongs to.
    CreateWindow,
    /// Add the icon with the texts.
    AddIcon,
    /// Leave it for [`BALLOON_LIFETIME_SECS`].
    Linger,
    /// Remove the icon.
    RemoveIcon,
    /// Destroy the window.
    DestroyWindow,
    /// There is no more to do.
    Finished,
}

/// The step after one that did or did not succeed.
pub open spec fn step_after(step: BalloonStep, ok: bool) -> BalloonStep {
    match step {
        BalloonStep::CreateWindow => if ok {
            BalloonStep::AddIcon
        } else {
            BalloonStep::Finished
        },
        BalloonStep::AddIcon => if ok {
            BalloonStep::Linger
        } else {
            BalloonStep::DestroyWindow
        },
        BalloonStep::Linger => BalloonStep::RemoveIcon,
        BalloonStep::RemoveIcon => BalloonStep::DestroyWindow,
        BalloonStep::DestroyWindow => BalloonStep::Finished,
        BalloonStep::Finished => BalloonStep::Finished,
    }
}

/// The step after one that did or did not succeed. Without a window there is
/// nothing to show; a window without an icon is destroyed at once.
pub fn show_balloon(step: BalloonStep, ok: bool) -> (next: BalloonStep)
    ensures
        next == step_after(step, ok),
{
    match step {
        BalloonStep::CreateWindow => if ok {
            BalloonStep::AddIcon
        } else {
            BalloonStep::Finished
        },
        BalloonStep::AddIcon => if ok {
            BalloonStep::Linger
        } else {
            BalloonStep::DestroyWindow
        },
        BalloonStep::Linger => BalloonStep::RemoveIcon,
        BalloonStep::RemoveIcon => BalloonStep::DestroyWindow,
        BalloonStep::DestroyWindow => BalloonStep::Finished,
        BalloonStep::Finished => BalloonStep::Finished,
    }
}

/// What is set up is taken down again, whatever fails: an icon that was added is
/// removed, and a window that was created is destroyed, each exactly once, the
/// window last.
pub proof fn balloons_leave_nothing_behind(a: bool, b: bool, c: bool)
    ensures
        step_after(BalloonStep::CreateWindow, false) == BalloonStep::Finished,
        step_after(BalloonStep::CreateWindow, true) == BalloonStep::AddIcon,
        step_after(BalloonStep::AddIcon, false) == BalloonStep::DestroyWindow,
        step_after(step_after(BalloonStep::AddIcon, true), a) == BalloonStep::RemoveIcon,
        step_after(BalloonStep::RemoveIcon, b) == BalloonStep::DestroyWindow,
        step_after(BalloonStep::DestroyWindow, c) == BalloonStep::Finished,
{
}

/// A copy holds the beginning of the text, as far as it fits before the last unit, then the
/// NUL, and behind that what the buffer held before.
pub proof fn copies_hold_the_beginning_of_the_text(before: Seq<u16>, s: Seq<char>, i: int)
    requires
        0 <= i < before.len(),
    ensures
        copied(before, s).len() == before.len(),
        i < utf16(s).len() && i < before.len() - 1 ==> copied(before, s)[i] == utf16(s)[i],
        i == utf16(s).len() ==> copied(before, s)[i] == 0,
        i == before.len() - 1 && i < utf16(s).len() ==> copied(before, s)[i] == 0,
        i > utf16(s).len() ==> copied(before, s)[i] == before[i],
{
}

/// The steps follow each other whatever comes of those that cannot be helped: only making
/// the window and adding the icon decide where it goes on.
pub proof fn balloons_go_step_by_step(ok: bool)
    ensures
        step_after(BalloonStep::CreateWindow, ok) == if ok {
            BalloonStep::AddIcon
        } else {
            BalloonStep::Finished
        },
        step_after(BalloonStep::AddIcon, ok) == if ok {
            BalloonStep::Linger
        } else {
            BalloonStep::DestroyWindow
        },
        step_after(BalloonStep::Linger, ok) == BalloonStep::RemoveIcon,
        step_after(BalloonStep::RemoveIcon, ok) == BalloonStep::DestroyWindow,
        step_after(BalloonStep::DestroyWindow, ok) == BalloonStep::Finished,
        step_after(BalloonStep::Finished, ok) == BalloonStep::Finished,
{
}

} // verus!
