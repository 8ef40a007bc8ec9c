//! Whether this is the only copy of the widget that runs.

use vstd::prelude::*;

verus! {

/// The name of the mutex that the running copy holds, across all sessions.
pub const MUTEX_NAME: &'static str = "Global\\ClaudeUsageWidget_SingleInstance";

/// The error code that the mutex existed already.
pub const ERROR_ALREADY_EXISTS: u32 = 183;

/// How a copy goes on.
#[derive(Clone, Copy, PartialEq, Eq, Structural, Debug)]
pub enum Guard {
    /// It holds the mutex.
    Held,
    /// The mutex could not be made, so it goes on without one.
    Unguarded,
}

/// How a copy goes on after it has asked for the mutex: it does not start where
/// another holds it, and a mutex that cannot be made at all does not keep it from
/// starting.
pub fn acquire(has_handle: bool, last_error: u32) -> (r: Result<Guard, ()>)
    ensures
        !has_handle ==> r == Ok::<Guard, ()>(Guard::Unguarded),
        has_handle && last_error == ERROR_ALREADY_EXISTS ==> r == Err::<Guard, ()>(()),
        has_handle && last_error != ERROR_ALREADY_EXISTS ==> r == Ok::<Guard, ()>(Guard::Held),
{
    if !has_handle {
        Ok(Guard::Unguarded)
    } else if last_error == ERROR_ALREADY_EXISTS {
        Err(())
    } else {
        Ok(Guard::Held)
    }
}

} // verus!
