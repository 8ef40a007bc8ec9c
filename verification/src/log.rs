//! When the log file is rotated.

use vstd::prelude::*;

verus! {

/// A log file of more bytes than this is rotated at the next start.
pub const MAX_LOG_BYTES: u64 = 1_048_576;

/// Whether a log file of so many bytes is rotated; one whose length is not known,
/// as where there is none yet, is not.
pub fn needs_rotation(len: Option<u64>) -> (b: bool)
    ensures
        b == (len matches Some(n) && n > MAX_LOG_BYTES),
{
    match len {
        Some(n) => n > MAX_LOG_BYTES,
        None => false,
    }
}

} // verus!
