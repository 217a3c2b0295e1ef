//! The wall clock used for the step summary's timing fields.

use vstd::prelude::*;

verus! {

/// Relies on std::time::SystemTime::now and duration_since(UNIX_EPOCH): the
/// current wall-clock time, in microseconds since the Unix epoch, or zero if
/// the clock reads as earlier than the epoch.  The reading is
/// nondeterministic, so nothing is promised of it; callers only ever report
/// differences of two readings as timing metadata.
#[verifier::external_body]
pub fn wall_clock_micros() -> u64 {
    std::time::SystemTime::now()
        .duration_since(std::time::UNIX_EPOCH)
        .map(|d| d.as_micros() as u64)
        .unwrap_or(0)
}

} // verus!
