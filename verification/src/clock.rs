use vstd::prelude::*;

verus! {

/// Relies on std::time::SystemTime::elapsed, called on UNIX_EPOCH: the whole
/// seconds elapsed since the Unix epoch, or nothing when the system clock
/// reads earlier than the epoch. The value depends on the clock, so nothing
/// is promised of it; callers state what holds of every outcome.
#[verifier::external_body]
pub(crate) fn unix_time_now() -> (r: Option<u64>) {
    match std::time::UNIX_EPOCH.elapsed() {
        Ok(elapsed) => Some(elapsed.as_secs()),
        Err(_) => None,
    }
}

} // verus!
