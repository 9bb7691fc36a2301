//! The wall clock: whole seconds since the Unix epoch, or nothing when the
//! system clock cannot give them.
use vstd::prelude::*;

verus! {

/// Calls `std::time::UNIX_EPOCH.elapsed()`: how long ago the Unix epoch was by
/// the system clock, converted to whole seconds. The call returns an error
/// where the clock reads earlier than the epoch; that comes back as `None`.
/// Nothing is claimed of the value: it depends on the clock.
#[verifier::external_body]
fn seconds_since_epoch() -> (r: Option<u64>) {
    match std::time::UNIX_EPOCH.elapsed() {
        Ok(d) => Some(d.as_secs()),
        Err(_) => None,
    }
}

/// The current Unix time in whole seconds, when the system clock reads at or
/// after the epoch and the count fits an `i64`.
pub(crate) fn unix_now() -> (r: Option<i64>)
    ensures
        r matches Some(t) ==> t >= 0,
{
    match seconds_since_epoch() {
        Some(s) => if s <= 9223372036854775807u64 {
            Some(s as i64)
        } else {
            None
        },
        None => None,
    }
}

} // verus!
