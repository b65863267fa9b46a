//! The system clock.

use vstd::prelude::*;

verus! {

/// Reads the current time with `chrono::Utc::now` and hands it back as
/// `DateTime::timestamp_micros` gives it: microseconds since the Unix epoch.
/// The value depends on the machine's clock, so nothing is claimed of it.
/// `Utc::now` panics on a machine whose clock stands before 1970.
#[verifier::external_body]
pub(crate) fn current_timestamp() -> (micros: i64) {
    chrono::Utc::now().timestamp_micros()
}

} // verus!
