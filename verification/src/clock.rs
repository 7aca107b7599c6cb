//! The wall clock, read only where the core stamps a record with the time.
use vstd::prelude::*;

verus! {

/// Milliseconds since the Unix epoch by `SystemTime::now`, or 0 for a clock
/// set before the epoch; nothing is stated of the value, which depends on
/// the machine's clock.
#[verifier::external_body]
pub(crate) fn unix_millis_now() -> i64 {
    std::time::SystemTime::now().duration_since(std::time::UNIX_EPOCH).unwrap_or_default().as_millis() as i64
}

} // verus!
