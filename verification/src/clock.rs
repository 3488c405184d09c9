//! The system clock.

use vstd::prelude::*;

verus! {

/// Seconds since the Unix epoch (zero for a clock set before it).
///
/// Trusted: `std::time::SystemTime::now` and `duration_since(UNIX_EPOCH)`,
/// read as whole seconds. Nothing is claimed of the value: it is the time.
#[verifier::external_body]
pub(crate) fn now_secs() -> u64 {
    std::time::SystemTime::now()
        .duration_since(std::time::UNIX_EPOCH)
        .unwrap_or_default()
        .as_secs()
}

} // verus!
