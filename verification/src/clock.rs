use vstd::prelude::*;

verus! {

/// Reads the system clock with `chrono::Utc::now` and gives its Unix timestamp
/// in seconds. Nothing is claimed of the value: it differs from call to call.
/// `chrono` gives up on a system clock that stands before 1970.
#[verifier::external_body]
pub(crate) fn unix_now() -> i64 {
    chrono::Utc::now().timestamp()
}

} // verus!
