//! The clock.

use vstd::prelude::*;

verus! {

/// `chrono::Local::now().timestamp_millis()`: the milliseconds since the
/// beginning of 1970, by the system clock. Nothing is claimed of the
/// result: it is whatever the clock says.
#[verifier::external_body]
pub(crate) fn now_millis() -> (now: i64) {
    chrono::Local::now().timestamp_millis()
}

} // verus!
