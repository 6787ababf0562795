//! The one place the library reads the wall clock. Everything downstream
//! takes the reading as a plain value, so expiry logic is verified for
//! every possible clock value.

use vstd::prelude::*;

verus! {

/// Relies on `chrono::Utc::now`: the current wall-clock time, read as
/// milliseconds since the Unix epoch. Nothing is promised of the value;
/// callers state what holds for every reading.
#[verifier::external_body]
pub(crate) fn now_millis() -> i64 {
    chrono::Utc::now().timestamp_millis()
}

} // verus!
