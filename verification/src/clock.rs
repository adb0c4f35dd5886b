//! The wall clock, an ambient input the library never reasons from.

use vstd::prelude::*;

verus! {

/// Relies on chrono::Utc::now and chrono::DateTime::timestamp: the current
/// wall-clock time as Unix seconds. Nothing is promised of the value; no
/// contract in this crate depends on what the clock returns.
#[verifier::external_body]
pub(crate) fn now_timestamp() -> i64 {
    chrono::Utc::now().timestamp()
}

} // verus!
