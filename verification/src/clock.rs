//! The one place the library asks for the current time.

use vstd::prelude::*;

verus! {

/// Relies on `chrono::Utc::now`: the current UTC time, taken to whole
/// seconds since the Unix epoch. Nothing can be promised of a clock
/// reading, so callers state what holds whatever value comes back.
#[verifier::external_body]
pub(crate) fn now_unix_seconds() -> i64 {
    chrono::Utc::now().timestamp()
}

} // verus!
