//! The time at which a record is indexed.

use vstd::prelude::*;

verus! {

/// Calls `chrono::Utc::now` and `DateTime::timestamp_millis`: the
/// milliseconds since the Unix epoch on this machine's clock. Nothing is
/// claimed of the result, which differs from call to call.
#[verifier::external_body]
pub(crate) fn now_millis() -> i64 {
    chrono::Utc::now().timestamp_millis()
}

} // verus!
