//! The wall clock.

use vstd::prelude::*;

verus! {

/// The current UTC time in RFC 3339 form, from `chrono::Utc::now` and
/// `DateTime::to_rfc3339`. The value depends on the time, so nothing is
/// stated of it.
#[verifier::external_body]
pub fn now_rfc3339() -> String {
    chrono::Utc::now().to_rfc3339()
}

} // verus!
