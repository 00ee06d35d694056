//! The wall clock, read through the `chrono` crate.

use vstd::prelude::*;

verus! {

/// `chrono::Utc::now` followed by `to_rfc3339`. Nothing is assumed of the
/// string that comes back: it depends on when the call is made.
#[verifier::external_body]
pub(crate) fn now_rfc3339() -> String {
    chrono::Utc::now().to_rfc3339()
}

} // verus!
