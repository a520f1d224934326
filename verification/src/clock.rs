//! The wall clock, read at broadcast time. The envelope carries this
//! reading, not the store's persistence timestamp.

use vstd::prelude::*;

verus! {

/// Relies on chrono::Utc::now and chrono::DateTime::to_rfc3339: the
/// current wall-clock time, rendered as an RFC 3339 timestamp. The
/// result depends on the clock, so nothing is promised of it; every
/// function that takes the reading is verified for all values of it.
/// Chrono's own guard panics if the system clock reads before the Unix
/// epoch; no argument can exclude that, as it depends on the machine
/// alone.
#[verifier::external_body]
pub fn now_rfc3339() -> String {
    chrono::Utc::now().to_rfc3339()
}

} // verus!
