//! What the library asks of the operating system.

use vstd::prelude::*;

verus! {

/// The calling thread's current OS error code, read with `errno::errno`.
///
/// The value is whatever the last failing system or library call left behind,
/// so nothing is claimed of it.
#[verifier::external_body]
pub(crate) fn last_os_error() -> (code: i32) {
    errno::errno().0
}

} // verus!
