//! Stand-in countdown for callers that opt out of bounding a wait.

use vstd::prelude::*;

use crate::io::Countdown;

verus! {

/// Empty struct to satisfy the timer type parameter when passing `None`
/// for the timeout: with no bound the read loop never consults the timer.
/// Its countdown reports expiry at once, so that pairing it with a bound
/// by mistake ends the read immediately instead of hanging.
pub struct NoTimeout;

impl Countdown for NoTimeout {
    type Time = ();

    fn start(&mut self, count: ()) {
    }

    fn wait(&mut self) -> (expired: bool)
        ensures
            expired,
    {
        true
    }
}

} // verus!
