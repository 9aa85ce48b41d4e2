use vstd::prelude::*;

verus! {

/// Number of seconds in one day.
pub const SECONDS_IN_A_DAY: i64 = 86400;

/// Second of the UTC day at which the US equity market opens (14:30 UTC).
pub const MARKET_OPEN_TIME: i64 = 52200;

/// Second of the UTC day at which the US equity market closes (21:00 UTC).
pub const MARKET_CLOSE_TIME: i64 = 75600;

/// Length, in seconds, of the window that follows the open and the close (15 minutes).
pub const MARKET_OPEN_CLOSE_MARGIN: i64 = 900;

} // verus!
