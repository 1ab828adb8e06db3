use vstd::prelude::*;

verus! {

/// Time between two render ticks, in milliseconds.
pub const REFRESH_RATE_MILLIS: u64 = 1000;

/// Width of the history graph's time axis, in seconds. With one tick per
/// second this is also the number of history entries the graph can show.
pub const GRAPH_X_AXIS_WINDOW_IN_SECONDS: usize = 120;

/// How long a status message stays readable, in seconds.
pub const MESSAGE_EXPIRATION_IN_SECONDS: u64 = 10;

} // verus!
