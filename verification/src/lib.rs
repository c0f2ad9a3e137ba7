pub mod client;
pub mod codec;
pub mod decfmt;
pub mod httptext;
pub mod record;
pub mod replicate;
pub mod wire;

use vstd::prelude::*;

verus! {

/// Width cap on a single range request: the remote archive refuses to
/// enumerate arbitrarily large ranges in one call.
pub const MAX_WINDOW: i64 = 1000;

/// Frontier of the remote archive: the highest id it knows at query time.
#[derive(Debug)]
pub struct WebStat {
    pub max_wid: i64,
}

impl WebStat {
    /// The exclusive upper bound of ids reachable this cycle: the frontier's
    /// `max_wid` is itself inclusive.
    pub fn target_bound(&self) -> (r: i64)
        requires
            self.max_wid < i64::MAX,
        ensures
            r == self.max_wid + 1,
    {
        self.max_wid + 1
    }
}

} // verus!
