use vstd::prelude::*;

verus! {

/// Settings of the refresh and fetch cycle.
pub struct Config;

impl Config {
    /// Refresh the data periodically.
    pub const ENABLE_AUTO_REFRESH: bool = true;

    /// Time between refreshes, in milliseconds (ten minutes).
    pub const POLLING_INTERVAL_MS: u32 = 600_000;

    /// Pause between the pages of one fetch, in milliseconds.
    pub const PAGINATION_DELAY_MS: u32 = 5;

    /// Attempts at one request while the service answers 429.
    pub const MAX_RETRY_ATTEMPTS: u32 = 10;
}

} // verus!
