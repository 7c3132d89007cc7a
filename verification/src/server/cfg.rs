//! Settings of the HTTP listener.

use vstd::prelude::*;

verus! {

/// Where the service listens and how long it waits on shutdown.
pub struct Config {
    pub addr: String,
    /// Seconds granted to requests in flight when the service stops.
    pub shutdown_timeout: u64,
}

} // verus!
