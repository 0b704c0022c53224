//! A reverse proxy core with automatic failover between a primary and a
//! backup upstream: the hysteresis state machine that decides which upstream
//! is active, the request-forwarding plan (target resolution and hop-by-hop
//! header filtering), the incident-notification payloads, and the size parser
//! for the configured body limit.

pub mod forward;
pub mod health;
pub mod notify;
pub mod size;
pub mod text;

use vstd::prelude::*;

verus! {

/// The immutable pair of upstream base URLs, configured once at startup.
#[derive(Clone, Debug)]
pub struct UpstreamTarget {
    pub primary: String,
    pub backup: String,
}

impl UpstreamTarget {
    /// The base URL of the upstream that traffic is currently routed to:
    /// the primary while it is considered healthy, the backup otherwise.
    pub fn active(&self, primary_healthy: bool) -> (r: &str)
        ensures
            r@ == if primary_healthy {
                self.primary@
            } else {
                self.backup@
            },
    {
        if primary_healthy {
            self.primary.as_str()
        } else {
            self.backup.as_str()
        }
    }
}

} // verus!
