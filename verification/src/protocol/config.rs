//! Defaults of the cloud runtime.
use vstd::prelude::*;

verus! {

/// Connection counts and times, in milliseconds, of the cloud runtime.
#[derive(Debug, Clone, Copy, PartialEq, Eq, Structural)]
pub struct CloudRuntimeDefaults {
    pub mysql_max_connections: u32,
    pub thread_writer_lease_ttl_ms: u64,
    pub thread_writer_lease_renew_interval_ms: u64,
    pub owner_lease_ttl_ms: u64,
    pub owner_lease_heartbeat_ms: u64,
    pub turn_timeout_ms: u64,
    pub request_timeout_ms: u64,
}

impl Default for CloudRuntimeDefaults {
    fn default() -> (r: Self)
        ensures
            r.mysql_max_connections == 20,
            r.thread_writer_lease_ttl_ms == 30_000,
            r.thread_writer_lease_renew_interval_ms == 2_000,
            r.owner_lease_ttl_ms == 180_000,
            r.owner_lease_heartbeat_ms == 2_000,
            r.turn_timeout_ms == 1_800_000,
            r.request_timeout_ms == 60_000,
            r.renews_before_expiry(),
    {
        CloudRuntimeDefaults {
            mysql_max_connections: 20,
            thread_writer_lease_ttl_ms: 30_000,
            thread_writer_lease_renew_interval_ms: 2_000,
            owner_lease_ttl_ms: 180_000,
            owner_lease_heartbeat_ms: 2_000,
            turn_timeout_ms: 1_800_000,
            request_timeout_ms: 60_000,
        }
    }
}

impl CloudRuntimeDefaults {
    /// Both leases are renewed well before they expire.
    pub open spec fn renews_before_expiry(self) -> bool {
        self.thread_writer_lease_renew_interval_ms < self.thread_writer_lease_ttl_ms
            && self.owner_lease_heartbeat_ms < self.owner_lease_ttl_ms
    }
}

} // verus!
