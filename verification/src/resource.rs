//! Shared resource state of a server: identity, usage snapshot and services.
use vstd::prelude::*;

verus! {

/// What a server is.
#[derive(Debug, Clone, PartialEq, Eq)]
pub struct ServerIdentity {
    pub hostname: String,
    pub os: String,
    pub kernel: String,
    pub uptime_seconds: u64,
}

/// Resource usage of a server at one moment.
#[derive(Debug, Clone, PartialEq, Eq, Structural)]
pub struct ResourceSnapshot {
    pub cpu_percent: u8,
    pub memory_percent: u8,
    pub disk_percent: u8,
    pub network_rx_bytes: u64,
    pub network_tx_bytes: u64,
    pub gpu_count: u32,
}

impl Default for ResourceSnapshot {
    /// A snapshot with every figure zero.
    fn default() -> (snapshot: Self)
        ensures
            snapshot == (ResourceSnapshot {
                cpu_percent: 0,
                memory_percent: 0,
                disk_percent: 0,
                network_rx_bytes: 0,
                network_tx_bytes: 0,
                gpu_count: 0,
            }),
    {
        ResourceSnapshot {
            cpu_percent: 0,
            memory_percent: 0,
            disk_percent: 0,
            network_rx_bytes: 0,
            network_tx_bytes: 0,
            gpu_count: 0,
        }
    }
}

/// State of a service on a server.
#[derive(Debug, Clone, PartialEq, Eq)]
pub struct ServiceState {
    pub name: String,
    pub active: bool,
    pub status: String,
}

} // verus!
