//! A point-in-time copy of the system counters that the built-in modules
//! report.

use vstd::prelude::*;

verus! {

/// One mounted file system.
#[derive(Debug, Clone, PartialEq, Eq)]
pub struct DiskInfo {
    pub mount_point: String,
    pub total_bytes: u64,
    pub available_bytes: u64,
}

/// The traffic counters of one network interface.
#[derive(Debug, Clone, PartialEq, Eq)]
pub struct NetworkInfo {
    pub interface: String,
    pub rx_bytes: u64,
    pub tx_bytes: u64,
}

/// An instant with the UTC offset in force there.
#[derive(Debug, Clone, Copy, PartialEq, Eq, Structural)]
pub struct LocalTime {
    pub unix_seconds: i64,
    pub nanos: u32,
    pub utc_offset_seconds: i32,
}

/// The counters of one refresh. CPU use is in tenths of a percent.
#[derive(Debug, Clone, PartialEq, Eq)]
pub struct MetricsSnapshot {
    pub cpu_usage_tenths: u32,
    pub cpu_per_core_tenths: Vec<u32>,
    pub mem_used: u64,
    pub mem_total: u64,
    pub swap_used: u64,
    pub swap_total: u64,
    pub disks: Vec<DiskInfo>,
    pub networks: Vec<NetworkInfo>,
    pub hostname: String,
    pub uptime_seconds: u64,
    pub os_name: Option<String>,
    pub kernel_version: Option<String>,
    pub local_time: LocalTime,
}

} // verus!
