//! The metrics that the agent collects and pushes.
//!
//! `F` stands for a floating point number, which this crate only carries.

use vstd::prelude::*;

verus! {

/// Structured metrics collected by the agent.
#[derive(Debug, Clone)]
pub struct MetricsPayload<F> {
    pub hostname: String,
    pub os: OsInfo,
    pub uptime_secs: u64,
    pub cpu: CpuMetrics<F>,
    pub memory: MemoryMetrics,
    pub disks: Vec<DiskMetrics<F>>,
    pub network: NetworkMetrics<F>,
    pub gpu: Option<GpuMetrics<F>>,
    pub docker: Option<DockerMetrics>,
}

#[derive(Debug, Clone)]
pub struct OsInfo {
    pub name: String,
    pub version: String,
    pub kernel: String,
    pub arch: String,
}

#[derive(Debug, Clone)]
pub struct CpuMetrics<F> {
    pub model: String,
    pub cores: u32,
    pub usage_percent: F,
    pub temperature_celsius: Option<F>,
    pub mhz: F,
}

#[derive(Debug, Clone)]
pub struct MemoryMetrics {
    pub total_mb: u64,
    pub used_mb: u64,
    pub available_mb: u64,
    pub swap_total_mb: u64,
    pub swap_used_mb: u64,
    pub speed_mhz: Option<u64>,
}

#[derive(Debug, Clone)]
pub struct DiskMetrics<F> {
    pub mount: String,
    pub filesystem: String,
    pub total_gb: F,
    pub used_gb: F,
    pub available_gb: F,
    pub usage_percent: F,
    pub device: String,
}

#[derive(Debug, Clone)]
pub struct NetworkMetrics<F> {
    /// Primary network interface name (e.g. "eth0", "ens3")
    pub interface: String,
    /// Download rate in bytes per second (computed delta between snapshots)
    pub rx_bytes_per_sec: u64,
    /// Upload rate in bytes per second (computed delta between snapshots)
    pub tx_bytes_per_sec: u64,
    /// Total bytes received since boot (cumulative)
    pub rx_total_bytes: u64,
    /// Total bytes transmitted since boot (cumulative)
    pub tx_total_bytes: u64,
    pub latency_ms: F,
}

#[derive(Debug, Clone)]
pub struct GpuMetrics<F> {
    pub name: String,
    pub memory_total_mb: u64,
    pub memory_used_mb: u64,
    pub usage_percent: F,
    pub temperature_celsius: F,
}

#[derive(Debug, Clone)]
pub struct DockerMetrics {
    pub installed: bool,
    pub version: String,
    pub containers_total: u32,
    pub containers_running: u32,
}

/// Request to collect metrics (no params needed).
#[derive(Debug, Clone)]
pub struct MetricsCollectRequest {}

/// Wrapper for metrics push notification from agent (single snapshot, legacy).
#[derive(Debug, Clone)]
pub struct MetricsPushNotification<F> {
    pub server_id: String,
    pub metrics: MetricsPayload<F>,
    pub timestamp: String,
}

/// A single timestamped metrics data point within a batch.
#[derive(Debug, Clone)]
pub struct MetricsDataPoint<F> {
    pub metrics: MetricsPayload<F>,
    pub timestamp: String,
}

/// Batch metrics push notification from agent.
///
/// Sent every `push_interval_secs` containing the latest unsent data points.
/// On reconnect, `is_backfill = true` signals that the data is historical
/// and the backend should use the provided timestamps rather than `now()`.
#[derive(Debug, Clone)]
pub struct MetricsBatchPushNotification<F> {
    pub server_id: String,
    pub data_points: Vec<MetricsDataPoint<F>>,
    pub is_backfill: bool,
}

} // verus!
