//! The metric data model and the metric source capability interface.
//!
//! A metric source is implemented per operating system by the caller;
//! each category query returns either a populated sample or `None` for
//! "unavailable". Everything a source hands over is a plain value:
//! counts, byte totals, and fixed-point readings (tenths for
//! percentages and degrees, hundredths for load averages), so the
//! aggregation over them can be verified.

use vstd::prelude::*;

use crate::classify::RawTemperature;

verus! {

/// A load average triple, in hundredths.
#[derive(Clone, Copy, Debug, PartialEq, Eq, Structural)]
pub struct LoadAverage {
    pub one_centi: u64,
    pub five_centi: u64,
    pub fifteen_centi: u64,
}

/// One CPU readout: per-core usage in tenths of a percent, per-core
/// frequency, identification, and the load average.
#[derive(Clone, Debug, PartialEq, Eq)]
pub struct CpuSample {
    pub usage_deci: Vec<u32>,
    pub frequency_mhz: Vec<u64>,
    pub brand: String,
    pub vendor_id: String,
    pub physical_cores: usize,
    pub load_avg: LoadAverage,
}

/// One memory readout, all in bytes.
#[derive(Clone, Copy, Debug, PartialEq, Eq, Structural)]
pub struct MemorySample {
    pub total: u64,
    pub used: u64,
    pub free: u64,
    pub available: u64,
    pub swap_total: u64,
    pub swap_used: u64,
    pub swap_free: u64,
}

/// One mounted disk as a source reports it.
#[derive(Clone, Debug, PartialEq, Eq)]
pub struct DiskSample {
    pub name: String,
    pub mount_point: String,
    pub total_space: u64,
    pub available_space: u64,
}

/// One mounted disk in the snapshot, with its usage in tenths of a
/// percent of the total space.
#[derive(Clone, Debug, PartialEq, Eq)]
pub struct DiskInfo {
    pub name: String,
    pub mount_point: String,
    pub total_space: u64,
    pub available_space: u64,
    pub usage_permille: u64,
}

/// One block device's raw transfer counters, in sectors and
/// milliseconds.
#[derive(Clone, Debug, PartialEq, Eq)]
pub struct DiskIoSample {
    pub device: String,
    pub reads: u64,
    pub writes: u64,
    pub sectors_read: u64,
    pub sectors_written: u64,
    pub time_reading: u64,
    pub time_writing: u64,
    pub time_in_progress: u64,
}

/// One block device's transfer statistics in the snapshot, in bytes.
#[derive(Clone, Debug, PartialEq, Eq)]
pub struct DiskIoStats {
    pub device: String,
    pub reads: u64,
    pub writes: u64,
    pub read_bytes: u64,
    pub write_bytes: u64,
    pub read_time: u64,
    pub write_time: u64,
    pub io_in_progress: u64,
}

/// The host's identification strings and clocks.
#[derive(Clone, Debug, PartialEq, Eq)]
pub struct SystemIdentity {
    pub name: Option<String>,
    pub kernel_version: Option<String>,
    pub os_version: Option<String>,
    pub host_name: Option<String>,
    pub boot_time: u64,
    pub uptime: u64,
}

/// The scheduling state of one process.
#[derive(Clone, Copy, Debug, PartialEq, Eq, Structural)]
pub enum ProcState {
    Run,
    Sleep,
    Zombie,
    Stop,
    Other,
}

/// One process: its state, CPU usage in tenths of a percent, and
/// memory in bytes.
#[derive(Clone, Copy, Debug, PartialEq, Eq, Structural)]
pub struct ProcessSample {
    pub state: ProcState,
    pub cpu_deci: u64,
    pub memory: u64,
}

/// Process population counters in the snapshot.
#[derive(Clone, Copy, Debug, PartialEq, Eq, Structural)]
pub struct ProcessStats {
    pub zombie_count: usize,
    pub sleeping_count: usize,
    pub blocked_count: usize,
    pub total_cpu_deci: u64,
    pub total_memory_usage: u64,
}

/// One network interface's counters as a source reports them.
#[derive(Clone, Debug, PartialEq, Eq)]
pub struct NetworkSample {
    pub interface: String,
    pub received_bytes: u64,
    pub transmitted_bytes: u64,
    pub received_packets: u64,
    pub transmitted_packets: u64,
    pub mac_address: Option<String>,
}

/// One network interface in the snapshot.
#[derive(Clone, Debug, PartialEq, Eq)]
pub struct NetworkInfo {
    pub interface: String,
    pub received_bytes: u64,
    pub transmitted_bytes: u64,
    pub received_packets: u64,
    pub transmitted_packets: u64,
    pub mac_address: Option<String>,
    pub ip_addresses: Vec<String>,
}

/// One TCP socket: its local port, and whether it is listening.
#[derive(Clone, Copy, Debug, PartialEq, Eq, Structural)]
pub struct TcpSocketSample {
    pub port: u16,
    pub listening: bool,
}

/// Per-interface error and rate counters in the snapshot.
#[derive(Clone, Debug, PartialEq, Eq)]
pub struct InterfaceStats {
    pub name: String,
    pub rx_errors: u64,
    pub tx_errors: u64,
    pub rx_dropped: u64,
    pub tx_dropped: u64,
    pub rx_bytes_sec: u64,
    pub tx_bytes_sec: u64,
    pub rx_packets_sec: u64,
    pub tx_packets_sec: u64,
}

/// Connection and per-interface statistics in the snapshot.
#[derive(Clone, Debug, PartialEq, Eq)]
pub struct NetworkStats {
    pub tcp_connections: usize,
    pub udp_connections: usize,
    pub tcp_listen_ports: Vec<u16>,
    pub udp_listen_ports: Vec<u16>,
    pub interface_stats: Vec<InterfaceStats>,
}

/// The host's power state. Percentages are whole percent; consumption
/// is in milliwatts.
#[derive(Clone, Copy, Debug, PartialEq, Eq)]
pub struct PowerInfo {
    pub ac_powered: bool,
    pub battery_present: bool,
    pub battery_percentage: Option<u32>,
    pub battery_time_remaining: Option<u64>,
    pub power_consumption_mw: Option<u64>,
}

/// One GPU: identification, utilisation in whole percent, memory in
/// bytes, temperature in tenths of a degree, power in milliwatts.
#[derive(Clone, Debug, PartialEq, Eq)]
pub struct GpuInfo {
    pub vendor: String,
    pub model: String,
    pub usage_pct: u32,
    pub memory_total: u64,
    pub memory_used: u64,
    pub temperature_deci: Option<i32>,
    pub power_usage_mw: Option<u64>,
}

/// The calling process's own accounting, for the performance metrics.
#[derive(Clone, Copy, Debug, PartialEq, Eq, Structural)]
pub struct ProcSelfSample {
    pub stime_ticks: u64,
    pub utime_ticks: u64,
    pub priority: i64,
    pub num_threads: u64,
}

/// Scheduler and interrupt metrics in the snapshot. Percentages are in
/// tenths of a percent.
#[derive(Clone, Copy, Debug, PartialEq, Eq, Structural)]
pub struct PerformanceMetrics {
    pub iowait_deci: u64,
    pub steal_deci: u64,
    pub system_deci: u64,
    pub user_deci: u64,
    pub nice_value: i64,
    pub irq_deci: u64,
    pub softirq_deci: u64,
    pub cpu_queue_length: u64,
    pub context_switches: u64,
    pub interrupts: u64,
}

/// The per-platform capability set. Each query returns one category's
/// raw readout, or `None` where the platform cannot supply it; a `None`
/// never aborts a recomputation — the category is populated with its
/// defined unavailable value instead.
pub trait MetricSource {
    /// The CPU readout.
    fn cpu(&self) -> Option<CpuSample>;

    /// The memory readout.
    fn memory(&self) -> Option<MemorySample>;

    /// The mounted disks.
    fn disks(&self) -> Option<Vec<DiskSample>>;

    /// The block devices' transfer counters.
    fn disk_io(&self) -> Option<Vec<DiskIoSample>>;

    /// The host identification.
    fn identity(&self) -> Option<SystemIdentity>;

    /// Every process's state and usage.
    fn processes(&self) -> Option<Vec<ProcessSample>>;

    /// Every temperature sensor's reading.
    fn temperatures(&self) -> Option<Vec<RawTemperature>>;

    /// Every network interface's counters.
    fn networks(&self) -> Option<Vec<NetworkSample>>;

    /// Every TCP socket's port and listening state.
    fn tcp_sockets(&self) -> Option<Vec<TcpSocketSample>>;

    /// Every bound UDP socket's local port.
    fn udp_ports(&self) -> Option<Vec<u16>>;

    /// The power state.
    fn power(&self) -> Option<PowerInfo>;

    /// The calling process's own accounting.
    fn proc_self(&self) -> Option<ProcSelfSample>;

    /// The GPU, where one is present and queryable.
    fn gpu(&self) -> Option<GpuInfo>;
}

/// Disk transfer statistics for a platform without the capability: the
/// empty list, the category's unavailable value.
pub fn get_disk_io_stats() -> (stats: Vec<DiskIoStats>)
    ensures
        stats@ == Seq::<DiskIoStats>::empty(),
{
    Vec::new()
}

/// The power state reported where no platform query exists: mains
/// power, no battery.
pub fn unavailable_power() -> (power: PowerInfo)
    ensures
        power == (PowerInfo {
            ac_powered: true,
            battery_present: false,
            battery_percentage: None,
            battery_time_remaining: None,
            power_consumption_mw: None,
        }),
{
    PowerInfo {
        ac_powered: true,
        battery_present: false,
        battery_percentage: None,
        battery_time_remaining: None,
        power_consumption_mw: None,
    }
}

} // verus!
