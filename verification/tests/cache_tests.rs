use hostmon::cache::{CacheStatus, SnapshotCache, CACHE_DURATION_MS};
use hostmon::classify::{RawTemperature, TempStatus};
use hostmon::history::TempHistory;
use hostmon::metrics::{
    CpuSample, DiskIoSample, DiskSample, GpuInfo, LoadAverage, MemorySample, MetricSource,
    NetworkSample, PowerInfo, ProcSelfSample, ProcessSample, SystemIdentity, TcpSocketSample,
};

/// A source whose every category is configurable, for driving the
/// controller deterministically.
struct StubSource {
    cpu: Option<CpuSample>,
    memory: Option<MemorySample>,
    temperatures: Option<Vec<RawTemperature>>,
}

impl Default for StubSource {
    fn default() -> Self {
        StubSource {
            cpu: Some(CpuSample {
                usage_deci: vec![125, 375],
                frequency_mhz: vec![3600, 3600],
                brand: "ExampleBrand".to_string(),
                vendor_id: "ExampleVendor".to_string(),
                physical_cores: 2,
                load_avg: LoadAverage { one_centi: 52, five_centi: 41, fifteen_centi: 30 },
            }),
            memory: Some(MemorySample {
                total: 1024,
                used: 512,
                free: 256,
                available: 512,
                swap_total: 0,
                swap_used: 0,
                swap_free: 0,
            }),
            temperatures: Some(vec![
                RawTemperature { label: "CPU Package".to_string(), temp_deci: 850 },
                RawTemperature { label: "board".to_string(), temp_deci: 400 },
            ]),
        }
    }
}

impl MetricSource for StubSource {
    fn cpu(&self) -> Option<CpuSample> {
        self.cpu.clone()
    }
    fn memory(&self) -> Option<MemorySample> {
        self.memory
    }
    fn disks(&self) -> Option<Vec<DiskSample>> {
        Some(vec![DiskSample {
            name: "sda".to_string(),
            mount_point: "/".to_string(),
            total_space: 1000,
            available_space: 250,
        }])
    }
    fn disk_io(&self) -> Option<Vec<DiskIoSample>> {
        None
    }
    fn identity(&self) -> Option<SystemIdentity> {
        Some(SystemIdentity {
            name: Some("linux".to_string()),
            kernel_version: None,
            os_version: None,
            host_name: Some("box".to_string()),
            boot_time: 11,
            uptime: 22,
        })
    }
    fn processes(&self) -> Option<Vec<ProcessSample>> {
        Some(vec![ProcessSample { state: hostmon::metrics::ProcState::Run, cpu_deci: 10, memory: 7 }])
    }
    fn temperatures(&self) -> Option<Vec<RawTemperature>> {
        self.temperatures.clone()
    }
    fn networks(&self) -> Option<Vec<NetworkSample>> {
        None
    }
    fn tcp_sockets(&self) -> Option<Vec<TcpSocketSample>> {
        None
    }
    fn udp_ports(&self) -> Option<Vec<u16>> {
        None
    }
    fn power(&self) -> Option<PowerInfo> {
        None
    }
    fn proc_self(&self) -> Option<ProcSelfSample> {
        None
    }
    fn gpu(&self) -> Option<GpuInfo> {
        None
    }
}

#[test]
fn window_constant() {
    assert_eq!(CACHE_DURATION_MS, 1000);
}

#[test]
fn first_request_misses_and_fills_cache() {
    let mut cache = SnapshotCache::new();
    let mut history = TempHistory::new();
    let source = StubSource::default();
    let status = cache.get_snapshot(1_000, &source, &mut history);
    assert_eq!(status, CacheStatus::Miss);
    let snap = cache.cached_snapshot();
    assert_eq!(snap.timestamp_ms, 1_000);
    assert_eq!(snap.cpu_usage_deci, vec![125, 375]);
    assert_eq!(snap.cpu_cores, 2);
    assert_eq!(snap.memory_usage_permille, 500);
    assert_eq!(snap.total_disk_used, 750);
    assert_eq!(snap.disks[0].usage_permille, 750);
    assert_eq!(snap.temperatures.len(), 2);
    assert_eq!(snap.temperatures[0].status, TempStatus::Critical);
    assert_eq!(snap.cpu_temp_deci, Some(850));
    assert_eq!(
        snap.temp_warnings,
        vec!["CPU Package temperature is too high: 85.0°C".to_string()]
    );
}

#[test]
fn requests_within_window_hit_with_identical_content() {
    let mut cache = SnapshotCache::new();
    let mut history = TempHistory::new();
    let source = StubSource::default();
    assert_eq!(cache.get_snapshot(1_000, &source, &mut history), CacheStatus::Miss);
    let first = cache.cached_snapshot().clone();

    // Second and later requests inside the window hit and change nothing.
    assert_eq!(cache.get_snapshot(1_500, &source, &mut history), CacheStatus::Hit);
    assert_eq!(*cache.cached_snapshot(), first);
    assert_eq!(cache.get_snapshot(1_999, &source, &mut history), CacheStatus::Hit);
    assert_eq!(*cache.cached_snapshot(), first);
    assert_eq!(history.len(), 1);

    // Once the window has elapsed the next request recomputes.
    assert_eq!(cache.get_snapshot(2_000, &source, &mut history), CacheStatus::Miss);
    assert_eq!(cache.cached_snapshot().timestamp_ms, 2_000);
    assert_eq!(history.len(), 2);
}

#[test]
fn failed_category_becomes_sentinel_without_harming_others() {
    let mut cache = SnapshotCache::new();
    let mut history = TempHistory::new();
    let source = StubSource { memory: None, ..StubSource::default() };
    assert_eq!(cache.get_snapshot(50, &source, &mut history), CacheStatus::Miss);
    let snap = cache.cached_snapshot();
    // The failed category carries its defined unavailable values...
    assert_eq!(snap.memory_total, 0);
    assert_eq!(snap.memory_used, 0);
    assert_eq!(snap.memory_usage_permille, 0);
    // ...and every other category is still populated.
    assert_eq!(snap.cpu_brand, "ExampleBrand");
    assert_eq!(snap.temperatures.len(), 2);
    assert_eq!(snap.total_disk_space, 1000);
    // Unqueried categories get their sentinels too.
    assert!(snap.disk_io_stats.is_empty());
    assert!(snap.gpu_info.is_none());
    assert!(snap.power_info.ac_powered);
    assert!(!snap.power_info.battery_present);
}

#[test]
fn one_miss_appends_one_matching_history_entry() {
    let mut cache = SnapshotCache::new();
    let mut history = TempHistory::new();
    let source = StubSource::default();
    assert_eq!(history.len(), 0);
    assert_eq!(cache.get_snapshot(777, &source, &mut history), CacheStatus::Miss);
    let snap = cache.cached_snapshot();
    let entries = history.snapshot_all();
    assert_eq!(entries.len(), 1);
    assert_eq!(entries[0].timestamp_ms, snap.timestamp_ms);
    assert_eq!(entries[0].readings, snap.temperatures);
}

#[test]
fn stale_cache_by_clock_skew_still_hits_when_now_is_behind() {
    let mut cache = SnapshotCache::new();
    let mut history = TempHistory::new();
    let source = StubSource::default();
    assert_eq!(cache.get_snapshot(5_000, &source, &mut history), CacheStatus::Miss);
    // A request whose clock reads earlier than the stored capture time
    // still sees a fresh snapshot.
    assert_eq!(cache.get_snapshot(4_000, &source, &mut history), CacheStatus::Hit);
}
