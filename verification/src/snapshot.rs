//! The snapshot: one fully-populated record aggregating every metric
//! category, and its assembly from the per-category readouts.

use vstd::prelude::*;

use crate::aggregate::{
    build_disk_infos, count_state, disk_io_from, network_infos_from, network_stats_from,
    performance_metrics_from, permille_of, process_stats_from, spec_avg_deci, spec_disk_infos,
    spec_disk_io_stats,
    spec_interface_stats, spec_listen_ports, spec_permille, spec_state_count,
    spec_total_cpu_deci, spec_total_free, spec_total_memory, spec_total_rx, spec_total_space,
    spec_total_tx, spec_total_used,
};
use crate::classify::{
    classify_all, cpu_temp_of, lemma_classified_keeps_raws, spec_classify, spec_cpu_temp,
    spec_raws_of, spec_readings, spec_warnings, views_of, RawTemperature, TemperatureReading,
};
use crate::metrics::{
    get_disk_io_stats, unavailable_power, CpuSample, DiskInfo, DiskIoSample, DiskIoStats,
    DiskSample, GpuInfo, InterfaceStats, LoadAverage, MemorySample, NetworkInfo, NetworkSample,
    NetworkStats, PerformanceMetrics, PowerInfo, ProcSelfSample, ProcState, ProcessSample,
    ProcessStats, SystemIdentity, TcpSocketSample,
};

verus! {

/// One fully-assembled set of host metrics at a point in time. Never
/// partially constructed: every category is populated, with its
/// unavailable value where the platform could not supply it.
#[derive(Clone, Debug, PartialEq)]
pub struct Snapshot {
    pub cpu_usage_deci: Vec<u32>,
    pub cpu_temp_deci: Option<i32>,
    pub cpu_brand: String,
    pub cpu_frequency_mhz: Vec<u64>,
    pub cpu_cores: usize,
    pub cpu_physical_cores: usize,
    pub cpu_vendor_id: String,
    pub cpu_load_avg: LoadAverage,
    pub gpu_info: Option<GpuInfo>,
    pub memory_total: u64,
    pub memory_used: u64,
    pub memory_free: u64,
    pub memory_available: u64,
    pub memory_usage_permille: u64,
    pub swap_total: u64,
    pub swap_used: u64,
    pub swap_free: u64,
    pub swap_usage_permille: u64,
    pub disks: Vec<DiskInfo>,
    pub total_disk_space: u64,
    pub total_disk_used: u64,
    pub total_disk_free: u64,
    pub disk_io_stats: Vec<DiskIoStats>,
    pub system_name: Option<String>,
    pub kernel_version: Option<String>,
    pub os_version: Option<String>,
    pub host_name: Option<String>,
    pub boot_time: u64,
    pub uptime: u64,
    pub load_average: LoadAverage,
    pub process_count: usize,
    pub thread_count: usize,
    pub running_process_count: usize,
    pub process_stats: ProcessStats,
    pub temperatures: Vec<TemperatureReading>,
    pub temp_warnings: Vec<String>,
    pub timestamp_ms: u64,
    pub networks: Vec<NetworkInfo>,
    pub total_rx_bytes: u64,
    pub total_tx_bytes: u64,
    pub network_stats: NetworkStats,
    pub power_info: PowerInfo,
    pub performance_metrics: PerformanceMetrics,
}

/// The per-core usage list of a CPU readout, empty when the readout is
/// unavailable.
pub open spec fn spec_opt_usage(cpu: Option<CpuSample>) -> Seq<u32> {
    match cpu {
        Some(c) => c.usage_deci@,
        None => Seq::empty(),
    }
}

/// The process population size, zero when the readout is unavailable.
pub open spec fn spec_opt_proc_count(processes: Option<Vec<ProcessSample>>) -> int {
    match processes {
        Some(p) => p@.len() as int,
        None => 0,
    }
}

/// The raw readings of a temperature readout, empty when unavailable.
pub open spec fn spec_opt_temps(temperatures: Option<Vec<RawTemperature>>) -> Seq<
    RawTemperature,
> {
    match temperatures {
        Some(t) => t@,
        None => Seq::empty(),
    }
}

/// Assemble one snapshot from the category readouts.
///
/// Every category is populated: a `None` readout — one whose query the
/// platform could not answer — becomes that category's defined
/// unavailable value (an empty list, `None`, zero) and never prevents
/// the other categories from being populated.
pub fn assemble_snapshot(
    now_ms: u64,
    cpu: Option<CpuSample>,
    memory: Option<MemorySample>,
    disks: Option<Vec<DiskSample>>,
    disk_io: Option<Vec<DiskIoSample>>,
    identity: Option<SystemIdentity>,
    processes: Option<Vec<ProcessSample>>,
    temperatures: Option<Vec<RawTemperature>>,
    networks: Option<Vec<NetworkSample>>,
    tcp_sockets: Option<Vec<TcpSocketSample>>,
    udp_ports: Option<Vec<u16>>,
    power: Option<PowerInfo>,
    proc_self: Option<ProcSelfSample>,
    gpu: Option<GpuInfo>,
) -> (snap: Snapshot)
    ensures
        snap.timestamp_ms == now_ms,
        (match cpu {
            Some(c) => {
                &&& snap.cpu_usage_deci@ == c.usage_deci@
                &&& snap.cpu_frequency_mhz@ == c.frequency_mhz@
                &&& snap.cpu_brand == c.brand
                &&& snap.cpu_vendor_id == c.vendor_id
                &&& snap.cpu_cores == c.usage_deci@.len()
                &&& snap.cpu_physical_cores == c.physical_cores
                &&& snap.cpu_load_avg == c.load_avg
                &&& snap.load_average == c.load_avg
            },
            None => {
                &&& snap.cpu_usage_deci@ == Seq::<u32>::empty()
                &&& snap.cpu_frequency_mhz@ == Seq::<u64>::empty()
                &&& snap.cpu_brand@ == Seq::<char>::empty()
                &&& snap.cpu_vendor_id@ == Seq::<char>::empty()
                &&& snap.cpu_cores == 0
                &&& snap.cpu_physical_cores == 0
                &&& snap.cpu_load_avg == (LoadAverage {
                    one_centi: 0,
                    five_centi: 0,
                    fifteen_centi: 0,
                })
                &&& snap.load_average == snap.cpu_load_avg
            },
        }),
        (match memory {
            Some(m) => {
                &&& snap.memory_total == m.total
                &&& snap.memory_used == m.used
                &&& snap.memory_free == m.free
                &&& snap.memory_available == m.available
                &&& snap.memory_usage_permille == spec_permille(m.used as int, m.total as int)
                &&& snap.swap_total == m.swap_total
                &&& snap.swap_used == m.swap_used
                &&& snap.swap_free == m.swap_free
                &&& snap.swap_usage_permille == spec_permille(
                    m.swap_used as int,
                    m.swap_total as int,
                )
            },
            None => {
                &&& snap.memory_total == 0
                &&& snap.memory_used == 0
                &&& snap.memory_free == 0
                &&& snap.memory_available == 0
                &&& snap.memory_usage_permille == 0
                &&& snap.swap_total == 0
                &&& snap.swap_used == 0
                &&& snap.swap_free == 0
                &&& snap.swap_usage_permille == 0
            },
        }),
        (match disks {
            Some(d) => {
                &&& snap.disks@ == spec_disk_infos(d@)
                &&& snap.total_disk_space == spec_total_space(d@)
                &&& snap.total_disk_used == spec_total_used(d@)
                &&& snap.total_disk_free == spec_total_free(d@)
            },
            None => {
                &&& snap.disks@ == Seq::<DiskInfo>::empty()
                &&& snap.total_disk_space == 0
                &&& snap.total_disk_used == 0
                &&& snap.total_disk_free == 0
            },
        }),
        (match disk_io {
            Some(io) => snap.disk_io_stats@ == spec_disk_io_stats(io@),
            None => snap.disk_io_stats@ == Seq::<DiskIoStats>::empty(),
        }),
        (match identity {
            Some(idn) => {
                &&& snap.system_name == idn.name
                &&& snap.kernel_version == idn.kernel_version
                &&& snap.os_version == idn.os_version
                &&& snap.host_name == idn.host_name
                &&& snap.boot_time == idn.boot_time
                &&& snap.uptime == idn.uptime
            },
            None => {
                &&& snap.system_name is None
                &&& snap.kernel_version is None
                &&& snap.os_version is None
                &&& snap.host_name is None
                &&& snap.boot_time == 0
                &&& snap.uptime == 0
            },
        }),
        (match processes {
            Some(p) => {
                &&& snap.process_count == p@.len()
                &&& snap.thread_count == p@.len()
                &&& snap.running_process_count == spec_state_count(p@, ProcState::Run)
                &&& snap.process_stats.zombie_count == spec_state_count(p@, ProcState::Zombie)
                &&& snap.process_stats.sleeping_count == spec_state_count(p@, ProcState::Sleep)
                &&& snap.process_stats.blocked_count == spec_state_count(p@, ProcState::Stop)
                &&& snap.process_stats.total_cpu_deci == spec_total_cpu_deci(p@)
                &&& snap.process_stats.total_memory_usage == spec_total_memory(p@)
            },
            None => {
                &&& snap.process_count == 0
                &&& snap.thread_count == 0
                &&& snap.running_process_count == 0
                &&& snap.process_stats == (ProcessStats {
                    zombie_count: 0,
                    sleeping_count: 0,
                    blocked_count: 0,
                    total_cpu_deci: 0,
                    total_memory_usage: 0,
                })
            },
        }),
        snap.temperatures@ == spec_readings(spec_opt_temps(temperatures)),
        views_of(snap.temp_warnings@) == spec_warnings(spec_opt_temps(temperatures)),
        views_of(snap.temp_warnings@) == spec_warnings(spec_raws_of(snap.temperatures@)),
        snap.cpu_temp_deci == spec_cpu_temp(snap.temperatures@),
        forall|i: int|
            0 <= i < snap.temperatures@.len() ==> (#[trigger] snap.temperatures@[i]).status
                == spec_classify(snap.temperatures@[i].temp_deci as int),
        (match networks {
            Some(ns) => {
                &&& snap.networks@.len() == ns@.len()
                &&& forall|i: int|
                    0 <= i < ns@.len() ==> {
                        let info = #[trigger] snap.networks@[i];
                        let s = ns@[i];
                        &&& info.interface == s.interface
                        &&& info.received_bytes == s.received_bytes
                        &&& info.transmitted_bytes == s.transmitted_bytes
                        &&& info.received_packets == s.received_packets
                        &&& info.transmitted_packets == s.transmitted_packets
                        &&& info.mac_address == s.mac_address
                        &&& info.ip_addresses@ == Seq::<String>::empty()
                    }
                &&& snap.total_rx_bytes == spec_total_rx(ns@)
                &&& snap.total_tx_bytes == spec_total_tx(ns@)
                &&& snap.network_stats.interface_stats@ == spec_interface_stats(ns@)
            },
            None => {
                &&& snap.networks@ == Seq::<NetworkInfo>::empty()
                &&& snap.total_rx_bytes == 0
                &&& snap.total_tx_bytes == 0
                &&& snap.network_stats.interface_stats@ == Seq::<InterfaceStats>::empty()
            },
        }),
        (match tcp_sockets {
            Some(t) => {
                &&& snap.network_stats.tcp_connections == t@.len()
                &&& snap.network_stats.tcp_listen_ports@ == spec_listen_ports(t@)
            },
            None => {
                &&& snap.network_stats.tcp_connections == 0
                &&& snap.network_stats.tcp_listen_ports@ == Seq::<u16>::empty()
            },
        }),
        (match udp_ports {
            Some(u) => {
                &&& snap.network_stats.udp_connections == u@.len()
                &&& snap.network_stats.udp_listen_ports@ == u@
            },
            None => {
                &&& snap.network_stats.udp_connections == 0
                &&& snap.network_stats.udp_listen_ports@ == Seq::<u16>::empty()
            },
        }),
        (match power {
            Some(p) => snap.power_info == p,
            None => snap.power_info == (PowerInfo {
                ac_powered: true,
                battery_present: false,
                battery_percentage: None,
                battery_time_remaining: None,
                power_consumption_mw: None,
            }),
        }),
        (match proc_self {
            Some(s) => snap.performance_metrics == (PerformanceMetrics {
                iowait_deci: 0,
                steal_deci: 0,
                system_deci: s.stime_ticks,
                user_deci: s.utime_ticks,
                nice_value: s.priority,
                irq_deci: 0,
                softirq_deci: 0,
                cpu_queue_length: spec_opt_proc_count(processes) as u64,
                context_switches: s.num_threads,
                interrupts: 0,
            }),
            None => snap.performance_metrics == (PerformanceMetrics {
                iowait_deci: 0,
                steal_deci: 0,
                system_deci: spec_avg_deci(spec_opt_usage(cpu)) as u64,
                user_deci: 0,
                nice_value: 0,
                irq_deci: 0,
                softirq_deci: 0,
                cpu_queue_length: spec_opt_proc_count(processes) as u64,
                context_switches: 0,
                interrupts: 0,
            }),
        }),
        snap.gpu_info == gpu,
{
    let (cpu_usage, cpu_freq, cpu_brand, cpu_vendor, cpu_phys, load_avg) = match cpu {
        Some(c) => (c.usage_deci, c.frequency_mhz, c.brand, c.vendor_id, c.physical_cores,
            c.load_avg),
        None => (Vec::new(), Vec::new(), String::new(), String::new(), 0,
            LoadAverage { one_centi: 0, five_centi: 0, fifteen_centi: 0 }),
    };
    let cpu_cores = cpu_usage.len();

    let mem = match memory {
        Some(m) => m,
        None => MemorySample {
            total: 0,
            used: 0,
            free: 0,
            available: 0,
            swap_total: 0,
            swap_used: 0,
            swap_free: 0,
        },
    };
    let memory_usage_permille = permille_of(mem.used, mem.total);
    let swap_usage_permille = permille_of(mem.swap_used, mem.swap_total);

    let disk_samples = match disks {
        Some(d) => d,
        None => Vec::new(),
    };
    proof {
        if disks is None {
            assert(spec_disk_infos(disk_samples@) =~= Seq::<DiskInfo>::empty());
        }
    }
    let (disk_infos, total_disk_space, total_disk_used, total_disk_free) = build_disk_infos(
        &disk_samples,
    );

    let disk_io_stats = match disk_io {
        Some(io) => disk_io_from(&io),
        None => get_disk_io_stats(),
    };

    let idn = match identity {
        Some(idn) => idn,
        None => SystemIdentity {
            name: None,
            kernel_version: None,
            os_version: None,
            host_name: None,
            boot_time: 0,
            uptime: 0,
        },
    };

    let procs = match processes {
        Some(p) => p,
        None => Vec::new(),
    };
    let process_count = procs.len();
    let running_process_count = count_state(&procs, ProcState::Run);
    let process_stats = process_stats_from(&procs);

    let temps = match temperatures {
        Some(t) => t,
        None => Vec::new(),
    };
    proof {
        assert(temps@ == spec_opt_temps(temperatures));
        lemma_classified_keeps_raws(temps@);
    }
    let (readings, warnings) = classify_all(&temps);
    let cpu_temp_deci = cpu_temp_of(&readings);

    let nets = match networks {
        Some(ns) => ns,
        None => Vec::new(),
    };
    proof {
        if networks is None {
            assert(spec_interface_stats(nets@) =~= Seq::<InterfaceStats>::empty());
        }
    }
    let (net_infos, total_rx_bytes, total_tx_bytes) = network_infos_from(&nets);

    let tcp = match tcp_sockets {
        Some(t) => t,
        None => Vec::new(),
    };
    proof {
        if tcp_sockets is None {
            assert(spec_listen_ports(tcp@) =~= Seq::<u16>::empty());
        }
    }
    let udp = match udp_ports {
        Some(u) => u,
        None => Vec::new(),
    };
    let network_stats = network_stats_from(&tcp, &udp, &nets);

    let power_info = match power {
        Some(p) => p,
        None => unavailable_power(),
    };

    let performance_metrics = performance_metrics_from(&proc_self, &cpu_usage, process_count);

    let snap = Snapshot {
        cpu_usage_deci: cpu_usage,
        cpu_temp_deci,
        cpu_brand,
        cpu_frequency_mhz: cpu_freq,
        cpu_cores,
        cpu_physical_cores: cpu_phys,
        cpu_vendor_id: cpu_vendor,
        cpu_load_avg: load_avg,
        gpu_info: gpu,
        memory_total: mem.total,
        memory_used: mem.used,
        memory_free: mem.free,
        memory_available: mem.available,
        memory_usage_permille,
        swap_total: mem.swap_total,
        swap_used: mem.swap_used,
        swap_free: mem.swap_free,
        swap_usage_permille,
        disks: disk_infos,
        total_disk_space,
        total_disk_used,
        total_disk_free,
        disk_io_stats,
        system_name: idn.name,
        kernel_version: idn.kernel_version,
        os_version: idn.os_version,
        host_name: idn.host_name,
        boot_time: idn.boot_time,
        uptime: idn.uptime,
        load_average: load_avg,
        process_count,
        thread_count: process_count,
        running_process_count,
        process_stats,
        temperatures: readings,
        temp_warnings: warnings,
        timestamp_ms: now_ms,
        networks: net_infos,
        total_rx_bytes,
        total_tx_bytes,
        network_stats,
        power_info,
        performance_metrics,
    };
    proof {
        assert forall|i: int| 0 <= i < snap.temperatures@.len() implies (
        #[trigger] snap.temperatures@[i]).status == spec_classify(
            snap.temperatures@[i].temp_deci as int,
        ) by {
            assert(snap.temperatures@[i] == spec_readings(temps@)[i]);
        }
    }
    snap
}

} // verus!
