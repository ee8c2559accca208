//! Verified aggregation over raw samples: totals, ratios and counters
//! that the snapshot derives from the per-category readouts.
//!
//! Sums saturate at `u64::MAX` instead of wrapping; ratios are reported
//! in tenths of a percent and are zero when the denominator is zero.

use vstd::prelude::*;

use crate::metrics::{
    DiskInfo, DiskIoSample, DiskIoStats, InterfaceStats, NetworkInfo, NetworkSample,
    NetworkStats, PerformanceMetrics, ProcSelfSample, ProcState, ProcessSample, ProcessStats,
    DiskSample, TcpSocketSample,
};

verus! {

/// A sum capped at `u64::MAX`.
pub open spec fn sat64(x: int) -> int {
    if x > u64::MAX {
        u64::MAX as int
    } else {
        x
    }
}

/// Saturating addition on `u64`.
pub fn sat_add_u64(a: u64, b: u64) -> (r: u64)
    ensures
        r == sat64(a + b),
{
    if a <= u64::MAX - b {
        a + b
    } else {
        u64::MAX
    }
}

/// `part` as tenths of a percent of `whole`; zero when `whole` is zero,
/// capped at `u64::MAX`.
pub open spec fn spec_permille(part: int, whole: int) -> int {
    if whole <= 0 {
        0
    } else {
        sat64(part * 1000 / whole)
    }
}

/// The used share of something, in tenths of a percent of the whole.
pub fn permille_of(part: u64, whole: u64) -> (r: u64)
    ensures
        r == spec_permille(part as int, whole as int),
{
    if whole == 0 {
        return 0;
    }
    let scaled: u128 = (part as u128) * 1000;
    let q: u128 = scaled / (whole as u128);
    if q > u64::MAX as u128 {
        u64::MAX
    } else {
        q as u64
    }
}

/// The used bytes of a disk; zero where a source reports more space
/// available than the disk holds.
pub open spec fn spec_disk_used(d: DiskSample) -> int {
    if d.available_space <= d.total_space {
        d.total_space - d.available_space
    } else {
        0
    }
}

/// The snapshot row for one disk.
pub open spec fn spec_disk_info(d: DiskSample) -> DiskInfo {
    DiskInfo {
        name: d.name,
        mount_point: d.mount_point,
        total_space: d.total_space,
        available_space: d.available_space,
        usage_permille: spec_permille(spec_disk_used(d), d.total_space as int) as u64,
    }
}

/// The snapshot rows for all disks, in order.
pub open spec fn spec_disk_infos(ds: Seq<DiskSample>) -> Seq<DiskInfo> {
    ds.map_values(|d: DiskSample| spec_disk_info(d))
}

/// The saturating sum of all disks' total space.
pub open spec fn spec_total_space(ds: Seq<DiskSample>) -> int
    decreases ds.len(),
{
    if ds.len() == 0 {
        0
    } else {
        sat64(spec_total_space(ds.drop_last()) + ds.last().total_space)
    }
}

/// The saturating sum of all disks' used space.
pub open spec fn spec_total_used(ds: Seq<DiskSample>) -> int
    decreases ds.len(),
{
    if ds.len() == 0 {
        0
    } else {
        sat64(spec_total_used(ds.drop_last()) + spec_disk_used(ds.last()))
    }
}

/// The saturating sum of all disks' available space.
pub open spec fn spec_total_free(ds: Seq<DiskSample>) -> int
    decreases ds.len(),
{
    if ds.len() == 0 {
        0
    } else {
        sat64(spec_total_free(ds.drop_last()) + ds.last().available_space)
    }
}

/// Per-disk rows and the three space totals, in one pass.
pub fn build_disk_infos(disks: &Vec<DiskSample>) -> (r: (Vec<DiskInfo>, u64, u64, u64))
    ensures
        r.0@ == spec_disk_infos(disks@),
        r.1 == spec_total_space(disks@),
        r.2 == spec_total_used(disks@),
        r.3 == spec_total_free(disks@),
{
    let mut infos: Vec<DiskInfo> = Vec::new();
    let mut total_space: u64 = 0;
    let mut total_used: u64 = 0;
    let mut total_free: u64 = 0;
    let n = disks.len();
    proof {
        assert(infos@ =~= spec_disk_infos(disks@.take(0)));
    }
    for i in 0..n
        invariant
            n == disks@.len(),
            infos@ == spec_disk_infos(disks@.take(i as int)),
            total_space == spec_total_space(disks@.take(i as int)),
            total_used == spec_total_used(disks@.take(i as int)),
            total_free == spec_total_free(disks@.take(i as int)),
    {
        let d = &disks[i];
        let used = if d.available_space <= d.total_space {
            d.total_space - d.available_space
        } else {
            0
        };
        let info = DiskInfo {
            name: d.name.clone(),
            mount_point: d.mount_point.clone(),
            total_space: d.total_space,
            available_space: d.available_space,
            usage_permille: permille_of(used, d.total_space),
        };
        total_space = sat_add_u64(total_space, d.total_space);
        total_used = sat_add_u64(total_used, used);
        total_free = sat_add_u64(total_free, d.available_space);
        proof {
            assert(info == spec_disk_info(disks@[i as int]));
            assert(disks@.take(i + 1).drop_last() =~= disks@.take(i as int));
            assert(disks@.take(i + 1).last() == disks@[i as int]);
            assert(spec_disk_infos(disks@.take(i + 1)) =~= spec_disk_infos(
                disks@.take(i as int),
            ).push(spec_disk_info(disks@[i as int])));
        }
        infos.push(info);
    }
    proof {
        assert(disks@.take(n as int) =~= disks@);
    }
    (infos, total_space, total_used, total_free)
}

/// A sector count as bytes, 512 bytes a sector, capped at `u64::MAX`.
pub open spec fn spec_sector_bytes(sectors: int) -> int {
    sat64(sectors * 512)
}

/// Convert a sector count to bytes, saturating.
pub fn sector_bytes(sectors: u64) -> (r: u64)
    ensures
        r == spec_sector_bytes(sectors as int),
{
    if sectors <= u64::MAX / 512 {
        sectors * 512
    } else {
        u64::MAX
    }
}

/// The snapshot row for one block device.
pub open spec fn spec_disk_io_stat(s: DiskIoSample) -> DiskIoStats {
    DiskIoStats {
        device: s.device,
        reads: s.reads,
        writes: s.writes,
        read_bytes: spec_sector_bytes(s.sectors_read as int) as u64,
        write_bytes: spec_sector_bytes(s.sectors_written as int) as u64,
        read_time: s.time_reading,
        write_time: s.time_writing,
        io_in_progress: s.time_in_progress,
    }
}

/// The snapshot rows for all block devices, in order.
pub open spec fn spec_disk_io_stats(ss: Seq<DiskIoSample>) -> Seq<DiskIoStats> {
    ss.map_values(|s: DiskIoSample| spec_disk_io_stat(s))
}

/// Turn raw sector counters into the snapshot's byte statistics.
pub fn disk_io_from(samples: &Vec<DiskIoSample>) -> (r: Vec<DiskIoStats>)
    ensures
        r@ == spec_disk_io_stats(samples@),
{
    let mut stats: Vec<DiskIoStats> = Vec::new();
    let n = samples.len();
    proof {
        assert(stats@ =~= spec_disk_io_stats(samples@.take(0)));
    }
    for i in 0..n
        invariant
            n == samples@.len(),
            stats@ == spec_disk_io_stats(samples@.take(i as int)),
    {
        let s = &samples[i];
        let stat = DiskIoStats {
            device: s.device.clone(),
            reads: s.reads,
            writes: s.writes,
            read_bytes: sector_bytes(s.sectors_read),
            write_bytes: sector_bytes(s.sectors_written),
            read_time: s.time_reading,
            write_time: s.time_writing,
            io_in_progress: s.time_in_progress,
        };
        proof {
            assert(stat == spec_disk_io_stat(samples@[i as int]));
            assert(samples@.take(i + 1).drop_last() =~= samples@.take(i as int));
            assert(spec_disk_io_stats(samples@.take(i + 1)) =~= spec_disk_io_stats(
                samples@.take(i as int),
            ).push(spec_disk_io_stat(samples@[i as int])));
        }
        stats.push(stat);
    }
    proof {
        assert(samples@.take(n as int) =~= samples@);
    }
    stats
}

/// How many processes are in a given state.
pub open spec fn spec_state_count(ps: Seq<ProcessSample>, state: ProcState) -> int
    decreases ps.len(),
{
    if ps.len() == 0 {
        0
    } else {
        spec_state_count(ps.drop_last(), state) + (if ps.last().state == state {
            1int
        } else {
            0int
        })
    }
}

/// The saturating sum of all processes' CPU usage, in tenths of a
/// percent.
pub open spec fn spec_total_cpu_deci(ps: Seq<ProcessSample>) -> int
    decreases ps.len(),
{
    if ps.len() == 0 {
        0
    } else {
        sat64(spec_total_cpu_deci(ps.drop_last()) + ps.last().cpu_deci)
    }
}

/// The saturating sum of all processes' memory.
pub open spec fn spec_total_memory(ps: Seq<ProcessSample>) -> int
    decreases ps.len(),
{
    if ps.len() == 0 {
        0
    } else {
        sat64(spec_total_memory(ps.drop_last()) + ps.last().memory)
    }
}

/// Proof that a state count never exceeds the population.
pub proof fn lemma_state_count_le_len(ps: Seq<ProcessSample>, state: ProcState)
    ensures
        0 <= spec_state_count(ps, state) <= ps.len(),
    decreases ps.len(),
{
    if ps.len() > 0 {
        lemma_state_count_le_len(ps.drop_last(), state);
    }
}

/// Count the zombie, sleeping and stopped processes and total the CPU
/// and memory usage, in one pass over the population.
pub fn process_stats_from(procs: &Vec<ProcessSample>) -> (r: ProcessStats)
    ensures
        r.zombie_count == spec_state_count(procs@, ProcState::Zombie),
        r.sleeping_count == spec_state_count(procs@, ProcState::Sleep),
        r.blocked_count == spec_state_count(procs@, ProcState::Stop),
        r.total_cpu_deci == spec_total_cpu_deci(procs@),
        r.total_memory_usage == spec_total_memory(procs@),
{
    let mut zombie: usize = 0;
    let mut sleeping: usize = 0;
    let mut blocked: usize = 0;
    let mut cpu: u64 = 0;
    let mut memory: u64 = 0;
    let n = procs.len();
    for i in 0..n
        invariant
            n == procs@.len(),
            zombie == spec_state_count(procs@.take(i as int), ProcState::Zombie),
            sleeping == spec_state_count(procs@.take(i as int), ProcState::Sleep),
            blocked == spec_state_count(procs@.take(i as int), ProcState::Stop),
            cpu == spec_total_cpu_deci(procs@.take(i as int)),
            memory == spec_total_memory(procs@.take(i as int)),
    {
        proof {
            lemma_state_count_le_len(procs@.take(i as int), ProcState::Zombie);
            lemma_state_count_le_len(procs@.take(i as int), ProcState::Sleep);
            lemma_state_count_le_len(procs@.take(i as int), ProcState::Stop);
            assert(procs@.take(i + 1).drop_last() =~= procs@.take(i as int));
            assert(procs@.take(i + 1).last() == procs@[i as int]);
        }
        let p = &procs[i];
        match p.state {
            ProcState::Zombie => {
                zombie = zombie + 1;
            },
            ProcState::Sleep => {
                sleeping = sleeping + 1;
            },
            ProcState::Stop => {
                blocked = blocked + 1;
            },
            _ => {},
        }
        cpu = sat_add_u64(cpu, p.cpu_deci);
        memory = sat_add_u64(memory, p.memory);
    }
    proof {
        assert(procs@.take(n as int) =~= procs@);
    }
    ProcessStats {
        zombie_count: zombie,
        sleeping_count: sleeping,
        blocked_count: blocked,
        total_cpu_deci: cpu,
        total_memory_usage: memory,
    }
}

/// Count the processes in a given state.
pub fn count_state(procs: &Vec<ProcessSample>, state: ProcState) -> (n: usize)
    ensures
        n == spec_state_count(procs@, state),
{
    let mut count: usize = 0;
    let len = procs.len();
    for i in 0..len
        invariant
            len == procs@.len(),
            count == spec_state_count(procs@.take(i as int), state),
    {
        proof {
            lemma_state_count_le_len(procs@.take(i as int), state);
            assert(procs@.take(i + 1).drop_last() =~= procs@.take(i as int));
            assert(procs@.take(i + 1).last() == procs@[i as int]);
        }
        if procs[i].state == state {
            count = count + 1;
        }
    }
    proof {
        assert(procs@.take(len as int) =~= procs@);
    }
    count
}

/// The local ports of the listening TCP sockets, in order.
pub open spec fn spec_listen_ports(tcp: Seq<TcpSocketSample>) -> Seq<u16>
    decreases tcp.len(),
{
    if tcp.len() == 0 {
        Seq::empty()
    } else {
        let rest = spec_listen_ports(tcp.drop_last());
        if tcp.last().listening {
            rest.push(tcp.last().port)
        } else {
            rest
        }
    }
}

/// The per-interface row derived for one interface; the rate and error
/// counters are not collected, and are reported as zero.
pub open spec fn spec_interface_stat(s: NetworkSample) -> InterfaceStats {
    InterfaceStats {
        name: s.interface,
        rx_errors: 0,
        tx_errors: 0,
        rx_dropped: 0,
        tx_dropped: 0,
        rx_bytes_sec: 0,
        tx_bytes_sec: 0,
        rx_packets_sec: 0,
        tx_packets_sec: 0,
    }
}

/// The per-interface rows, in interface order.
pub open spec fn spec_interface_stats(ss: Seq<NetworkSample>) -> Seq<InterfaceStats> {
    ss.map_values(|s: NetworkSample| spec_interface_stat(s))
}

/// Connection counts, listening ports and per-interface rows.
pub fn network_stats_from(
    tcp: &Vec<TcpSocketSample>,
    udp_ports: &Vec<u16>,
    networks: &Vec<NetworkSample>,
) -> (r: NetworkStats)
    ensures
        r.tcp_connections == tcp@.len(),
        r.udp_connections == udp_ports@.len(),
        r.tcp_listen_ports@ == spec_listen_ports(tcp@),
        r.udp_listen_ports@ == udp_ports@,
        r.interface_stats@ == spec_interface_stats(networks@),
{
    let mut listen_ports: Vec<u16> = Vec::new();
    let tcp_len = tcp.len();
    proof {
        assert(listen_ports@ =~= spec_listen_ports(tcp@.take(0)));
    }
    for i in 0..tcp_len
        invariant
            tcp_len == tcp@.len(),
            listen_ports@ == spec_listen_ports(tcp@.take(i as int)),
    {
        proof {
            assert(tcp@.take(i + 1).drop_last() =~= tcp@.take(i as int));
            assert(tcp@.take(i + 1).last() == tcp@[i as int]);
        }
        if tcp[i].listening {
            listen_ports.push(tcp[i].port);
        }
    }
    proof {
        assert(tcp@.take(tcp_len as int) =~= tcp@);
    }
    let mut udp_out: Vec<u16> = Vec::new();
    let udp_len = udp_ports.len();
    for i in 0..udp_len
        invariant
            udp_len == udp_ports@.len(),
            udp_out@ == udp_ports@.take(i as int),
    {
        udp_out.push(udp_ports[i]);
        proof {
            assert(udp_out@ =~= udp_ports@.take(i + 1));
        }
    }
    proof {
        assert(udp_ports@.take(udp_len as int) =~= udp_ports@);
    }
    let mut iface: Vec<InterfaceStats> = Vec::new();
    let net_len = networks.len();
    proof {
        assert(iface@ =~= spec_interface_stats(networks@.take(0)));
    }
    for i in 0..net_len
        invariant
            net_len == networks@.len(),
            iface@ == spec_interface_stats(networks@.take(i as int)),
    {
        let s = &networks[i];
        let stat = InterfaceStats {
            name: s.interface.clone(),
            rx_errors: 0,
            tx_errors: 0,
            rx_dropped: 0,
            tx_dropped: 0,
            rx_bytes_sec: 0,
            tx_bytes_sec: 0,
            rx_packets_sec: 0,
            tx_packets_sec: 0,
        };
        proof {
            assert(stat == spec_interface_stat(networks@[i as int]));
            assert(networks@.take(i + 1).drop_last() =~= networks@.take(i as int));
            assert(spec_interface_stats(networks@.take(i + 1)) =~= spec_interface_stats(
                networks@.take(i as int),
            ).push(spec_interface_stat(networks@[i as int])));
        }
        iface.push(stat);
    }
    proof {
        assert(networks@.take(net_len as int) =~= networks@);
    }
    NetworkStats {
        tcp_connections: tcp_len,
        udp_connections: udp_len,
        tcp_listen_ports: listen_ports,
        udp_listen_ports: udp_out,
        interface_stats: iface,
    }
}

/// The saturating sum of all interfaces' received bytes.
pub open spec fn spec_total_rx(ns: Seq<NetworkSample>) -> int
    decreases ns.len(),
{
    if ns.len() == 0 {
        0
    } else {
        sat64(spec_total_rx(ns.drop_last()) + ns.last().received_bytes)
    }
}

/// The saturating sum of all interfaces' transmitted bytes.
pub open spec fn spec_total_tx(ns: Seq<NetworkSample>) -> int
    decreases ns.len(),
{
    if ns.len() == 0 {
        0
    } else {
        sat64(spec_total_tx(ns.drop_last()) + ns.last().transmitted_bytes)
    }
}

/// Snapshot rows for the interfaces, and the received and transmitted
/// byte totals.
pub fn network_infos_from(networks: &Vec<NetworkSample>) -> (r: (Vec<NetworkInfo>, u64, u64))
    ensures
        r.0@.len() == networks@.len(),
        forall|i: int|
            0 <= i < networks@.len() ==> {
                let info = #[trigger] r.0@[i];
                let s = networks@[i];
                &&& info.interface == s.interface
                &&& info.received_bytes == s.received_bytes
                &&& info.transmitted_bytes == s.transmitted_bytes
                &&& info.received_packets == s.received_packets
                &&& info.transmitted_packets == s.transmitted_packets
                &&& info.mac_address == s.mac_address
                &&& info.ip_addresses@ == Seq::<String>::empty()
            },
        r.1 == spec_total_rx(networks@),
        r.2 == spec_total_tx(networks@),
{
    let mut infos: Vec<NetworkInfo> = Vec::new();
    let mut rx: u64 = 0;
    let mut tx: u64 = 0;
    let n = networks.len();
    for i in 0..n
        invariant
            n == networks@.len(),
            infos@.len() == i,
            forall|j: int|
                0 <= j < i ==> {
                    let info = #[trigger] infos@[j];
                    let s = networks@[j];
                    &&& info.interface == s.interface
                    &&& info.received_bytes == s.received_bytes
                    &&& info.transmitted_bytes == s.transmitted_bytes
                    &&& info.received_packets == s.received_packets
                    &&& info.transmitted_packets == s.transmitted_packets
                    &&& info.mac_address == s.mac_address
                    &&& info.ip_addresses@ == Seq::<String>::empty()
                },
            rx == spec_total_rx(networks@.take(i as int)),
            tx == spec_total_tx(networks@.take(i as int)),
    {
        proof {
            assert(networks@.take(i + 1).drop_last() =~= networks@.take(i as int));
            assert(networks@.take(i + 1).last() == networks@[i as int]);
        }
        let s = &networks[i];
        let mac = match &s.mac_address {
            Some(m) => Some(m.clone()),
            None => None,
        };
        let info = NetworkInfo {
            interface: s.interface.clone(),
            received_bytes: s.received_bytes,
            transmitted_bytes: s.transmitted_bytes,
            received_packets: s.received_packets,
            transmitted_packets: s.transmitted_packets,
            mac_address: mac,
            ip_addresses: Vec::new(),
        };
        rx = sat_add_u64(rx, s.received_bytes);
        tx = sat_add_u64(tx, s.transmitted_bytes);
        infos.push(info);
    }
    proof {
        assert(networks@.take(n as int) =~= networks@);
    }
    (infos, rx, tx)
}

/// The saturating sum of the per-core usage figures.
pub open spec fn spec_sum_deci(us: Seq<u32>) -> int
    decreases us.len(),
{
    if us.len() == 0 {
        0
    } else {
        sat64(spec_sum_deci(us.drop_last()) + us.last())
    }
}

/// The mean per-core usage, in tenths of a percent; zero for an empty
/// core list.
pub open spec fn spec_avg_deci(us: Seq<u32>) -> int {
    if us.len() == 0 {
        0
    } else {
        spec_sum_deci(us) / us.len() as int
    }
}

/// The mean of the per-core usage figures.
pub fn average_usage_deci(usage: &Vec<u32>) -> (r: u64)
    ensures
        r == spec_avg_deci(usage@),
{
    let n = usage.len();
    if n == 0 {
        return 0;
    }
    let mut sum: u64 = 0;
    for i in 0..n
        invariant
            n == usage@.len(),
            sum == spec_sum_deci(usage@.take(i as int)),
    {
        proof {
            assert(usage@.take(i + 1).drop_last() =~= usage@.take(i as int));
            assert(usage@.take(i + 1).last() == usage@[i as int]);
        }
        sum = sat_add_u64(sum, usage[i] as u64);
    }
    proof {
        assert(usage@.take(n as int) =~= usage@);
    }
    sum / (n as u64)
}

/// The performance metrics: from the process's own accounting where
/// the platform supplies it, otherwise from the mean per-core usage.
pub fn performance_metrics_from(
    proc_self: &Option<ProcSelfSample>,
    cpu_usage_deci: &Vec<u32>,
    process_count: usize,
) -> (r: PerformanceMetrics)
    ensures
        (match *proc_self {
            Some(s) => r == (PerformanceMetrics {
                iowait_deci: 0,
                steal_deci: 0,
                system_deci: s.stime_ticks,
                user_deci: s.utime_ticks,
                nice_value: s.priority,
                irq_deci: 0,
                softirq_deci: 0,
                cpu_queue_length: process_count as u64,
                context_switches: s.num_threads,
                interrupts: 0,
            }),
            None => r == (PerformanceMetrics {
                iowait_deci: 0,
                steal_deci: 0,
                system_deci: spec_avg_deci(cpu_usage_deci@) as u64,
                user_deci: 0,
                nice_value: 0,
                irq_deci: 0,
                softirq_deci: 0,
                cpu_queue_length: process_count as u64,
                context_switches: 0,
                interrupts: 0,
            }),
        }),
{
    match proc_self {
        Some(s) => PerformanceMetrics {
            iowait_deci: 0,
            steal_deci: 0,
            system_deci: s.stime_ticks,
            user_deci: s.utime_ticks,
            nice_value: s.priority,
            irq_deci: 0,
            softirq_deci: 0,
            cpu_queue_length: process_count as u64,
            context_switches: s.num_threads,
            interrupts: 0,
        },
        None => PerformanceMetrics {
            iowait_deci: 0,
            steal_deci: 0,
            system_deci: average_usage_deci(cpu_usage_deci),
            user_deci: 0,
            nice_value: 0,
            irq_deci: 0,
            softirq_deci: 0,
            cpu_queue_length: process_count as u64,
            context_switches: 0,
            interrupts: 0,
        },
    }
}

} // verus!
