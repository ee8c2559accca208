use hostmon::aggregate::{
    average_usage_deci, build_disk_infos, count_state, disk_io_from, network_infos_from,
    network_stats_from, performance_metrics_from, permille_of, process_stats_from, sat_add_u64,
    sector_bytes,
};
use hostmon::metrics::{
    DiskIoSample, DiskSample, NetworkSample, ProcSelfSample, ProcState, ProcessSample,
    TcpSocketSample,
};

#[test]
fn saturating_add() {
    assert_eq!(sat_add_u64(2, 3), 5);
    assert_eq!(sat_add_u64(u64::MAX, 1), u64::MAX);
    assert_eq!(sat_add_u64(u64::MAX - 1, 1), u64::MAX);
}

#[test]
fn permille_values() {
    assert_eq!(permille_of(512, 1024), 500);
    assert_eq!(permille_of(750, 1000), 750);
    assert_eq!(permille_of(1, 3), 333);
    assert_eq!(permille_of(5, 0), 0);
    assert_eq!(permille_of(0, 7), 0);
    assert_eq!(permille_of(2000, 1000), 2000);
}

#[test]
fn sector_byte_conversion() {
    assert_eq!(sector_bytes(0), 0);
    assert_eq!(sector_bytes(3), 1536);
    assert_eq!(sector_bytes(u64::MAX), u64::MAX);
}

#[test]
fn disk_rows_and_totals() {
    let disks = vec![
        DiskSample {
            name: "sda".to_string(),
            mount_point: "/".to_string(),
            total_space: 1000,
            available_space: 250,
        },
        DiskSample {
            name: "sdb".to_string(),
            mount_point: "/data".to_string(),
            total_space: 4000,
            available_space: 4000,
        },
    ];
    let (infos, total, used, free) = build_disk_infos(&disks);
    assert_eq!(infos.len(), 2);
    assert_eq!(infos[0].name, "sda");
    assert_eq!(infos[0].usage_permille, 750);
    assert_eq!(infos[1].usage_permille, 0);
    assert_eq!(total, 5000);
    assert_eq!(used, 750);
    assert_eq!(free, 4250);
}

#[test]
fn disk_rows_empty() {
    let (infos, total, used, free) = build_disk_infos(&Vec::new());
    assert!(infos.is_empty());
    assert_eq!((total, used, free), (0, 0, 0));
}

#[test]
fn disk_io_sector_math() {
    let samples = vec![DiskIoSample {
        device: "nvme0n1".to_string(),
        reads: 10,
        writes: 4,
        sectors_read: 8,
        sectors_written: 2,
        time_reading: 100,
        time_writing: 50,
        time_in_progress: 1,
    }];
    let stats = disk_io_from(&samples);
    assert_eq!(stats.len(), 1);
    assert_eq!(stats[0].device, "nvme0n1");
    assert_eq!(stats[0].read_bytes, 4096);
    assert_eq!(stats[0].write_bytes, 1024);
    assert_eq!(stats[0].reads, 10);
    assert_eq!(stats[0].io_in_progress, 1);
}

fn proc(state: ProcState, cpu_deci: u64, memory: u64) -> ProcessSample {
    ProcessSample { state, cpu_deci, memory }
}

#[test]
fn process_population_counters() {
    let procs = vec![
        proc(ProcState::Run, 105, 1000),
        proc(ProcState::Sleep, 5, 2000),
        proc(ProcState::Zombie, 0, 0),
        proc(ProcState::Sleep, 10, 500),
        proc(ProcState::Stop, 0, 64),
        proc(ProcState::Other, 20, 128),
    ];
    let stats = process_stats_from(&procs);
    assert_eq!(stats.zombie_count, 1);
    assert_eq!(stats.sleeping_count, 2);
    assert_eq!(stats.blocked_count, 1);
    assert_eq!(stats.total_cpu_deci, 140);
    assert_eq!(stats.total_memory_usage, 3692);
    assert_eq!(count_state(&procs, ProcState::Run), 1);
}

#[test]
fn listen_port_filter() {
    let tcp = vec![
        TcpSocketSample { port: 22, listening: true },
        TcpSocketSample { port: 54001, listening: false },
        TcpSocketSample { port: 80, listening: true },
    ];
    let udp = vec![53, 123];
    let stats = network_stats_from(&tcp, &udp, &Vec::new());
    assert_eq!(stats.tcp_connections, 3);
    assert_eq!(stats.udp_connections, 2);
    assert_eq!(stats.tcp_listen_ports, vec![22, 80]);
    assert_eq!(stats.udp_listen_ports, vec![53, 123]);
    assert!(stats.interface_stats.is_empty());
}

fn net(interface: &str, rx: u64, tx: u64) -> NetworkSample {
    NetworkSample {
        interface: interface.to_string(),
        received_bytes: rx,
        transmitted_bytes: tx,
        received_packets: 1,
        transmitted_packets: 2,
        mac_address: Some("00:11:22:33:44:55".to_string()),
    }
}

#[test]
fn network_rows_and_totals() {
    let nets = vec![net("eth0", 1000, 400), net("lo", 24, 24)];
    let (infos, rx, tx) = network_infos_from(&nets);
    assert_eq!(infos.len(), 2);
    assert_eq!(infos[0].interface, "eth0");
    assert_eq!(infos[0].received_bytes, 1000);
    assert_eq!(infos[0].mac_address.as_deref(), Some("00:11:22:33:44:55"));
    assert!(infos[0].ip_addresses.is_empty());
    assert_eq!(rx, 1024);
    assert_eq!(tx, 424);
    let stats = network_stats_from(&Vec::new(), &Vec::new(), &nets);
    assert_eq!(stats.interface_stats.len(), 2);
    assert_eq!(stats.interface_stats[1].name, "lo");
    assert_eq!(stats.interface_stats[1].rx_errors, 0);
}

#[test]
fn usage_average() {
    assert_eq!(average_usage_deci(&vec![100, 200, 301]), 200);
    assert_eq!(average_usage_deci(&Vec::new()), 0);
    assert_eq!(average_usage_deci(&vec![7]), 7);
}

#[test]
fn performance_from_own_accounting() {
    let own = Some(ProcSelfSample {
        stime_ticks: 12,
        utime_ticks: 34,
        priority: -5,
        num_threads: 9,
    });
    let perf = performance_metrics_from(&own, &Vec::new(), 321);
    assert_eq!(perf.system_deci, 12);
    assert_eq!(perf.user_deci, 34);
    assert_eq!(perf.nice_value, -5);
    assert_eq!(perf.context_switches, 9);
    assert_eq!(perf.cpu_queue_length, 321);
    assert_eq!(perf.interrupts, 0);
}

#[test]
fn performance_fallback_uses_mean_usage() {
    let perf = performance_metrics_from(&None, &vec![100, 200], 2);
    assert_eq!(perf.system_deci, 150);
    assert_eq!(perf.user_deci, 0);
    assert_eq!(perf.nice_value, 0);
    assert_eq!(perf.context_switches, 0);
    assert_eq!(perf.cpu_queue_length, 2);
}
