use corroded_monitor::cpu::{parse_core_thread, Cpu, GraphState as CpuGraph, ThreadMetric};
use corroded_monitor::gpu::{gpu_gauge, GpuGauge, GraphState as GpuGraph, Region};
use corroded_monitor::network::{tracked_adapter, NetGauge};
use corroded_monitor::ram::RamGauge;
use corroded_monitor::report::{Device, DeviceKind, Sensor, SensorKind};
use corroded_monitor::storage::{DiskGauge, GraphState as DiskGraph};
use corroded_monitor::system::SystemStats;

fn sensor(kind: SensorKind, name: &str, index: usize, value: i64, max: i64) -> Sensor {
    Sensor { kind, name: name.to_string(), index, value, max }
}

fn device(kind: DeviceKind, name: &str, sensors: Vec<Sensor>) -> Device {
    Device { kind, name: name.to_string(), sensors }
}

#[test]
fn core_thread_names_parse() {
    assert_eq!(parse_core_thread("CPU Core #1"), Some((0, None)));
    assert_eq!(parse_core_thread("CPU Core #3 Thread #2"), Some((2, Some(1))));
    assert_eq!(parse_core_thread("CPU Core #12"), Some((11, None)));
    assert_eq!(parse_core_thread("CPU Core #4 Thread #"), Some((3, None)));
    assert_eq!(parse_core_thread("CPU Core #7abc"), Some((6, None)));
    assert_eq!(parse_core_thread("CPU Core #0"), None);
    assert_eq!(parse_core_thread("CPU Core #1 Thread #0"), None);
    assert_eq!(parse_core_thread("CPU Core"), None);
    assert_eq!(parse_core_thread("CPU Core #"), None);
    assert_eq!(parse_core_thread("GPU Core #1"), None);
    assert_eq!(parse_core_thread("CPU Core #99999999999999999999999999"), None);
}

#[test]
fn end_to_end_scenario() {
    let report = vec![device(
        DeviceKind::Cpu,
        "Intel Core i7",
        vec![
            sensor(SensorKind::Load, "CPU Core #1", 0, 45_000, 100_000),
            sensor(SensorKind::Clock, "CPU Core #1", 1, 3_400_000, 4_000_000),
        ],
    )];
    let mut stats = SystemStats::new();
    stats.update(&report);
    let cpu = stats.cpu();
    assert_eq!(cpu.name(), "Intel Core i7");
    assert_eq!(cpu.core_count(), 1);
    assert_eq!(cpu.core_at(0).thread_count(), 1);
    assert_eq!(cpu.summary().total_load, 45_000);
    assert_eq!(cpu.summary().total_frequency, 3_400_000);
    assert_eq!(cpu.summary().maximum_frequency, 4_000_000);
    assert_eq!(cpu.summary().total_power, None);
    assert_eq!(cpu.load_graph().points(), vec![45_000]);
}

#[test]
fn clock_then_thread_load_fans_out() {
    let mut cpu = Cpu::new();
    cpu.update(&device(
        DeviceKind::Cpu,
        "c",
        vec![sensor(SensorKind::Clock, "CPU Core #1", 1, 3_000_000, 3_000_000)],
    ));
    assert_eq!(cpu.core_count(), 1);
    assert_eq!(cpu.core_at(0).thread_count(), 1);
    cpu.update(&device(
        DeviceKind::Cpu,
        "c",
        vec![sensor(SensorKind::Load, "CPU Core #1 Thread #2", 0, 50_000, 100_000)],
    ));
    assert_eq!(cpu.core_count(), 1);
    assert_eq!(cpu.core_at(0).thread_count(), 2);
    let first = cpu.core_at(0).thread(0);
    assert_eq!(first.metric(ThreadMetric::Frequency).history().points(), vec![3_000_000]);
    assert_eq!(first.metric(ThreadMetric::Load).history().len(), 0);
    let second = cpu.core_at(0).thread(1);
    assert_eq!(second.metric(ThreadMetric::Load).history().points(), vec![50_000]);
    assert_eq!(second.metric(ThreadMetric::Frequency).history().len(), 0);
    // a later clock reading reaches both threads of the core
    cpu.update(&device(
        DeviceKind::Cpu,
        "c",
        vec![sensor(SensorKind::Clock, "CPU Core #1", 1, 2_000_000, 3_000_000)],
    ));
    let first = cpu.core_at(0).thread(0);
    let second = cpu.core_at(0).thread(1);
    assert_eq!(first.metric(ThreadMetric::Frequency).history().points(), vec![3_000_000, 2_000_000]);
    assert_eq!(second.metric(ThreadMetric::Frequency).history().points(), vec![2_000_000]);
}

#[test]
fn no_thread_means_zero_load() {
    let mut cpu = Cpu::new();
    cpu.update(&device(DeviceKind::Cpu, "c", vec![]));
    assert_eq!(cpu.thread_count(), 0);
    assert_eq!(cpu.summary().total_load, 0);
    assert_eq!(cpu.summary().average_load, 0);
    assert_eq!(cpu.summary().total_temperature, 0);
    assert_eq!(cpu.summary().average_power, None);
}

#[test]
fn temperature_uses_zero_based_index_and_tjmax_is_skipped() {
    let mut cpu = Cpu::new();
    cpu.update(&device(
        DeviceKind::Cpu,
        "c",
        vec![
            sensor(SensorKind::Temperature, "CPU Core #1", 0, 60_000, 80_000),
            sensor(SensorKind::Temperature, "CPU Core #2", 1, 70_000, 90_000),
            sensor(SensorKind::Temperature, "CPU Core #1 TjMax", 0, 100_000, 100_000),
            sensor(SensorKind::Temperature, "Core Max", 0, 1, 1),
        ],
    ));
    assert_eq!(cpu.core_count(), 2);
    assert_eq!(cpu.summary().total_temperature, 65_000);
    assert_eq!(cpu.summary().maximum_temperature, 85_000);
}

#[test]
fn gaps_and_zero_indices_are_ignored() {
    let mut cpu = Cpu::new();
    cpu.update(&device(
        DeviceKind::Cpu,
        "c",
        vec![
            sensor(SensorKind::Load, "CPU Core #3", 0, 10_000, 10_000),
            sensor(SensorKind::Clock, "CPU Core #1", 0, 10_000, 10_000),
            sensor(SensorKind::Temperature, "CPU Core #5", 4, 10_000, 10_000),
            sensor(SensorKind::Load, "CPU Core #1 Thread #3", 0, 10_000, 10_000),
        ],
    ));
    assert_eq!(cpu.core_count(), 0);
}

#[test]
fn averages_span_threads_and_history() {
    let mut cpu = Cpu::new();
    for (a, b) in [(10_000, 30_000), (20_000, 50_000)] {
        cpu.update(&device(
            DeviceKind::Cpu,
            "c",
            vec![
                sensor(SensorKind::Load, "CPU Core #1 Thread #1", 0, a, 100_000),
                sensor(SensorKind::Load, "CPU Core #1 Thread #2", 0, b, 100_000),
            ],
        ));
    }
    let s = cpu.summary();
    assert_eq!(cpu.thread_count(), 2);
    assert_eq!(s.total_load, 35_000);
    assert_eq!(s.average_load, 27_500);
    assert_eq!(cpu.load_graph().points(), vec![20_000, 35_000]);
}

#[test]
fn averages_round_toward_zero() {
    let mut cpu = Cpu::new();
    cpu.update(&device(
        DeviceKind::Cpu,
        "c",
        vec![
            sensor(SensorKind::Temperature, "CPU Core #1", 0, -1, 0),
            sensor(SensorKind::Temperature, "CPU Core #2", 1, -2, 0),
            sensor(SensorKind::Load, "CPU Core #1", 0, 1, 0),
            sensor(SensorKind::Load, "CPU Core #2", 0, 2, 0),
        ],
    ));
    assert_eq!(cpu.summary().total_temperature, -1);
    assert_eq!(cpu.summary().total_load, 1);
}

#[test]
fn package_power_feeds_power_figures() {
    let mut cpu = Cpu::new();
    for v in [40_000, 60_000, 20_000] {
        cpu.update(&device(
            DeviceKind::Cpu,
            "c",
            vec![sensor(SensorKind::Power, "CPU Cores", 0, v, 65_000)],
        ));
    }
    let s = cpu.summary();
    assert_eq!(s.total_power, Some(20_000));
    assert_eq!(s.maximum_power, Some(65_000));
    assert_eq!(s.average_power, Some(40_000));
    assert_eq!(cpu.core_count(), 0);
    assert_eq!(cpu.power().graph().maximum_value(), Some(60_000));
}

fn gpu_device(name: &str, load: i64) -> Device {
    device(
        DeviceKind::GpuNvidia,
        name,
        vec![
            sensor(SensorKind::Load, "GPU Core", 0, load, 100_000),
            sensor(SensorKind::Temperature, "GPU Core", 0, 50_000, 70_000),
            sensor(SensorKind::SmallData, "GPU Memory Used", 0, 2_048_000, 2_048_000),
            sensor(SensorKind::Load, "GPU Unknown", 0, 1, 1),
        ],
    )
}

#[test]
fn discovery_order_gpu_instancing() {
    let mut stats = SystemStats::new();
    let poll = |a: i64| vec![gpu_device("A", a), gpu_device("B", a + 1), gpu_device("C", a + 2)];
    stats.update(&poll(10_000));
    assert_eq!(stats.gpu_count(), 3);
    stats.update(&poll(20_000));
    assert_eq!(stats.gpu_count(), 3);
    for (k, name) in ["A", "B", "C"].iter().enumerate() {
        let g = stats.gpu(k);
        assert_eq!(g.name(), name);
        assert_eq!(g.index(), k);
        assert_eq!(g.gauge(GpuGauge::CoreLoad).sample().current, 20_000 + k as i64);
        assert_eq!(
            g.gauge(GpuGauge::CoreLoad).graph().points(),
            vec![10_000 + k as i64, 20_000 + k as i64]
        );
        assert_eq!(g.load_graph().len(), 2);
        assert_eq!(g.gauge(GpuGauge::Temperature).sample().maximum, 70_000);
        assert_eq!(g.gauge(GpuGauge::MemoryUsed).sample().current, 2_048_000);
        assert_eq!(g.gauge(GpuGauge::MemoryUsed).graph().len(), 0);
    }
}

#[test]
fn gpu_lookup_table() {
    assert_eq!(gpu_gauge("GPU Core", SensorKind::Clock), Some(GpuGauge::CoreClock));
    assert_eq!(gpu_gauge("GPU Core", SensorKind::Fan), None);
    assert_eq!(gpu_gauge("GPU Memory", SensorKind::Load), Some(GpuGauge::MemoryLoad));
    assert_eq!(gpu_gauge("GPU", SensorKind::Fan), Some(GpuGauge::FanSpeed));
    assert_eq!(gpu_gauge("GPU Fan 1", SensorKind::Fan), Some(GpuGauge::FanSpeed));
    assert_eq!(gpu_gauge("GPU Fan 1", SensorKind::Control), None);
    assert_eq!(gpu_gauge("GPU Hot Spot", SensorKind::Temperature), Some(GpuGauge::HotSpotTemperature));
    assert_eq!(gpu_gauge("GPU PCIe Tx", SensorKind::Throughput), Some(GpuGauge::PcieTx));
    assert_eq!(gpu_gauge("GPU Memory Total", SensorKind::SmallData), Some(GpuGauge::MemoryTotal));
    assert_eq!(gpu_gauge("gpu core", SensorKind::Load), None);
}

#[test]
fn gpu_graph_states() {
    assert_eq!(GpuGraph::CoreLoad.region(), Region::Loads);
    assert_eq!(GpuGraph::PCIeRx.region(), Region::Clocks);
    assert_eq!(GpuGraph::HotSpotTemperature.region(), Region::Thermals);
    assert_eq!(GpuGraph::PCIeTx.label(), "PCIe Up");
    assert_eq!(GpuGraph::PowerUsage.gauge(), GpuGauge::Power);
    assert_eq!(DiskGraph::Activity.label(), "Activity");
    assert_eq!(DiskGraph::Temperature.gauge(), DiskGauge::Temperature);
    assert_eq!(CpuGraph::Utilization.label(), "Utilization");
    assert_eq!(CpuGraph::Power.metric(), None);
}

#[test]
fn network_filter_scenario() {
    let speed = |n: &str, v: i64| sensor(SensorKind::Throughput, n, 0, v, v);
    let report = vec![
        device(DeviceKind::Network, "Bluetooth", vec![speed("Download Speed", 5)]),
        device(
            DeviceKind::Network,
            "Wi-Fi",
            vec![
                speed("Download Speed", 1_000),
                speed("Upload Speed", 250),
                sensor(SensorKind::Load, "Network Utilization", 0, 3_000, 9_000),
            ],
        ),
    ];
    let mut stats = SystemStats::new();
    stats.update(&report);
    assert_eq!(stats.network_adapter_count(), 1);
    let a = stats.network_adapter(0);
    assert_eq!(a.name(), "Wi-Fi");
    assert_eq!(a.index(), 0);
    assert_eq!(a.throughput_graph().points(), vec![1_250]);
    assert_eq!(a.gauge(NetGauge::Utilization).sample().current, 3_000);
    assert!(tracked_adapter("Ethernet"));
    assert!(!tracked_adapter("Bluetooth"));
    assert!(!tracked_adapter("wi-fi"));
}

#[test]
fn disks_and_memory_update() {
    let report = vec![
        device(
            DeviceKind::Storage,
            "Disk 0",
            vec![
                sensor(SensorKind::Throughput, "Read Rate", 0, 100, 100),
                sensor(SensorKind::Load, "Used Space", 0, 40_000, 40_000),
                sensor(SensorKind::Load, "Total Activity", 0, 7_000, 7_000),
            ],
        ),
        device(DeviceKind::Storage, "Disk 1", vec![]),
        device(
            DeviceKind::Memory,
            "Generic Memory",
            vec![
                sensor(SensorKind::Data, "Memory Used", 0, 8_000, 8_000),
                sensor(SensorKind::Data, "Memory Available", 0, 24_000, 24_000),
                sensor(SensorKind::Load, "Memory", 0, 25_000, 25_000),
            ],
        ),
        device(DeviceKind::Motherboard, "Board", vec![]),
    ];
    let mut stats = SystemStats::new();
    stats.update(&report);
    assert_eq!(stats.disk_count(), 2);
    let d = stats.disk(0);
    assert_eq!(d.gauge(DiskGauge::ReadRate).graph().points(), vec![100]);
    assert_eq!(d.gauge(DiskGauge::UsedSpace).sample().current, 40_000);
    assert_eq!(d.gauge(DiskGauge::UsedSpace).graph().len(), 0);
    assert_eq!(d.gauge(DiskGauge::Activity).sample().current, 7_000);
    assert_eq!(stats.disk(1).name(), "Disk 1");
    assert_eq!(stats.disk(1).index(), 1);
    let ram = stats.ram();
    assert_eq!(ram.total(), 32_000);
    assert_eq!(ram.gauge(RamGauge::Usage).graph().points(), vec![25_000]);
    assert_eq!(ram.gauge(RamGauge::Used).graph().len(), 0);
}

#[test]
fn ram_total_saturates() {
    let mut stats = SystemStats::new();
    stats.update(&vec![device(
        DeviceKind::Memory,
        "m",
        vec![
            sensor(SensorKind::Data, "Memory Used", 0, i64::MAX, 0),
            sensor(SensorKind::Data, "Memory Available", 0, 5, 0),
        ],
    )]);
    assert_eq!(stats.ram().total(), i64::MAX);
}
