use sysdash::aggregators::{
    CpuStats, DiskTable, MAX_DATA_POINTS, MemoryViewModel, NetworkViewModel, ProcessTable,
};
use sysdash::events::Event;
use sysdash::metrics::{CpuData, DataCollected, DiskData, MemoryData, NetworkData, ProcessData};

fn core_reading(name: &str, usage: u64) -> CpuData {
    CpuData {
        cpu_name: name.to_owned(),
        vendor_id: "v".to_owned(),
        brand: "b".to_owned(),
        cpu_usage: usage,
    }
}

fn interface(name: &str, received: u64, transmitted: u64) -> NetworkData {
    NetworkData {
        interface_name: name.to_owned(),
        mac_address: "00:00:00:00:00:00".to_owned(),
        received,
        total_received: 0,
        total_packets_received: 0,
        transmitted,
        total_transmitted: 0,
        total_packets_transmitted: 0,
    }
}

fn values_of(samples: Vec<(usize, u64)>) -> Vec<u64> {
    samples.into_iter().map(|p| p.1).collect()
}

#[test]
fn cpu_update_creates_one_series_per_core() {
    let mut stats = CpuStats::new();
    stats.update(&vec![core_reading("cpu0", 10), core_reading("cpu1", 30)]);
    assert_eq!(stats.series.len(), 2);
    assert_eq!(values_of(stats.series[0].window.samples()), vec![10]);
    assert_eq!(values_of(stats.series[1].window.samples()), vec![30]);
    assert_eq!(stats.max_usage, 30);
    assert_eq!(stats.points, 1);
}

#[test]
fn cpu_update_appends_to_existing_series() {
    let mut stats = CpuStats::new();
    stats.update(&vec![core_reading("cpu0", 10)]);
    stats.update(&vec![core_reading("cpu0", 20)]);
    assert_eq!(stats.series.len(), 1);
    assert_eq!(values_of(stats.series[0].window.samples()), vec![10, 20]);
    assert_eq!(stats.points, 2);
}

#[test]
fn cpu_max_usage_is_monotone() {
    let mut stats = CpuStats::new();
    stats.update(&vec![core_reading("cpu0", 80)]);
    assert_eq!(stats.max_usage, 80);
    stats.update(&vec![core_reading("cpu0", 5)]);
    assert_eq!(stats.max_usage, 80);
    stats.update(&vec![core_reading("cpu0", 95)]);
    assert_eq!(stats.max_usage, 95);
}

#[test]
fn cpu_series_is_bounded_at_capacity() {
    let mut stats = CpuStats::new();
    for i in 0..(MAX_DATA_POINTS as u64 + 10) {
        stats.update(&vec![core_reading("cpu0", i)]);
    }
    assert_eq!(stats.series[0].window.sample_count(), MAX_DATA_POINTS);
    let samples = stats.series[0].window.samples();
    assert_eq!(samples[0], (0, 10));
    assert_eq!(samples[MAX_DATA_POINTS - 1], (MAX_DATA_POINTS - 1, MAX_DATA_POINTS as u64 + 9));
}

#[test]
fn cpu_apply_routes_only_data_updates_with_cpu_rows() {
    let mut stats = CpuStats::new();
    stats.apply(&Event::Tick);
    assert_eq!(stats.series.len(), 0);
    let snapshot = DataCollected::assemble(Some(vec![core_reading("cpu0", 42)]), None, None, None);
    stats.apply(&Event::DataUpdate(Box::new(snapshot)));
    assert_eq!(stats.series.len(), 1);
    assert_eq!(values_of(stats.series[0].window.samples()), vec![42]);
    let empty = DataCollected::assemble(None, None, None, None);
    stats.apply(&Event::DataUpdate(Box::new(empty)));
    assert_eq!(values_of(stats.series[0].window.samples()), vec![42]);
}

#[test]
fn network_sum_of_interface_deltas() {
    // Deltas [5, 10, 0] push a single window entry of 15, and the running
    // total grows by exactly 15.
    let mut model = NetworkViewModel::new();
    model.update(&vec![interface("a", 1, 2)]);
    let prior_total = model.total_received;
    assert_eq!(prior_total, 1);
    model.update(&vec![interface("a", 5, 0), interface("b", 10, 0), interface("c", 0, 0)]);
    let received = values_of(model.received.samples());
    assert_eq!(received, vec![1, 15]);
    assert_eq!(model.total_received, prior_total + 15);
}

#[test]
fn network_transmitted_tracks_its_own_direction() {
    let mut model = NetworkViewModel::new();
    model.update(&vec![interface("a", 5, 7), interface("b", 1, 13)]);
    assert_eq!(values_of(model.received.samples()), vec![6]);
    assert_eq!(values_of(model.transmitted.samples()), vec![20]);
    assert_eq!(model.total_received, 6);
    assert_eq!(model.total_transmitted, 20);
}

#[test]
fn network_totals_survive_window_eviction() {
    let mut model = NetworkViewModel::new();
    for _ in 0..100 {
        model.update(&vec![interface("a", 2, 3)]);
    }
    assert_eq!(model.received.sample_count(), 55);
    assert_eq!(model.total_received, 200);
    assert_eq!(model.total_transmitted, 300);
}

#[test]
fn network_apply_routes_only_data_updates_with_network_rows() {
    let mut model = NetworkViewModel::new();
    model.apply(&Event::Render);
    assert_eq!(model.received.sample_count(), 0);
    let snapshot = DataCollected::assemble(None, None, None, Some(vec![interface("a", 9, 4)]));
    model.apply(&Event::DataUpdate(Box::new(snapshot)));
    assert_eq!(values_of(model.received.samples()), vec![9]);
    assert_eq!(values_of(model.transmitted.samples()), vec![4]);
}

#[test]
fn memory_update_pushes_percentages() {
    let mut model = MemoryViewModel::new();
    model.update(&MemoryData { free_ram: 250, total_ram: 1000, free_swap: 0, total_swap: 0 });
    model.update(&MemoryData { free_ram: 500, total_ram: 1000, free_swap: 50, total_swap: 100 });
    assert_eq!(values_of(model.available_ram.samples()), vec![75, 50]);
    assert_eq!(values_of(model.available_swap.samples()), vec![0, 50]);
    assert_eq!(model.total_ram, 1000);
    assert_eq!(model.total_swap, 100);
}

#[test]
fn memory_window_is_bounded() {
    let mut model = MemoryViewModel::new();
    for i in 0..15u64 {
        model.update(&MemoryData {
            free_ram: 1000 - i,
            total_ram: 1000,
            free_swap: 0,
            total_swap: 0,
        });
    }
    assert_eq!(model.available_ram.sample_count(), 10);
    let samples = model.available_ram.samples();
    assert_eq!(samples[0].0, 0);
    assert_eq!(samples[9].0, 9);
}

#[test]
fn process_table_replaces_rows_on_update() {
    let mut table = ProcessTable::new();
    let rows = vec![ProcessData {
        pid: 7,
        parent: Some(1),
        name: "worker".to_owned(),
        status: "Run".to_owned(),
        cpu_usage: 3,
    }];
    let snapshot = DataCollected::assemble(None, Some(rows), None, None);
    table.apply(Event::DataUpdate(Box::new(snapshot)));
    assert_eq!(table.collected_data.len(), 1);
    assert_eq!(table.collected_data[0].pid, 7);
    table.apply(Event::Tick);
    assert_eq!(table.collected_data.len(), 1);
    let absent = DataCollected::assemble(None, None, None, None);
    table.apply(Event::DataUpdate(Box::new(absent)));
    assert_eq!(table.collected_data.len(), 1);
}

#[test]
fn disk_table_replaces_rows_on_update() {
    let mut table = DiskTable::new();
    let rows = vec![DiskData {
        name: "sda".to_owned(),
        kind: "SSD".to_owned(),
        file_system: "ext4".to_owned(),
        total_space: 10,
        available_space: 4,
        is_removable: false,
        mount_path: "/".to_owned(),
    }];
    let snapshot = DataCollected::assemble(None, None, Some(rows), None);
    table.apply(Event::DataUpdate(Box::new(snapshot)));
    assert_eq!(table.collected_data.len(), 1);
    assert_eq!(table.collected_data[0].name, "sda");
}
