use sysdash::metrics::{DataCollected, DiskData, MemoryData, ProcessData, usage_percent};

fn process(pid: u32, name: &str) -> ProcessData {
    ProcessData {
        pid,
        parent: None,
        name: name.to_owned(),
        status: "Run".to_owned(),
        cpu_usage: 1,
    }
}

fn disk(name: &str) -> DiskData {
    DiskData {
        name: name.to_owned(),
        kind: "SSD".to_owned(),
        file_system: "ext4".to_owned(),
        total_space: 1000,
        available_space: 400,
        is_removable: false,
        mount_path: "/".to_owned(),
    }
}

#[test]
fn percent_exact_values() {
    assert_eq!(usage_percent(25, 100), 75);
    assert_eq!(usage_percent(0, 100), 100);
    assert_eq!(usage_percent(100, 100), 0);
    assert_eq!(usage_percent(1, 3), 66);
}

#[test]
fn percent_zero_total_is_zero() {
    assert_eq!(usage_percent(0, 0), 0);
}

#[test]
fn percent_bounded_for_large_inputs() {
    let total = u64::MAX;
    assert!(usage_percent(0, total) <= 100);
    assert!(usage_percent(total / 2, total) <= 100);
    assert!(usage_percent(total, total) <= 100);
}

#[test]
fn usage_percentages_of_memory_record() {
    let m = MemoryData { free_ram: 250, total_ram: 1000, free_swap: 0, total_swap: 0 };
    let (ram, swap) = m.usage_percentages();
    assert_eq!(ram, 75);
    assert_eq!(swap, 0);
}

#[test]
fn empty_snapshot_has_all_fields_absent() {
    let d = DataCollected::empty();
    assert!(d.cpu.is_none());
    assert!(d.processes.is_none());
    assert!(d.disk.is_none());
    assert!(d.networks.is_none());
}

#[test]
fn default_snapshot_has_all_fields_absent() {
    let d = DataCollected::default();
    assert!(d.cpu.is_none());
    assert!(d.processes.is_none());
    assert!(d.disk.is_none());
    assert!(d.networks.is_none());
}

#[test]
fn subsystem_isolation_on_process_failure() {
    // A failed process collection leaves the other subsystems' results in
    // place for the same cycle.
    let d = DataCollected::assemble(Some(Vec::new()), None, Some(vec![disk("sda")]), Some(Vec::new()));
    assert!(d.cpu.is_some());
    assert!(d.processes.is_none());
    assert!(d.disk.is_some());
    assert!(d.networks.is_some());
    assert_eq!(d.disk.as_ref().unwrap().len(), 1);
}

#[test]
fn assemble_keeps_each_attempt_in_its_own_field() {
    let d = DataCollected::assemble(None, Some(vec![process(1, "init")]), None, None);
    assert!(d.cpu.is_none());
    assert_eq!(d.processes.as_ref().unwrap()[0].pid, 1);
    assert!(d.disk.is_none());
    assert!(d.networks.is_none());
}
