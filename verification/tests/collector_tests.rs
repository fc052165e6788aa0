use sysdash::collector::DataCollector;
use sysdash::config::{Config, get_config_dir, get_data_dir};

#[test]
fn new_collector_starts_with_an_empty_snapshot() {
    let c = DataCollector::new();
    assert!(c.data.cpu.is_none());
    assert!(c.data.processes.is_none());
    assert!(c.data.disk.is_none());
    assert!(c.data.networks.is_none());
}

#[test]
fn update_data_populates_the_snapshot() {
    let mut c = DataCollector::new();
    c.update_data();
    assert!(c.data.cpu.is_some());
    assert!(c.data.processes.is_some());
    assert!(c.data.disk.is_some());
    assert!(c.data.networks.is_some());
}

#[test]
fn take_data_hands_the_snapshot_over_and_resets() {
    let mut c = DataCollector::new();
    c.update_data();
    let taken = c.take_data();
    assert!(taken.cpu.is_some());
    assert!(c.data.cpu.is_none());
    assert!(c.data.processes.is_none());
    assert!(c.data.disk.is_none());
    assert!(c.data.networks.is_none());
}

#[test]
fn memory_info_is_always_available() {
    let mut c = DataCollector::new();
    c.update_data();
    let m = sysdash::collector::get_memory_info(&c.sys.system);
    assert!(m.is_some());
}

#[test]
fn data_dir_prefers_the_environment_override() {
    let r = get_data_dir(Some("/custom".to_owned()), Some("/proj".to_owned()));
    assert_eq!(r, "/custom");
}

#[test]
fn data_dir_falls_back_to_the_project_directory() {
    let r = get_data_dir(None, Some("/proj".to_owned()));
    assert_eq!(r, "/proj");
}

#[test]
fn data_dir_defaults_beside_the_working_directory() {
    let r = get_data_dir(None, None);
    assert_eq!(r, "./.data");
}

#[test]
fn config_dir_choices() {
    assert_eq!(get_config_dir(Some("/c".to_owned()), None), "/c");
    assert_eq!(get_config_dir(None, Some("/p".to_owned())), "/p");
    assert_eq!(get_config_dir(None, None), "./.config");
}

#[test]
fn config_holds_the_resolved_directories() {
    let c = Config::new("/d".to_owned(), "/c".to_owned());
    assert_eq!(c.config._data_dir, "/d");
    assert_eq!(c.config._config_dir, "/c");
    let d = Config::default();
    assert_eq!(d.config._data_dir, "");
}
