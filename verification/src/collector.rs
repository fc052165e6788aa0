//! The data collection side: the host's counters, read through the `sysinfo`
//! crate, reduced each cycle to the plain records of `metrics`. The provider
//! handles are owned here exclusively; every crossing into `sysinfo` is a
//! declared, trusted boundary, and everything around it is verified.

use vstd::prelude::*;
use crate::metrics::{CpuData, DataCollected, DiskData, MemoryData, ProcessData};

verus! {

#[verifier::external_type_specification]
#[verifier::external_body]
pub struct ExSystem(sysinfo::System);

#[verifier::external_type_specification]
#[verifier::external_body]
pub struct ExDisks(sysinfo::Disks);

#[verifier::external_type_specification]
#[verifier::external_body]
pub struct ExDisk(sysinfo::Disk);

/// The network-interface side of the provider. `sysinfo::Networks` cannot be
/// declared to Verus here (its interface map's value type shares its name
/// with this crate's own network record), so the handle is held opaquely and
/// reached only through the trusted wrappers below.
#[verifier::external_body]
pub struct NetworksHandle {
    inner: sysinfo::Networks,
}

/// Relies on sysinfo::System::new: a provider handle with nothing refreshed.
pub assume_specification[ sysinfo::System::new ]() -> sysinfo::System;

/// Relies on sysinfo::System::refresh_cpu: re-reads the per-core counters.
pub assume_specification[ sysinfo::System::refresh_cpu ](s: &mut sysinfo::System);

/// Relies on sysinfo::System::refresh_processes: re-reads the process list.
pub assume_specification[ sysinfo::System::refresh_processes ](s: &mut sysinfo::System);

/// Relies on sysinfo::System::total_memory: total RAM in bytes.
pub assume_specification[ sysinfo::System::total_memory ](s: &sysinfo::System) -> u64;

/// Relies on sysinfo::System::free_memory: free RAM in bytes.
pub assume_specification[ sysinfo::System::free_memory ](s: &sysinfo::System) -> u64;

/// Relies on sysinfo::System::total_swap: total swap in bytes.
pub assume_specification[ sysinfo::System::total_swap ](s: &sysinfo::System) -> u64;

/// Relies on sysinfo::System::free_swap: free swap in bytes.
pub assume_specification[ sysinfo::System::free_swap ](s: &sysinfo::System) -> u64;

/// Relies on sysinfo::Disks::new_with_refreshed_list: a handle holding the
/// currently mounted disks.
pub assume_specification[ sysinfo::Disks::new_with_refreshed_list ]() -> sysinfo::Disks;

/// Relies on sysinfo::Disks::refresh_list: re-enumerates the mounted disks.
pub assume_specification[ sysinfo::Disks::refresh_list ](d: &mut sysinfo::Disks);

/// Relies on sysinfo::Disks::refresh: re-reads the counters of the listed
/// disks.
pub assume_specification[ sysinfo::Disks::refresh ](d: &mut sysinfo::Disks);

/// Relies on sysinfo::Networks::new_with_refreshed_list: a handle holding
/// the current interfaces.
#[verifier::external_body]
pub fn new_networks_handle() -> NetworksHandle {
    NetworksHandle { inner: sysinfo::Networks::new_with_refreshed_list() }
}

/// Relies on sysinfo::Networks::refresh: re-reads the per-interface
/// counters, updating the deltas since the previous refresh.
#[verifier::external_body]
pub fn refresh_networks(handle: &mut NetworksHandle) {
    handle.inner.refresh()
}

/// Relies on sysinfo::System::cpus and the per-core accessors name,
/// vendor_id, brand and cpu_usage: one record per core, in the provider's
/// order, the usage percentage rounded down to a whole number.
#[verifier::external_body]
pub fn get_cpu_info(system: &sysinfo::System) -> (r: Option<Vec<CpuData>>) {
    Some(
        system.cpus().iter().map(
            |cpu| CpuData {
                cpu_name: cpu.name().to_owned(),
                vendor_id: cpu.vendor_id().to_owned(),
                brand: cpu.brand().to_owned(),
                cpu_usage: cpu.cpu_usage() as u64,
            },
        ).collect(),
    )
}

/// Relies on sysinfo::System::processes and the per-process accessors pid,
/// parent, name, status and cpu_usage: one record per process, in no
/// promised order (the provider hands them out of a hash map).
#[verifier::external_body]
pub fn get_process_info(system: &sysinfo::System) -> (r: Option<Vec<ProcessData>>) {
    Some(
        system.processes().iter().map(
            |(pid, process)| ProcessData {
                pid: pid.as_u32(),
                parent: process.parent().map(|p| p.as_u32()),
                name: process.name().to_owned(),
                status: process.status().to_string(),
                cpu_usage: process.cpu_usage() as u64,
            },
        ).collect(),
    )
}

/// Relies on sysinfo::Disks::list and the per-disk accessors name, kind,
/// file_system, total_space, available_space, is_removable and mount_point:
/// one record per listed disk, in the provider's order.
#[verifier::external_body]
pub fn get_disk_info(disks: &sysinfo::Disks) -> (r: Option<Vec<DiskData>>) {
    Some(
        disks.list().iter().map(
            |disk| DiskData {
                name: disk.name().to_string_lossy().into_owned(),
                kind: disk.kind().to_string(),
                file_system: disk.file_system().to_string_lossy().into_owned(),
                total_space: disk.total_space(),
                available_space: disk.available_space(),
                is_removable: disk.is_removable(),
                mount_path: disk.mount_point().to_string_lossy().into_owned(),
            },
        ).collect(),
    )
}

/// Relies on sysinfo::Networks::list and the per-interface accessors
/// mac_address, received, total_received, total_packets_received,
/// transmitted, total_transmitted and total_packets_transmitted: one record
/// per interface, in no promised order (the provider hands them out of a
/// hash map).
#[verifier::external_body]
pub fn get_network_info(networks: &NetworksHandle) -> (r: Option<Vec<crate::metrics::NetworkData>>) {
    Some(
        networks.inner.list().iter().map(
            |(interface_name, net)| crate::metrics::NetworkData {
                interface_name: interface_name.to_owned(),
                mac_address: net.mac_address().to_string(),
                received: net.received(),
                total_received: net.total_received(),
                total_packets_received: net.total_packets_received(),
                transmitted: net.transmitted(),
                total_transmitted: net.total_transmitted(),
                total_packets_transmitted: net.total_packets_transmitted(),
            },
        ).collect(),
    )
}

/// Read the current memory and swap counters as one record.
pub fn get_memory_info(system: &sysinfo::System) -> (r: Option<MemoryData>)
    ensures
        r is Some,
{
    Some(
        MemoryData {
            free_ram: system.free_memory(),
            total_ram: system.total_memory(),
            free_swap: system.free_swap(),
            total_swap: system.total_swap(),
        },
    )
}

/// The provider handles, owned exclusively by the data collection loop.
pub struct SysinfoSource {
    pub system: sysinfo::System,
    pub disks: sysinfo::Disks,
    pub networks: NetworksHandle,
}

impl SysinfoSource {
    /// Fresh handles with the disk and interface lists already enumerated.
    pub fn new() -> SysinfoSource {
        SysinfoSource {
            system: sysinfo::System::new(),
            disks: sysinfo::Disks::new_with_refreshed_list(),
            networks: new_networks_handle(),
        }
    }
}

/// One data collection cycle's worker: refreshes the provider, attempts the
/// four subsystem extractions independently, and accumulates the snapshot to
/// publish.
pub struct DataCollector {
    pub data: DataCollected,
    pub sys: SysinfoSource,
}

impl DataCollector {
    pub fn new() -> (c: DataCollector)
        ensures
            c.data.is_empty_spec(),
    {
        DataCollector { data: DataCollected::empty(), sys: SysinfoSource::new() }
    }

    /// Refresh every subsystem this cycle will query.
    fn refresh_sysinfo(&mut self) {
        refresh_networks(&mut self.sys.networks);
        self.sys.system.refresh_cpu();
        self.sys.system.refresh_processes();
        self.sys.disks.refresh_list();
        self.sys.disks.refresh();
    }

    /// Run one collection cycle: refresh, then attempt each subsystem's
    /// extraction independently and keep whatever succeeded. A failed
    /// subsystem leaves only its own field absent; the assembly of the
    /// snapshot never mixes one attempt's outcome into another's field.
    pub fn update_data(&mut self) {
        self.refresh_sysinfo();
        let cpu = get_cpu_info(&self.sys.system);
        let processes = get_process_info(&self.sys.system);
        let disk = get_disk_info(&self.sys.disks);
        let networks = get_network_info(&self.sys.networks);
        self.data = DataCollected::assemble(cpu, processes, disk, networks);
    }

    /// Hand the accumulated snapshot over and reset the accumulator to
    /// all-absent for the next cycle.
    pub fn take_data(&mut self) -> (d: DataCollected)
        ensures
            d == old(self).data,
            final(self).data.is_empty_spec(),
    {
        let mut d = DataCollected::empty();
        core::mem::swap(&mut d, &mut self.data);
        d
    }
}

} // verus!
